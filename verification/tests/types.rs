use portmidi::{Error, MaybeError, MidiEvent, MidiMessage, PmError, PmEvent};

#[test]
fn test_types() {
    let message = portmidi::MidiMessage::from(0x007F3C81);
    // NoteOn
    assert_eq!(message.status, 0x81);
    // Key: Note 60
    assert_eq!(message.data1, 60);
    // Velocity: 127
    assert_eq!(message.data2, 127);
}

#[test]
fn message_encodes_to_exact_wire_word() {
    let note_on = MidiMessage { status: 0x90, data1: 60, data2: 127, data3: 0 };
    assert_eq!(note_on.encode(), 0x007F3C90);
    let all_bytes = MidiMessage { status: 0x01, data1: 0x02, data2: 0x03, data3: 0x04 };
    assert_eq!(all_bytes.encode(), 0x04030201);
}

#[test]
fn message_round_trips_through_wire_word() {
    let samples = vec![
        MidiMessage { status: 0x90, data1: 60, data2: 127, data3: 0 },
        MidiMessage { status: 0x80, data1: 60, data2: 0, data3: 0 },
        MidiMessage { status: 0xFF, data1: 0xFF, data2: 0xFF, data3: 0xFF },
        MidiMessage { status: 0, data1: 0, data2: 0, data3: 0 },
        MidiMessage { status: 0xF7, data1: 1, data2: 2, data3: 3 },
    ];
    for m in samples {
        assert_eq!(MidiMessage::from(m.encode()), m);
    }
}

#[test]
fn wire_word_round_trips_through_message() {
    let words: Vec<u32> = vec![0, 1, 0x007F3C90, 0xFFFF_FFFF, 0x8000_0001, 0x04030201];
    for w in words {
        assert_eq!(MidiMessage::from(w).encode(), w);
    }
}

#[test]
fn message_from_bytes_keeps_wire_order() {
    let m = MidiMessage::from_bytes([0x90, 60, 127, 9]);
    assert_eq!(m.status, 0x90);
    assert_eq!(m.data1, 60);
    assert_eq!(m.data2, 127);
    assert_eq!(m.data3, 9);
}

#[test]
fn event_round_trips_through_native_record() {
    let e = MidiEvent {
        message: MidiMessage { status: 0x91, data1: 33, data2: 64, data3: 0 },
        timestamp: 1234,
    };
    let raw = e.into_raw();
    assert_eq!(raw.message, 0x0040_2191);
    assert_eq!(raw.timestamp, 1234);
    assert_eq!(MidiEvent::from(raw), e);
    let raw2 = PmEvent { message: 0xDEAD_BEEF, timestamp: 7 };
    assert_eq!(MidiEvent::from(raw2).into_raw(), raw2);
}

#[test]
fn event_from_message_sends_immediately() {
    let m = MidiMessage { status: 0x90, data1: 1, data2: 2, data3: 3 };
    let e = MidiEvent::from_message(m);
    assert_eq!(e.message, m);
    assert_eq!(e.timestamp, 0);
}

#[test]
fn default_native_event_is_zeroed() {
    let e: PmEvent = Default::default();
    assert_eq!(e.message, 0);
    assert_eq!(e.timestamp, 0);
}

#[test]
fn every_native_code_maps_to_its_typed_code() {
    let table = vec![
        (0, Some(PmError::PmNoError)),
        (1, Some(PmError::PmGotData)),
        (-10000, Some(PmError::PmHostError)),
        (-9999, Some(PmError::PmInvalidDeviceId)),
        (-9998, Some(PmError::PmInsufficientMemory)),
        (-9997, Some(PmError::PmBufferTooSmall)),
        (-9996, Some(PmError::PmBufferOverflow)),
        (-9995, Some(PmError::PmBadPtr)),
        (-9994, Some(PmError::PmBadData)),
        (-9993, Some(PmError::PmInternalError)),
        (-9992, Some(PmError::PmBufferMaxSize)),
        (-9991, None),
        (2, None),
        (12345, None),
    ];
    for (code, expected) in table {
        assert_eq!(portmidi::tmp_from_primitive(code), expected);
        if let Some(e) = expected {
            assert_eq!(e.code(), code);
        }
    }
}

#[test]
fn both_success_codes_map_to_ok() {
    assert_eq!(Error::from_code(0), Ok(()));
    assert_eq!(Error::from_code(1), Ok(()));
    assert_eq!(Error::pm_result(PmError::PmNoError), Ok(()));
    assert_eq!(Error::pm_result(PmError::PmGotData), Ok(()));
}

#[test]
fn every_error_code_maps_to_its_error() {
    assert_eq!(Error::from_code(-10000), Err(Error::PortMidi(PmError::PmHostError)));
    assert_eq!(Error::from_code(-9999), Err(Error::PortMidi(PmError::PmInvalidDeviceId)));
    assert_eq!(Error::from_code(-9998), Err(Error::PortMidi(PmError::PmInsufficientMemory)));
    assert_eq!(Error::from_code(-9997), Err(Error::PortMidi(PmError::PmBufferTooSmall)));
    assert_eq!(Error::from_code(-9996), Err(Error::PortMidi(PmError::PmBufferOverflow)));
    assert_eq!(Error::from_code(-9995), Err(Error::PortMidi(PmError::PmBadPtr)));
    assert_eq!(Error::from_code(-9994), Err(Error::PortMidi(PmError::PmBadData)));
    assert_eq!(Error::from_code(-9993), Err(Error::PortMidi(PmError::PmInternalError)));
    assert_eq!(Error::from_code(-9992), Err(Error::PortMidi(PmError::PmBufferMaxSize)));
}

#[test]
fn unrecognized_codes_map_to_unknown() {
    assert_eq!(Error::from_code(-1), Err(Error::Unknown));
    assert_eq!(Error::from_code(-9991), Err(Error::Unknown));
    assert_eq!(Error::from_code(i32::MIN), Err(Error::Unknown));
    assert_eq!(Error::from_code(i32::MAX), Err(Error::Unknown));
}

#[test]
fn count_or_code_results_split_as_documented() {
    assert_eq!(<PmError as MaybeError<i32>>::try_from(0), Err(PmError::PmNoError));
    assert_eq!(<PmError as MaybeError<i32>>::try_from(1), Ok(1));
    assert_eq!(<PmError as MaybeError<i32>>::try_from(5), Ok(5));
    assert_eq!(<PmError as MaybeError<i32>>::try_from(-9996), Err(PmError::PmBufferOverflow));
    assert_eq!(<PmError as MaybeError<i32>>::try_from(-9989), Err(PmError::PmInvalidDeviceId));
    assert_eq!(<PmError as MaybeError<i32>>::try_from(-42), Ok(-42));
}

#[test]
fn error_descriptions_match_their_text() {
    assert_eq!(
        Error::PortMidi(PmError::PmHostError).description(),
        "PortMidi: `Host error'"
    );
    assert_eq!(
        Error::PortMidi(PmError::PmInvalidDeviceId).description(),
        "PortMidi: `Invalid device ID'"
    );
    assert_eq!(
        Error::PortMidi(PmError::PmBufferOverflow).description(),
        "PortMidi: `Buffer overflow'"
    );
    assert_eq!(Error::PortMidi(PmError::PmNoError).description(), "");
    assert_eq!(Error::Unknown.description(), "portmidi-rs: Unknown");
    assert_eq!(Error::Unimplemented.description(), "portmidi-rs: Unimplemented");
    assert_eq!(Error::NoDefaultDevice.description(), "portmidi-rs: No default device");
    assert_eq!(Error::NotAnInputDevice.description(), "portmidi-rs: Not an input device");
    assert_eq!(Error::NotAnOutputDevice.description(), "portmidi-rs: Not an output device");
    assert_eq!(Error::Invalid.description(), "portmidi-rs: Invalid");
}
