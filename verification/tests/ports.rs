use portmidi::{
    Direction, Error, Host, InputPort, MidiEvent, MidiMessage, OutputPort, PmError, PortMidi,
};

/// A host with one default input device and one default output device,
/// connected as a loopback pair: what goes out comes back in.
fn loopback_host() -> Host {
    let mut host = Host::new();
    let input = host.add_device(String::from("loop in"), true, false);
    let output = host.add_device(String::from("loop out"), false, true);
    host.set_default_input(input);
    host.set_default_output(output);
    host.connect(output, input);
    host
}

#[test]
fn test_main() {
    let mut host = loopback_host();
    let mut context = PortMidi::new(&mut host).unwrap();
    assert!(context.device_count() > 0);
    assert!(context.default_input_device_id(&host).is_ok());
    assert!(context.default_output_device_id(&host).is_ok());
    assert!(context.devices(&host).unwrap().len() > 0);

    assert_eq!(context.virtual_device_count(), 0);
    let v_in = context.create_virtual_input(&mut host, String::from("Virt in")).unwrap();
    context.create_virtual_output(&mut host, String::from("Virt out")).unwrap();
    assert_eq!(context.virtual_device_count(), 2);
    context.delete_virtual_device(&mut host, v_in.id()).unwrap();
    assert_eq!(context.virtual_device_count(), 1);

    let mut in_port = context.default_input_port(&mut host, 1024).unwrap();
    let mut out_port = context.default_output_port(&mut host, 1024).unwrap();
    match in_port.poll(&host) {
        Ok(flag) => println!("test_main) midi events available: {}", flag),
        Err(err) => println!("test_main) poll error: {}", err.description()),
    };
    match in_port.read(&mut host) {
        Ok(Some(event)) => println!("received midi event: {:?}", event),
        Ok(None) => println!("test_main) no midi event available"),
        Err(err) => println!("test_main) read error: {}", err.description()),
    };
    let msgs = vec![
        MidiMessage { status: 0x90, data1: 60, data2: 127, data3: 0 },
        MidiMessage { status: 0x80, data1: 60, data2: 0, data3: 0 },
    ];
    let events: Vec<MidiEvent> = msgs.into_iter().map(MidiEvent::from_message).collect();
    match out_port.write_events(&mut host, events) {
        Ok(_) => println!("test_main) successfully wrote midi events"),
        Err(err) => println!("test_main) write error: {}", err.description()),
    }
}

#[test]
fn test_test_midiin() {
    let mut host = loopback_host();
    let result = portmidi::initialize(&mut host);
    assert_eq!(result, Ok(()));

    let nbdevice = portmidi::count_devices(&host);
    println!("portmidi nb device {:?}", nbdevice);
    let defdevin = portmidi::get_default_input_device_id(&host).unwrap();
    println!("portmidi default input device {:?}", defdevin);
    let defdevout = portmidi::get_default_output_device_id(&host).unwrap();
    println!("portmidi default output device {:?}", defdevout);

    let ininfo = portmidi::DeviceInfo::new(&host, defdevin);
    println!("portmidi default input device info {:?}", ininfo);
    let outinfo = portmidi::DeviceInfo::new(&host, defdevout);
    println!("portmidi default output device info {:?}", outinfo);

    let mut inport = InputPort::new(&mut host, ininfo.unwrap(), 0).unwrap();
    let mut outport = OutputPort::new(&mut host, outinfo.unwrap(), 100).unwrap();
    println!("portmidi new output device {:?}", defdevout);

    let read_midi = inport.read(&mut host);
    println!("portmidi input note {:?}", read_midi);
    match read_midi {
        Ok(Some(notes)) => println!("portmidi read midi note {:?}", notes),
        Ok(None) => println!("portmidi read midi no note {:?}", PmError::PmNoError),
        Err(err) => println!("portmidi read midi error {:?}", err),
    }

    let innote = inport.poll(&host);
    assert_eq!(innote, Ok(false));

    // send note
    let note1 = MidiEvent {
        message: MidiMessage {
            status: 1 | 0x90, // channel and note on
            data1: 36, // note number
            data2: 90, // velocity
            data3: 0,
        },
        timestamp: 0,
    };
    let sendnoteerr = outport.write_event(&mut host, note1);
    assert_eq!(sendnoteerr, Ok(()));

    let note2 = MidiMessage {
        status: 1 | 0x80, // channel and note off
        data1: 36, // note number
        data2: 0, // velocity
        data3: 0,
    };
    let sendnote2err = outport.write_message(&mut host, note2);
    assert_eq!(sendnote2err, Ok(()));

    // close out port
    let aborterr = outport.abort(&host);
    assert_eq!(aborterr, Ok(()));
    let outcloseerr = outport.close(&mut host);
    assert_eq!(outcloseerr, Ok(()));

    // close in port
    let incloseerr = inport.close(&mut host);
    assert_eq!(incloseerr, Ok(()));

    // terminate midi
    let result = portmidi::terminate(&mut host);
    assert_eq!(result, Ok(()));
}

#[test]
fn tests_test_midiin() {
    let mut host = loopback_host();
    let result = portmidi::initialize(&mut host);
    assert_eq!(result, Ok(()));

    let nbdevice = portmidi::count_devices(&host);
    println!("portmidi nb device {:?}", nbdevice);
    let defdevin = portmidi::get_default_input_device_id(&host).unwrap();
    println!("portmidi default input device {:?}", defdevin);
    let defdevout = portmidi::get_default_output_device_id(&host).unwrap();
    println!("portmidi default output device {:?}", defdevout);

    let ininfo = portmidi::DeviceInfo::new(&host, defdevin);
    println!("portmidi default input device info {:?}", ininfo);
    let outinfo = portmidi::DeviceInfo::new(&host, defdevout);
    println!("portmidi default output device info {:?}", outinfo);

    let mut inport = InputPort::new(&mut host, ininfo.unwrap(), 0).unwrap();
    let mut outport = OutputPort::new(&mut host, outinfo.unwrap(), 100).unwrap();

    let read_midi = inport.read(&mut host);
    println!("portmidi input note {:?}", read_midi);
    match read_midi {
        Ok(Some(notes)) => println!("portmidi read midi note {:?}", notes),
        Ok(None) => println!("portmidi read midi no note"),
        Err(err) => println!("portmidi read midi error {:?}", err),
    }

    let result = inport.poll(&host);
    assert_eq!(result, Ok(false));

    // send note
    let note1 = MidiEvent {
        message: MidiMessage {
            status: 1 | 0x90, // channel and note on
            data1: 36, // note number
            data2: 90, // velocity
            data3: 0,
        },
        timestamp: 0,
    };
    let result = outport.write_event(&mut host, note1);
    assert_eq!(result, Ok(()));

    let note2 = MidiMessage {
        status: 1 | 0x80, // channel and note off
        data1: 36, // note number
        data2: 0, // velocity
        data3: 0,
    };
    let result = outport.write_message(&mut host, note2);
    assert_eq!(result, Ok(()));

    // close out port
    let result = outport.close(&mut host);
    assert_eq!(result, Ok(()));

    // close in port
    let result = inport.close(&mut host);
    assert_eq!(result, Ok(()));

    // terminate midi
    let result = portmidi::terminate(&mut host);
    assert_eq!(result, Ok(()));
}

#[test]
fn read_n_on_fresh_empty_port_returns_ok_none() {
    let mut host = loopback_host();
    let context = PortMidi::new(&mut host).unwrap();
    let in_port = context.default_input_port(&mut host, 1024).unwrap();
    assert_eq!(in_port.read_n(&mut host, 1024), Ok(None));
    assert_eq!(in_port.read_n(&mut host, 1), Ok(None));
}

#[test]
fn poll_false_then_true_after_loopback_write_and_read_gets_the_message() {
    let mut host = loopback_host();
    let context = PortMidi::new(&mut host).unwrap();
    let mut in_port = context.default_input_port(&mut host, 1024).unwrap();
    let mut out_port = context.default_output_port(&mut host, 1024).unwrap();

    assert_eq!(in_port.poll(&host), Ok(false));

    let msg = MidiMessage { status: 0x90, data1: 60, data2: 127, data3: 0 };
    assert_eq!(out_port.write_message(&mut host, msg), Ok(()));

    assert_eq!(in_port.poll(&host), Ok(true));
    let got = in_port.read(&mut host).unwrap();
    assert_eq!(got.map(|e| e.message), Some(msg));
    assert_eq!(in_port.poll(&host), Ok(false));
}

#[test]
fn input_port_over_output_device_fails_without_native_open() {
    let mut host = loopback_host();
    let context = PortMidi::new(&mut host).unwrap();
    let out_dev = context.device(&host, 1).unwrap();
    assert_eq!(out_dev.direction(), Direction::Output);

    let streams_before = host.streams.len();
    let r = context.input_port(&mut host, out_dev, 1024);
    assert!(matches!(r, Err(Error::NotAnInputDevice)));
    // no native open happened: no stream was allocated, no device marked open
    assert_eq!(host.streams.len(), streams_before);
    assert!(!host.devices[1].opened);

    let in_dev = context.device(&host, 0).unwrap();
    let r = context.output_port(&mut host, in_dev, 1024);
    assert!(matches!(r, Err(Error::NotAnOutputDevice)));
    assert_eq!(host.streams.len(), streams_before);
    assert!(!host.devices[0].opened);
}

#[test]
fn close_releases_exactly_once() {
    let mut host = loopback_host();
    let context = PortMidi::new(&mut host).unwrap();
    let mut in_port = context.default_input_port(&mut host, 16).unwrap();
    assert!(host.devices[0].opened);
    assert_eq!(in_port.close(&mut host), Ok(()));
    assert!(!host.devices[0].opened);
    // the handle is dead now: a second close reports, non-fatally, and frees nothing
    assert_eq!(in_port.close(&mut host), Err(Error::PortMidi(PmError::PmBadPtr)));
    assert!(!host.devices[0].opened);
    // and the dead handle is refused everywhere
    assert_eq!(in_port.poll(&host), Err(Error::PortMidi(PmError::PmBadPtr)));
    assert_eq!(in_port.read(&mut host), Err(Error::PortMidi(PmError::PmBadPtr)));
}

#[test]
fn opening_an_opened_device_is_refused() {
    let mut host = loopback_host();
    let context = PortMidi::new(&mut host).unwrap();
    let _first = context.default_input_port(&mut host, 16).unwrap();
    let second = context.default_input_port(&mut host, 16);
    assert_eq!(
        second.err().map(|e| e.description()),
        Some(String::from("PortMidi: `Invalid device ID'"))
    );
}

#[test]
fn batch_writes_preserve_order_and_read_n_clamps_to_buffer() {
    let mut host = loopback_host();
    let context = PortMidi::new(&mut host).unwrap();
    let in_port = context.default_input_port(&mut host, 2).unwrap();
    let mut out_port = context.default_output_port(&mut host, 1024).unwrap();

    let events: Vec<MidiEvent> = (0u8..5)
        .map(|i| MidiEvent {
            message: MidiMessage { status: 0x90, data1: i, data2: 100, data3: 0 },
            timestamp: i as u32,
        })
        .collect();
    assert_eq!(out_port.write_events(&mut host, events.clone()), Ok(()));

    // the port's capacity is 2, so a read of 1024 still returns at most 2,
    // and in the order written
    let first = in_port.read_n(&mut host, 1024).unwrap().unwrap();
    assert_eq!(first, events[0..2].to_vec());
    let second = in_port.read_n(&mut host, 2).unwrap().unwrap();
    assert_eq!(second, events[2..4].to_vec());
    let third = in_port.read_n(&mut host, 2).unwrap().unwrap();
    assert_eq!(third, events[4..5].to_vec());
    assert_eq!(in_port.read_n(&mut host, 2), Ok(None));
}

#[test]
fn abort_reports_on_dead_handles_only() {
    let mut host = loopback_host();
    let context = PortMidi::new(&mut host).unwrap();
    let mut out_port = context.default_output_port(&mut host, 16).unwrap();
    assert_eq!(out_port.abort(&host), Ok(()));
    assert_eq!(out_port.close(&mut host), Ok(()));
    assert_eq!(out_port.abort(&host), Err(Error::PortMidi(PmError::PmBadPtr)));
}
