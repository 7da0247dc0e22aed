//! The error taxonomy and the message/event codec.
//!
//! `Error` is the closed set of semantic errors every fallible operation
//! reports; the mapping from native integer codes is total, with
//! unrecognized codes mapped to `Error::Unknown`. `MidiMessage` and
//! `MidiEvent` pack to and from the 32-bit wire word, and the packing is
//! proved to be an exact round trip in both directions.

use vstd::prelude::*;
use crate::native::{PmError, PmEvent, PmTimestamp, pm_error_from_code};

verus! {

/// Identifier of a device slot, stable only within one context lifetime.
pub type PortMidiDeviceId = i32;

/// The error type: native-origin codes carried as `Error::PortMidi`, plus
/// the binding-level errors.
#[derive(Copy, Clone, Debug, PartialEq, Eq, Structural)]
pub enum Error {
    PortMidi(PmError),
    Unknown,
    Unimplemented,
    NoDefaultDevice,
    NotAnInputDevice,
    NotAnOutputDevice,
    Invalid,
}

impl Error {
    /// What a bare native result code maps to: both success codes to
    /// `Ok`, every known error code to its typed error, anything else to
    /// `Error::Unknown`. Total over `i32`.
    pub open spec fn from_code_spec(code: i32) -> Result<(), Error> {
        if code == 0 || code == 1 {
            Ok(())
        } else {
            match pm_error_from_code(code) {
                Some(e) => Err(Error::PortMidi(e)),
                None => Err(Error::Unknown),
            }
        }
    }

    /// Maps a native result code, totally: both success codes give
    /// `Ok(())`, a recognized error code its typed error, and an
    /// unrecognized code `Error::Unknown` rather than anything undefined.
    pub fn from_code(code: i32) -> (r: Result<(), Error>)
        ensures
            r == Self::from_code_spec(code),
    {
        if code == 0 || code == 1 {
            Ok(())
        } else {
            match crate::native::tmp_from_primitive(code) {
                Some(e) => Err(Error::PortMidi(e)),
                None => Err(Error::Unknown),
            }
        }
    }

    /// Wraps a typed native code as an error value.
    pub fn from_pm(err: PmError) -> (r: Error)
        ensures
            r == Error::PortMidi(err),
    {
        Error::PortMidi(err)
    }

    /// Reads a typed native code as a result: the two success codes give
    /// `Ok(())`, every other code its error.
    pub fn pm_result(err: PmError) -> (r: Result<(), Error>)
        ensures
            r == (match err {
                PmError::PmNoError | PmError::PmGotData => Ok::<(), Error>(()),
                _ => Err(Error::PortMidi(err)),
            }),
    {
        match err {
            PmError::PmNoError | PmError::PmGotData => Ok(()),
            _ => Err(Error::PortMidi(err)),
        }
    }

    /// The description text of this error.
    pub open spec fn description_spec(self) -> Seq<char> {
        match self {
            Error::PortMidi(pm_error) => match pm_error {
                PmError::PmNoError => ""@,
                PmError::PmGotData => "PortMidi: `Illegal error number'"@,
                PmError::PmHostError => "PortMidi: `Host error'"@,
                PmError::PmInvalidDeviceId => "PortMidi: `Invalid device ID'"@,
                PmError::PmInsufficientMemory => "PortMidi: `Insufficient memory'"@,
                PmError::PmBufferTooSmall => "PortMidi: `Buffer too small'"@,
                PmError::PmBufferOverflow => "PortMidi: `Buffer overflow'"@,
                PmError::PmBadPtr => "PortMidi: `Bad pointer'"@,
                PmError::PmBadData => "PortMidi: `Invalid MIDI message Data'"@,
                PmError::PmInternalError => "PortMidi: `Internal PortMidi Error'"@,
                PmError::PmBufferMaxSize => "PortMidi: `Buffer cannot be made larger'"@,
            },
            Error::Unknown => "portmidi-rs: Unknown"@,
            Error::Unimplemented => "portmidi-rs: Unimplemented"@,
            Error::NoDefaultDevice => "portmidi-rs: No default device"@,
            Error::NotAnInputDevice => "portmidi-rs: Not an input device"@,
            Error::NotAnOutputDevice => "portmidi-rs: Not an output device"@,
            Error::Invalid => "portmidi-rs: Invalid"@,
        }
    }

    /// A human-readable description of this error.
    pub fn description(&self) -> (r: String)
        ensures
            r@ == self.description_spec(),
    {
        match *self {
            Error::PortMidi(pm_error) => match pm_error {
                PmError::PmNoError => "".to_owned(),
                PmError::PmGotData => "PortMidi: `Illegal error number'".to_owned(),
                PmError::PmHostError => "PortMidi: `Host error'".to_owned(),
                PmError::PmInvalidDeviceId => "PortMidi: `Invalid device ID'".to_owned(),
                PmError::PmInsufficientMemory => "PortMidi: `Insufficient memory'".to_owned(),
                PmError::PmBufferTooSmall => "PortMidi: `Buffer too small'".to_owned(),
                PmError::PmBufferOverflow => "PortMidi: `Buffer overflow'".to_owned(),
                PmError::PmBadPtr => "PortMidi: `Bad pointer'".to_owned(),
                PmError::PmBadData => "PortMidi: `Invalid MIDI message Data'".to_owned(),
                PmError::PmInternalError => "PortMidi: `Internal PortMidi Error'".to_owned(),
                PmError::PmBufferMaxSize => "PortMidi: `Buffer cannot be made larger'".to_owned(),
            },
            Error::Unknown => "portmidi-rs: Unknown".to_owned(),
            Error::Unimplemented => "portmidi-rs: Unimplemented".to_owned(),
            Error::NoDefaultDevice => "portmidi-rs: No default device".to_owned(),
            Error::NotAnInputDevice => "portmidi-rs: Not an input device".to_owned(),
            Error::NotAnOutputDevice => "portmidi-rs: Not an output device".to_owned(),
            Error::Invalid => "portmidi-rs: Invalid".to_owned(),
        }
    }
}

/// A fixed-width raw channel message: status byte and three data bytes.
///
/// Round-trips losslessly to and from the 32-bit wire word: status in the
/// low byte, then `data1`, `data2`, `data3` toward the high byte.
#[derive(Clone, Copy, PartialEq, Eq, Debug, Structural)]
pub struct MidiMessage {
    pub status: u8,
    pub data1: u8,
    pub data2: u8,
    pub data3: u8,
}

impl MidiMessage {
    /// The wire word this message packs to.
    pub open spec fn encode_spec(self) -> u32 {
        ((self.data3 as u32) << 24) | ((self.data2 as u32) << 16) | ((self.data1 as u32) << 8)
            | (self.status as u32)
    }

    /// The message a wire word unpacks to.
    pub open spec fn decode_spec(raw: u32) -> MidiMessage {
        MidiMessage {
            status: (raw & 0x00_00_00_FF) as u8,
            data1: ((raw & 0x00_00_FF_00) >> 8) as u8,
            data2: ((raw & 0x00_FF_00_00) >> 16) as u8,
            data3: ((raw & 0xFF_00_00_00) >> 24) as u8,
        }
    }

    /// Unpacks a wire word. Total: any 32-bit word is a valid input.
    pub fn from(raw: u32) -> (m: MidiMessage)
        ensures
            m == Self::decode_spec(raw),
    {
        proof {
            assert((raw & 0x00_00_00_FF) < 256) by (bit_vector);
            assert(((raw & 0x00_00_FF_00) >> 8) < 256) by (bit_vector);
            assert(((raw & 0x00_FF_00_00) >> 16) < 256) by (bit_vector);
            assert(((raw & 0xFF_00_00_00) >> 24) < 256) by (bit_vector);
        }
        MidiMessage {
            status: (raw & 0x00_00_00_FF) as u8,
            data1: ((raw & 0x00_00_FF_00) >> 8) as u8,
            data2: ((raw & 0x00_FF_00_00) >> 16) as u8,
            data3: ((raw & 0xFF_00_00_00) >> 24) as u8,
        }
    }

    /// Builds a message from its four raw bytes, in wire order.
    pub fn from_bytes(raw: [u8; 4]) -> (m: MidiMessage)
        ensures
            m.status == raw[0],
            m.data1 == raw[1],
            m.data2 == raw[2],
            m.data3 == raw[3],
    {
        MidiMessage { status: raw[0], data1: raw[1], data2: raw[2], data3: raw[3] }
    }

    /// Packs this message into its wire word. Total: any message packs.
    pub fn encode(self) -> (w: u32)
        ensures
            w == self.encode_spec(),
    {
        ((self.data3 as u32) << 24) | ((self.data2 as u32) << 16) | ((self.data1 as u32) << 8)
            | (self.status as u32)
    }
}

/// Unpacking the wire word of a message gives the message back: the
/// packing loses nothing, for every byte-valid message.
pub proof fn lemma_message_round_trip(m: MidiMessage)
    ensures
        MidiMessage::decode_spec(m.encode_spec()) == m,
{
    let s = m.status;
    let d1 = m.data1;
    let d2 = m.data2;
    let d3 = m.data3;
    let w = m.encode_spec();
    assert(w == ((d3 as u32) << 24) | ((d2 as u32) << 16) | ((d1 as u32) << 8) | (s as u32));
    assert(((((d3 as u32) << 24) | ((d2 as u32) << 16) | ((d1 as u32) << 8) | (s as u32))
        & 0x00_00_00_FF) as u8 == s) by (bit_vector);
    assert((((((d3 as u32) << 24) | ((d2 as u32) << 16) | ((d1 as u32) << 8) | (s as u32))
        & 0x00_00_FF_00) >> 8) as u8 == d1) by (bit_vector);
    assert((((((d3 as u32) << 24) | ((d2 as u32) << 16) | ((d1 as u32) << 8) | (s as u32))
        & 0x00_FF_00_00) >> 16) as u8 == d2) by (bit_vector);
    assert((((((d3 as u32) << 24) | ((d2 as u32) << 16) | ((d1 as u32) << 8) | (s as u32))
        & 0xFF_00_00_00) >> 24) as u8 == d3) by (bit_vector);
}

/// Packing the message a wire word unpacks to gives the word back: every
/// 32-bit word is reached, and all 32 bits are used.
pub proof fn lemma_word_round_trip(w: u32)
    ensures
        MidiMessage::decode_spec(w).encode_spec() == w,
{
    assert(((((w & 0xFF_00_00_00) >> 24) as u8 as u32) << 24)
        | ((((w & 0x00_FF_00_00) >> 16) as u8 as u32) << 16)
        | ((((w & 0x00_00_FF_00) >> 8) as u8 as u32) << 8)
        | ((w & 0x00_00_00_FF) as u8 as u32) == w) by (bit_vector);
}

/// A timestamped midi event.
///
/// On input the timestamp is the arrival time; on output it is the
/// scheduled delivery time, where zero means "send immediately".
#[derive(Clone, Copy, PartialEq, Eq, Debug, Structural)]
pub struct MidiEvent {
    pub message: MidiMessage,
    pub timestamp: PmTimestamp,
}

impl MidiEvent {
    /// The event a native event record decodes to.
    pub open spec fn decode_spec(raw: PmEvent) -> MidiEvent {
        MidiEvent { message: MidiMessage::decode_spec(raw.message), timestamp: raw.timestamp }
    }

    /// The native event record this event encodes to.
    pub open spec fn encode_spec(self) -> PmEvent {
        PmEvent { message: self.message.encode_spec(), timestamp: self.timestamp }
    }

    /// Decodes a native event record. Total.
    pub fn from(raw: PmEvent) -> (e: MidiEvent)
        ensures
            e == Self::decode_spec(raw),
    {
        MidiEvent { message: MidiMessage::from(raw.message), timestamp: raw.timestamp }
    }

    /// Wraps a bare message as an event sent immediately (timestamp zero).
    pub fn from_message(msg: MidiMessage) -> (e: MidiEvent)
        ensures
            e.message == msg,
            e.timestamp == 0,
    {
        MidiEvent { message: msg, timestamp: 0 }
    }

    /// Encodes this event as a native event record. Total.
    pub fn into_raw(self) -> (r: PmEvent)
        ensures
            r == self.encode_spec(),
    {
        PmEvent { message: self.message.encode(), timestamp: self.timestamp }
    }
}

/// Decoding the native record of an event gives the event back.
pub proof fn lemma_event_round_trip(e: MidiEvent)
    ensures
        MidiEvent::decode_spec(e.encode_spec()) == e,
{
    lemma_message_round_trip(e.message);
}

/// Encoding the event a native record decodes to gives the record back.
pub proof fn lemma_raw_event_round_trip(raw: PmEvent)
    ensures
        MidiEvent::decode_spec(raw).encode_spec() == raw,
{
    lemma_word_round_trip(raw.message);
}

} // verus!
