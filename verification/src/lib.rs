//! A safety layer for MIDI device and stream management.
//!
//! The library exposes device enumeration, input/output port lifecycles and
//! message/event marshalling over a native MIDI runtime, and proves the
//! discipline that layer owes its callers: opened streams are closed exactly
//! once, direction is checked before every open, raw result codes map
//! totally into a typed error taxonomy, and the wire-word packing of
//! messages is an exact round trip.
//!
//! The native runtime itself is an external capability. [`Host`] models
//! its surface — init and terminate, enumeration, stream open, read,
//! write, poll and close, virtual devices — as a plain value with exact
//! contracts; the layers above are verified against those contracts, and
//! a binding to the real runtime stands outside the library, replaying
//! the same calls.

use vstd::prelude::*;

mod context;
mod device;
mod global;
mod host;
mod io;
mod native;
mod time;
mod types;
mod util;
mod vdevice;

pub use context::{PortMidi, teardown_calls};
pub use device::{DeviceInfo, Direction};
pub use global::{
    count_devices, get_default_input_device_id, get_default_output_device_id, initialize,
    terminate,
};
pub use host::{
    Host, HostCall, HostDevice, HostStream, devices_except, frame_devices, only_pending_changed,
};
pub use io::{InputPort, OutputPort, can_open_input, can_open_output};
pub use native::{
    MaybeError, PM_NO_DEVICE, PmDeviceId, PmDeviceInfo, PmError, PmEvent, PmMessage, PmTimestamp,
    pm_error_from_code, tmp_from_primitive, try_from_code_spec,
};
pub use time::PtError;
pub use types::{
    Error, MidiEvent, MidiMessage, PortMidiDeviceId, lemma_event_round_trip,
    lemma_message_round_trip, lemma_raw_event_round_trip, lemma_word_round_trip,
};
pub use util::PmQueue;
pub use vdevice::VirtualDevice;

verus! {

/// Header length of the native layer's sysex buffers.
pub const HDRLENGTH: i32 = 50;

/// Size of the buffer the native layer fills with host error text.
pub const PM_HOST_ERROR_MSG_LEN: i32 = 256;

} // verus!
