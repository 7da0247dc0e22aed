//! The device model: identity, name and event direction of one device of
//! the native enumeration.

use vstd::prelude::*;
use crate::host::Host;
use crate::native::PmError;
use crate::types::{Error, PortMidiDeviceId};

verus! {

/// Device event direction.
#[derive(Debug, Clone, Copy, PartialEq, Eq, Structural)]
pub enum Direction {
    Input,
    Output,
}

/// Represents one device of the native enumeration. Immutable once
/// constructed; construction for an invalid id fails and never returns a
/// half-built value.
#[derive(Clone, Debug)]
pub struct DeviceInfo {
    id: PortMidiDeviceId,
    /// The device name.
    name: String,
    /// Event direction.
    dir: Direction,
}

impl DeviceInfo {
    /// The id this record was built for.
    pub closed spec fn id_spec(&self) -> i32 {
        self.id
    }

    /// The device name.
    pub closed spec fn name_spec(&self) -> Seq<char> {
        self.name@
    }

    /// The event direction.
    pub closed spec fn dir_spec(&self) -> Direction {
        self.dir
    }

    /// The direction an enumeration record maps to: a device with input
    /// capability reads as input, every other device reads as output.
    pub open spec fn direction_of(input: bool) -> Direction {
        if input {
            Direction::Input
        } else {
            Direction::Output
        }
    }

    /// Builds the record for the device at `id`, exactly when the native
    /// enumeration knows that id; an out-of-range or deleted id gives the
    /// invalid-device error.
    pub fn new(host: &Host, id: PortMidiDeviceId) -> (r: Result<DeviceInfo, Error>)
        requires
            host.wf(),
        ensures
            host.valid_device(id as int) ==> (r matches Ok(d) && d.id_spec() == id
                && d.name_spec() == host.devices@[id as int].name@ && d.dir_spec()
                == Self::direction_of(host.devices@[id as int].input)),
            !host.valid_device(id as int) ==> r == Err::<DeviceInfo, Error>(
                Error::PortMidi(PmError::PmInvalidDeviceId),
            ),
    {
        match host.device_info(id) {
            None => Err(Error::PortMidi(PmError::PmInvalidDeviceId)),
            Some(info) => {
                let direction = if info.input {
                    Direction::Input
                } else {
                    Direction::Output
                };
                Ok(DeviceInfo { id, name: info.name, dir: direction })
            },
        }
    }

    /// Returns `true` for an input device.
    pub fn is_input(&self) -> (r: bool)
        ensures
            r == (self.dir_spec() == Direction::Input),
    {
        match self.dir {
            Direction::Input => true,
            _ => false,
        }
    }

    /// Returns `true` for an output device.
    pub fn is_output(&self) -> (r: bool)
        ensures
            r == (self.dir_spec() != Direction::Input),
    {
        !self.is_input()
    }

    /// Returns the device name.
    pub fn name(&self) -> (r: &String)
        ensures
            r@ == self.name_spec(),
    {
        &self.name
    }

    /// Returns the device event direction.
    pub fn direction(&self) -> (r: Direction)
        ensures
            r == self.dir_spec(),
    {
        self.dir
    }

    /// Returns the device id.
    pub fn id(&self) -> (r: PortMidiDeviceId)
        ensures
            r == self.id_spec(),
    {
        self.id
    }
}

} // verus!
