//! A standalone virtual device handle, owned by its creator.

use vstd::prelude::*;
use crate::device::{DeviceInfo, Direction};
use crate::host::{Host, HostCall};
use crate::types::{Error, PortMidiDeviceId};

verus! {

/// A software-only device endpoint created at runtime. Whoever creates it
/// owns it; its native backing device is released exactly once, by
/// `delete`, which consumes the handle — the same handle can never free
/// it twice.
#[derive(Clone, Debug)]
pub struct VirtualDevice {
    info: DeviceInfo,
}

impl VirtualDevice {
    /// The id of the backing device.
    pub closed spec fn id_spec(&self) -> i32 {
        self.info.id_spec()
    }

    /// The device name.
    pub closed spec fn name_spec(&self) -> Seq<char> {
        self.info.name_spec()
    }

    /// The event direction.
    pub closed spec fn dir_spec(&self) -> Direction {
        self.info.dir_spec()
    }

    /// Creates a virtual input or output device depending on the
    /// direction argument and returns its handle. The native layer treats
    /// a name collision as a fatal misconfiguration, so a name already
    /// carried by a live device is excluded up front.
    pub fn new(host: &mut Host, name: &str, direction: Direction) -> (r: Result<
        VirtualDevice,
        Error,
    >)
        requires
            old(host).wf(),
            old(host).up,
            old(host).devices@.len() < 0x7fff_ffff,
            forall|k: int|
                0 <= k < old(host).devices@.len() ==> !(!old(host).devices@[k].deleted && old(host).devices@[k].name@ == name@),
        ensures
            final(host).wf(),
            r matches Ok(v) && v.id_spec() == old(host).devices@.len() && v.name_spec() == name@
                && v.dir_spec() == direction,
            final(host).devices@.len() == old(host).devices@.len() + 1,
            forall|i: int|
                0 <= i < old(host).devices@.len() ==> final(host).devices@[i] == old(host).devices@[i],
            final(host).devices@.last().name@ == name@,
            final(host).devices@.last().input == (direction == Direction::Input),
            final(host).devices@.last().output == (direction != Direction::Input),
            final(host).devices@.last().is_virtual,
            !final(host).devices@.last().deleted,
            !final(host).devices@.last().opened,
            final(host).streams@ == old(host).streams@,
            final(host).up == old(host).up,
            final(host).log@ == old(host).log@,
            final(host).default_input == old(host).default_input,
            final(host).default_output == old(host).default_output,
    {
        let owned = name.to_owned();
        let id: PortMidiDeviceId = match direction {
            Direction::Input => host.create_virtual_input(owned),
            Direction::Output => host.create_virtual_output(owned),
        };
        match DeviceInfo::new(host, id) {
            Ok(info) => Ok(VirtualDevice { info }),
            Err(e) => Err(e),
        }
    }

    /// Returns the device id.
    pub fn id(&self) -> (r: PortMidiDeviceId)
        ensures
            r == self.id_spec(),
    {
        self.info.id()
    }

    /// Returns the device name.
    pub fn name(&self) -> (r: &str)
        ensures
            r@ == self.name_spec(),
    {
        self.info.name().as_str()
    }

    /// Returns `true` for a virtual input device.
    pub fn is_input(&self) -> (r: bool)
        ensures
            r == (self.dir_spec() == Direction::Input),
    {
        self.info.is_input()
    }

    /// Returns `true` for a virtual output device.
    pub fn is_output(&self) -> (r: bool)
        ensures
            r == (self.dir_spec() != Direction::Input),
    {
        self.info.is_output()
    }

    /// Deletes the backing device, consuming the handle: the deletion is
    /// attempted exactly once, whatever it reports.
    pub fn delete(self, host: &mut Host) -> (r: Result<(), Error>)
        requires
            old(host).wf(),
        ensures
            final(host).wf(),
            final(host).log@ == old(host).log@.push(HostCall::DeleteVirtual(self.id_spec())),
            ({
                let ok = old(host).valid_device(self.id_spec() as int) && old(host).devices@[self.id_spec() as int].is_virtual && !old(host).devices@[self.id_spec() as int].opened;
                if ok {
                    &&& r is Ok
                    &&& final(host).devices@.len() == old(host).devices@.len()
                    &&& forall|i: int|
                        0 <= i < old(host).devices@.len() && i != self.id_spec() ==> final(host).devices@[i] == old(host).devices@[i]
                    &&& final(host).devices@[self.id_spec() as int].deleted
                } else {
                    r == Err::<(), Error>(Error::PortMidi(crate::native::PmError::PmInvalidDeviceId))
                        && final(host).devices@ == old(host).devices@
                }
            }),
            final(host).streams@ == old(host).streams@,
            final(host).up == old(host).up,
    {
        let code = host.delete_virtual_device(self.info.id());
        Error::from_code(code)
    }
}

} // verus!
