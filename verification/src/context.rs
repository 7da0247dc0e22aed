//! The context: process-scoped owner of the native layer.
//!
//! A `PortMidi` value is created by one initialization call, snapshots the
//! device count once, tracks every virtual device created through it, and
//! is torn down by `shutdown`, which deletes every tracked virtual device
//! before it terminates the native layer — failures on that path are
//! absorbed, never raised. Exclusive mutation of the registry is enforced
//! by ownership: every mutating operation takes the context by `&mut`, the
//! single-writer discipline the registry needs.

use vstd::prelude::*;
use crate::device::{DeviceInfo, Direction};
use crate::host::{Host, HostCall, HostDevice, HostStream, devices_except};
use crate::io::{InputPort, OutputPort, can_open_input, can_open_output};
use crate::native::{PM_NO_DEVICE, PmError};
use crate::types::{Error, PortMidiDeviceId};

verus! {

/// The calls a teardown of the given registry makes, in order: one
/// deletion per tracked id, most recently tracked first.
pub open spec fn teardown_calls(regs: Seq<i32>) -> Seq<HostCall> {
    regs.reverse().map_values(|id: i32| HostCall::DeleteVirtual(id))
}

/// The PortMidi base struct: device-count snapshot and the registry of
/// virtual devices created through this context.
pub struct PortMidi {
    device_count: u32,
    virtual_devs: Vec<PortMidiDeviceId>,
}

impl PortMidi {
    /// The device count snapshotted at construction.
    pub closed spec fn device_count_spec(&self) -> u32 {
        self.device_count
    }

    /// The ids of the virtual devices this context tracks, in creation
    /// order.
    pub closed spec fn virtual_devs_spec(&self) -> Seq<i32> {
        self.virtual_devs@
    }

    /// Well-formedness: the snapshot fits a native count, and no virtual
    /// device is tracked twice.
    pub open spec fn wf(&self) -> bool {
        &&& self.device_count_spec() <= 0x7fff_ffff
        &&& self.virtual_devs_spec().len() <= 0x7fff_ffff
        &&& forall|i: int|
            0 <= i < self.virtual_devs_spec().len() ==> 0 <= #[trigger] self.virtual_devs_spec()[i]
        &&& forall|i: int, j: int|
            0 <= i < j < self.virtual_devs_spec().len() ==> self.virtual_devs_spec()[i]
                != self.virtual_devs_spec()[j]
    }

    /// The registry is consistent with a host: every tracked id is one of
    /// its device slots.
    pub open spec fn tracks(&self, host: &Host) -> bool {
        forall|i: int|
            0 <= i < self.virtual_devs_spec().len() ==> #[trigger] self.virtual_devs_spec()[i]
                < host.devices@.len()
    }

    /// Initializes the native layer and snapshots the device count; fails
    /// with the mapped error if initialization fails. Devices
    /// connected afterwards are not picked up.
    pub fn new(host: &mut Host) -> (r: Result<Self, Error>)
        requires
            old(host).wf(),
        ensures
            final(host).wf(),
            old(host).init_code == 0 || old(host).init_code == 1 ==> (r matches Ok(ctx)
                && ctx.wf() && ctx.tracks(final(host)) && ctx.device_count_spec() == old(host).devices@.len() && ctx.virtual_devs_spec() == Seq::<i32>::empty() && *final(host)
                == (Host { up: true, ..*old(host) })),
            !(old(host).init_code == 0 || old(host).init_code == 1) ==> (r matches Err(e)
                && Error::from_code_spec(old(host).init_code) == Err::<(), Error>(e) && *final(host) == *old(host)),
    {
        let code = host.init();
        match Error::from_code(code) {
            Err(e) => Err(e),
            Ok(()) => {
                let device_count = host.count_devices();
                let virtual_devs: Vec<PortMidiDeviceId> = Vec::new();
                if device_count >= 0 {
                    Ok(PortMidi { device_count: device_count as u32, virtual_devs })
                } else {
                    Err(Error::Invalid)
                }
            },
        }
    }

    /// Return the number of devices as snapshotted at construction. This
    /// number does not change over the lifetime of the context.
    pub fn device_count(&self) -> (r: PortMidiDeviceId)
        requires
            self.wf(),
        ensures
            r == self.device_count_spec(),
    {
        self.device_count as i32
    }

    /// Return the number of virtual devices created through this context
    /// and still tracked.
    pub fn virtual_device_count(&self) -> (r: PortMidiDeviceId)
        requires
            self.wf(),
        ensures
            r == self.virtual_devs_spec().len(),
    {
        self.virtual_devs.len() as i32
    }

    /// The id of the default input device, or `Error::NoDefaultDevice`
    /// when the native layer reports its no-device sentinel.
    pub fn default_input_device_id(&self, host: &Host) -> (r: Result<PortMidiDeviceId, Error>)
        requires
            host.wf(),
        ensures
            host.default_input == PM_NO_DEVICE ==> r == Err::<i32, Error>(Error::NoDefaultDevice),
            host.default_input != PM_NO_DEVICE ==> r == Ok::<i32, Error>(host.default_input),
    {
        let id = host.default_input_id();
        if id == PM_NO_DEVICE {
            Err(Error::NoDefaultDevice)
        } else {
            Ok(id)
        }
    }

    /// The id of the default output device, or `Error::NoDefaultDevice`
    /// when the native layer reports its no-device sentinel.
    pub fn default_output_device_id(&self, host: &Host) -> (r: Result<PortMidiDeviceId, Error>)
        requires
            host.wf(),
        ensures
            host.default_output == PM_NO_DEVICE ==> r == Err::<i32, Error>(Error::NoDefaultDevice),
            host.default_output != PM_NO_DEVICE ==> r == Ok::<i32, Error>(host.default_output),
    {
        let id = host.default_output_id();
        if id == PM_NO_DEVICE {
            Err(Error::NoDefaultDevice)
        } else {
            Ok(id)
        }
    }

    /// The `DeviceInfo` for the given id, exactly when the native
    /// enumeration knows that id; otherwise the invalid-device error —
    /// in particular for `id == device_count()`, one past the end.
    pub fn device(&self, host: &Host, id: PortMidiDeviceId) -> (r: Result<DeviceInfo, Error>)
        requires
            host.wf(),
        ensures
            host.valid_device(id as int) ==> (r matches Ok(d) && d.id_spec() == id
                && d.name_spec() == host.devices@[id as int].name@ && d.dir_spec()
                == DeviceInfo::direction_of(host.devices@[id as int].input)),
            !host.valid_device(id as int) ==> r == Err::<DeviceInfo, Error>(
                Error::PortMidi(PmError::PmInvalidDeviceId),
            ),
    {
        DeviceInfo::new(host, id)
    }

    /// All device infos for ids `0..device_count()`, strictly: the first
    /// id the native layer no longer reports fails the whole enumeration
    /// with its error, nothing is skipped silently.
    pub fn devices(&self, host: &Host) -> (r: Result<Vec<DeviceInfo>, Error>)
        requires
            self.wf(),
            host.wf(),
        ensures
            (forall|i: int| 0 <= i < self.device_count_spec() ==> host.valid_device(i)) ==> (
            r matches Ok(v) && v@.len() == self.device_count_spec() && (forall|i: int|
                0 <= i < v@.len() ==> (#[trigger] v@[i]).id_spec() == i && v@[i].name_spec()
                    == host.devices@[i].name@ && v@[i].dir_spec() == DeviceInfo::direction_of(
                    host.devices@[i].input,
                ))),
            !(forall|i: int| 0 <= i < self.device_count_spec() ==> host.valid_device(i)) ==> r
                == Err::<Vec<DeviceInfo>, Error>(Error::PortMidi(PmError::PmInvalidDeviceId)),
    {
        let count = self.device_count();
        let mut devices: Vec<DeviceInfo> = Vec::new();
        let mut id: i32 = 0;
        while id < count
            invariant
                self.wf(),
                host.wf(),
                count == self.device_count_spec(),
                0 <= id <= count,
                devices@.len() == id,
                forall|i: int| 0 <= i < id ==> host.valid_device(i),
                forall|i: int|
                    0 <= i < id ==> (#[trigger] devices@[i]).id_spec() == i
                        && devices@[i].name_spec() == host.devices@[i].name@
                        && devices@[i].dir_spec() == DeviceInfo::direction_of(
                        host.devices@[i].input,
                    ),
            decreases count - id,
        {
            match self.device(host, id) {
                Ok(device) => devices.push(device),
                Err(err) => {
                    return Err(err);
                },
            }
            id += 1;
        }
        Ok(devices)
    }

    /// All device infos for the tracked virtual devices, in creation
    /// order, strictly: the first tracked id the native layer no longer
    /// reports fails the whole enumeration with its error.
    pub fn virtual_devices(&self, host: &Host) -> (r: Result<Vec<DeviceInfo>, Error>)
        requires
            self.wf(),
            host.wf(),
        ensures
            (forall|i: int|
                0 <= i < self.virtual_devs_spec().len() ==> host.valid_device(
                    #[trigger] self.virtual_devs_spec()[i] as int,
                )) ==> (r matches Ok(v) && v@.len() == self.virtual_devs_spec().len() && (
            forall|i: int|
                0 <= i < v@.len() ==> (#[trigger] v@[i]).id_spec() == self.virtual_devs_spec()[i])),
            !(forall|i: int|
                0 <= i < self.virtual_devs_spec().len() ==> host.valid_device(
                    #[trigger] self.virtual_devs_spec()[i] as int,
                )) ==> r == Err::<Vec<DeviceInfo>, Error>(
                Error::PortMidi(PmError::PmInvalidDeviceId),
            ),
    {
        let mut v_devs: Vec<DeviceInfo> = Vec::new();
        let mut k: usize = 0;
        while k < self.virtual_devs.len()
            invariant
                self.wf(),
                host.wf(),
                0 <= k <= self.virtual_devs_spec().len(),
                v_devs@.len() == k,
                forall|i: int|
                    0 <= i < k ==> host.valid_device(#[trigger] self.virtual_devs_spec()[i] as int),
                forall|i: int|
                    0 <= i < k ==> (#[trigger] v_devs@[i]).id_spec()
                        == self.virtual_devs_spec()[i],
            decreases self.virtual_devs_spec().len() - k,
        {
            let id = self.virtual_devs[k];
            match self.device(host, id) {
                Ok(device) => v_devs.push(device),
                Err(err) => {
                    return Err(err);
                },
            }
            k += 1;
        }
        Ok(v_devs)
    }

    /// An `InputPort` over the given device with the given buffer size:
    /// fails with `Error::NotAnInputDevice` — before any native call — if
    /// the device is not an input device.
    pub fn input_port(&self, host: &mut Host, device: DeviceInfo, buffer_size: usize) -> (r:
        Result<InputPort, Error>)
        requires
            old(host).wf(),
            old(host).streams@.len() < usize::MAX,
            buffer_size <= 0x7fff_ffff,
        ensures
            final(host).wf(),
            device.dir_spec() != Direction::Input ==> r == Err::<InputPort, Error>(
                Error::NotAnInputDevice,
            ) && *final(host) == *old(host),
            device.dir_spec() == Direction::Input && !can_open_input(
                *old(host),
                device.id_spec() as int,
            ) ==> r == Err::<InputPort, Error>(Error::PortMidi(PmError::PmInvalidDeviceId))
                && *final(host) == *old(host),
            device.dir_spec() == Direction::Input && can_open_input(
                *old(host),
                device.id_spec() as int,
            ) ==> (r matches Ok(p) && p.wf() && p.stream_spec() == old(host).streams@.len()
                && final(host).streams@ == old(host).streams@.push(
                (HostStream { device: device.id_spec(), input: true, open: true }),
            ) && p.device_spec() == device.id_spec() && p.buffer_size_spec() == buffer_size
                && final(host).stream_ok(p.stream_spec() as int, true) && devices_except(
                *old(host),
                *final(host),
                device.id_spec() as int,
            ) && final(host).devices@[device.id_spec() as int] == (HostDevice {
                opened: true,
                ..old(host).devices@[device.id_spec() as int]
            }) && final(host).up == old(host).up && final(host).log@ == old(host).log@
                && final(host).default_input == old(host).default_input && final(host).default_output == old(host).default_output
                && final(host).streams@[p.stream_spec() as int].device == device.id_spec()),
    {
        if device.is_input() {
            InputPort::new(host, device, buffer_size)
        } else {
            Err(Error::NotAnInputDevice)
        }
    }

    /// An `OutputPort` over the given device with the given buffer size:
    /// fails with `Error::NotAnOutputDevice` — before any native call —
    /// if the device is not an output device.
    pub fn output_port(&self, host: &mut Host, device: DeviceInfo, buffer_size: usize) -> (r:
        Result<OutputPort, Error>)
        requires
            old(host).wf(),
            old(host).streams@.len() < usize::MAX,
            buffer_size <= 0x7fff_ffff,
        ensures
            final(host).wf(),
            device.dir_spec() == Direction::Input ==> r == Err::<OutputPort, Error>(
                Error::NotAnOutputDevice,
            ) && *final(host) == *old(host),
            device.dir_spec() != Direction::Input && !can_open_output(
                *old(host),
                device.id_spec() as int,
            ) ==> r == Err::<OutputPort, Error>(Error::PortMidi(PmError::PmInvalidDeviceId))
                && *final(host) == *old(host),
            device.dir_spec() != Direction::Input && can_open_output(
                *old(host),
                device.id_spec() as int,
            ) ==> (r matches Ok(p) && p.wf() && p.stream_spec() == old(host).streams@.len()
                && final(host).streams@ == old(host).streams@.push(
                (HostStream { device: device.id_spec(), input: false, open: true }),
            ) && p.device_spec() == device.id_spec() && p.buffer_size_spec() == buffer_size
                && final(host).stream_ok(p.stream_spec() as int, false) && devices_except(
                *old(host),
                *final(host),
                device.id_spec() as int,
            ) && final(host).devices@[device.id_spec() as int] == (HostDevice {
                opened: true,
                ..old(host).devices@[device.id_spec() as int]
            }) && final(host).up == old(host).up && final(host).log@ == old(host).log@
                && final(host).default_input == old(host).default_input && final(host).default_output == old(host).default_output
                && final(host).streams@[p.stream_spec() as int].device == device.id_spec()),
    {
        if device.is_output() {
            OutputPort::new(host, device, buffer_size)
        } else {
            Err(Error::NotAnOutputDevice)
        }
    }

    /// An `InputPort` over the default input device: resolves the default
    /// id, looks up its info, then opens; fails if no default exists or
    /// either step fails.
    pub fn default_input_port(&self, host: &mut Host, buffer_size: usize) -> (r: Result<
        InputPort,
        Error,
    >)
        requires
            old(host).wf(),
            old(host).streams@.len() < usize::MAX,
            buffer_size <= 0x7fff_ffff,
        ensures
            final(host).wf(),
            old(host).default_input == PM_NO_DEVICE ==> r == Err::<InputPort, Error>(
                Error::NoDefaultDevice,
            ) && *final(host) == *old(host),
            old(host).default_input != PM_NO_DEVICE && !old(host).valid_device(
                old(host).default_input as int,
            ) ==> r == Err::<InputPort, Error>(Error::PortMidi(PmError::PmInvalidDeviceId))
                && *final(host) == *old(host),
            old(host).default_input != PM_NO_DEVICE && old(host).valid_device(
                old(host).default_input as int,
            ) && !old(host).devices@[old(host).default_input as int].input ==> r == Err::<
                InputPort,
                Error,
            >(Error::NotAnInputDevice) && *final(host) == *old(host),
            old(host).default_input != PM_NO_DEVICE && old(host).valid_device(
                old(host).default_input as int,
            ) && old(host).devices@[old(host).default_input as int].input && !can_open_input(
                *old(host),
                old(host).default_input as int,
            ) ==> r == Err::<InputPort, Error>(Error::PortMidi(PmError::PmInvalidDeviceId))
                && *final(host) == *old(host),
            old(host).default_input != PM_NO_DEVICE && can_open_input(
                *old(host),
                old(host).default_input as int,
            ) ==> (r matches Ok(p) && p.wf() && p.device_spec() == old(host).default_input
                && p.stream_spec() == old(host).streams@.len() && final(host).streams@ == old(
                host,
            ).streams@.push(
                (HostStream { device: old(host).default_input, input: true, open: true }),
            ) && p.buffer_size_spec() == buffer_size && final(host).stream_ok(
                p.stream_spec() as int,
                true,
            ) && final(host).streams@[p.stream_spec() as int].device == old(host).default_input
                && devices_except(*old(host), *final(host), old(host).default_input as int)
                && final(host).devices@[old(host).default_input as int] == (HostDevice {
                opened: true,
                ..old(host).devices@[old(host).default_input as int]
            }) && final(host).up == old(host).up && final(host).log@ == old(host).log@
                && final(host).default_input == old(host).default_input && final(host).default_output == old(host).default_output),
    {
        let id = match self.default_input_device_id(host) {
            Ok(id) => id,
            Err(e) => {
                return Err(e);
            },
        };
        let info = match self.device(host, id) {
            Ok(d) => d,
            Err(e) => {
                return Err(e);
            },
        };
        self.input_port(host, info, buffer_size)
    }

    /// An `OutputPort` over the default output device: resolves the
    /// default id, looks up its info, then opens; fails if no default
    /// exists or either step fails.
    pub fn default_output_port(&self, host: &mut Host, buffer_size: usize) -> (r: Result<
        OutputPort,
        Error,
    >)
        requires
            old(host).wf(),
            old(host).streams@.len() < usize::MAX,
            buffer_size <= 0x7fff_ffff,
        ensures
            final(host).wf(),
            old(host).default_output == PM_NO_DEVICE ==> r == Err::<OutputPort, Error>(
                Error::NoDefaultDevice,
            ) && *final(host) == *old(host),
            old(host).default_output != PM_NO_DEVICE && !old(host).valid_device(
                old(host).default_output as int,
            ) ==> r == Err::<OutputPort, Error>(Error::PortMidi(PmError::PmInvalidDeviceId))
                && *final(host) == *old(host),
            old(host).default_output != PM_NO_DEVICE && old(host).valid_device(
                old(host).default_output as int,
            ) && old(host).devices@[old(host).default_output as int].input ==> r == Err::<
                OutputPort,
                Error,
            >(Error::NotAnOutputDevice) && *final(host) == *old(host),
            old(host).default_output != PM_NO_DEVICE && old(host).valid_device(
                old(host).default_output as int,
            ) && !old(host).devices@[old(host).default_output as int].input && !can_open_output(
                *old(host),
                old(host).default_output as int,
            ) ==> r == Err::<OutputPort, Error>(Error::PortMidi(PmError::PmInvalidDeviceId))
                && *final(host) == *old(host),
            old(host).default_output != PM_NO_DEVICE && !old(host).devices@[old(host).default_output as int].input && can_open_output(
                *old(host),
                old(host).default_output as int,
            ) ==> (r matches Ok(p) && p.wf() && p.device_spec() == old(host).default_output
                && p.stream_spec() == old(host).streams@.len() && final(host).streams@ == old(
                host,
            ).streams@.push(
                (HostStream { device: old(host).default_output, input: false, open: true }),
            ) && p.buffer_size_spec() == buffer_size && final(host).stream_ok(
                p.stream_spec() as int,
                false,
            ) && final(host).streams@[p.stream_spec() as int].device == old(host).default_output
                && devices_except(*old(host), *final(host), old(host).default_output as int)
                && final(host).devices@[old(host).default_output as int] == (HostDevice {
                opened: true,
                ..old(host).devices@[old(host).default_output as int]
            }) && final(host).up == old(host).up && final(host).log@ == old(host).log@
                && final(host).default_input == old(host).default_input && final(host).default_output == old(host).default_output),
    {
        let id = match self.default_output_device_id(host) {
            Ok(id) => id,
            Err(e) => {
                return Err(e);
            },
        };
        let info = match self.device(host, id) {
            Ok(d) => d,
            Err(e) => {
                return Err(e);
            },
        };
        self.output_port(host, info, buffer_size)
    }

    /// Creates a virtual device of the given direction and records its id
    /// in the registry before returning the device info. The native layer
    /// treats a name collision as a fatal misconfiguration, so a name
    /// already carried by a live device is excluded up front.
    fn create_virtual_device(&mut self, host: &mut Host, name: String, is_input: bool) -> (r:
        Result<DeviceInfo, Error>)
        requires
            old(self).wf(),
            old(self).tracks(old(host)),
            old(host).wf(),
            old(host).up,
            old(host).devices@.len() < 0x7fff_ffff,
            old(self).virtual_devs_spec().len() < 0x7fff_ffff,
            forall|k: int|
                0 <= k < old(host).devices@.len() ==> !(!old(host).devices@[k].deleted && old(
                    host,
                ).devices@[k].name@ == name@),
        ensures
            final(self).wf(),
            final(self).tracks(final(host)),
            final(host).wf(),
            final(self).device_count_spec() == old(self).device_count_spec(),
            r matches Ok(d) && d.id_spec() == old(host).devices@.len() && d.name_spec() == name@
                && d.dir_spec() == DeviceInfo::direction_of(is_input),
            final(self).virtual_devs_spec() == old(self).virtual_devs_spec().push(
                old(host).devices@.len() as i32,
            ),
            final(host).devices@.len() == old(host).devices@.len() + 1,
            forall|i: int|
                0 <= i < old(host).devices@.len() ==> final(host).devices@[i] == old(
                    host,
                ).devices@[i],
            final(host).devices@.last().name@ == name@,
            final(host).devices@.last().input == is_input,
            final(host).devices@.last().output == !is_input,
            final(host).devices@.last().is_virtual,
            !final(host).devices@.last().deleted,
            !final(host).devices@.last().opened,
            final(host).streams@ == old(host).streams@,
            final(host).up == old(host).up,
            final(host).log@ == old(host).log@,
            final(host).default_input == old(host).default_input,
            final(host).default_output == old(host).default_output,
    {
        let id = if is_input {
            host.create_virtual_input(name)
        } else {
            host.create_virtual_output(name)
        };
        self.virtual_devs.push(id);
        DeviceInfo::new(host, id)
    }

    /// Creates a virtual input device tracked for the lifetime of this
    /// context. Returns the device info of the created device.
    pub fn create_virtual_input(&mut self, host: &mut Host, name: String) -> (r: Result<
        DeviceInfo,
        Error,
    >)
        requires
            old(self).wf(),
            old(self).tracks(old(host)),
            old(host).wf(),
            old(host).up,
            old(host).devices@.len() < 0x7fff_ffff,
            old(self).virtual_devs_spec().len() < 0x7fff_ffff,
            forall|k: int|
                0 <= k < old(host).devices@.len() ==> !(!old(host).devices@[k].deleted && old(
                    host,
                ).devices@[k].name@ == name@),
        ensures
            final(self).wf(),
            final(self).tracks(final(host)),
            final(host).wf(),
            final(self).device_count_spec() == old(self).device_count_spec(),
            r matches Ok(d) && d.id_spec() == old(host).devices@.len() && d.name_spec() == name@
                && d.dir_spec() == Direction::Input,
            final(self).virtual_devs_spec() == old(self).virtual_devs_spec().push(
                old(host).devices@.len() as i32,
            ),
            final(host).devices@.len() == old(host).devices@.len() + 1,
            forall|i: int|
                0 <= i < old(host).devices@.len() ==> final(host).devices@[i] == old(
                    host,
                ).devices@[i],
            final(host).devices@.last().name@ == name@,
            final(host).devices@.last().input,
            final(host).devices@.last().is_virtual,
            !final(host).devices@.last().deleted,
            !final(host).devices@.last().opened,
            final(host).streams@ == old(host).streams@,
            final(host).up == old(host).up,
            final(host).log@ == old(host).log@,
            final(host).default_input == old(host).default_input,
            final(host).default_output == old(host).default_output,
    {
        self.create_virtual_device(host, name, true)
    }

    /// Creates a virtual output device tracked for the lifetime of this
    /// context. Returns the device info of the created device.
    pub fn create_virtual_output(&mut self, host: &mut Host, name: String) -> (r: Result<
        DeviceInfo,
        Error,
    >)
        requires
            old(self).wf(),
            old(self).tracks(old(host)),
            old(host).wf(),
            old(host).up,
            old(host).devices@.len() < 0x7fff_ffff,
            old(self).virtual_devs_spec().len() < 0x7fff_ffff,
            forall|k: int|
                0 <= k < old(host).devices@.len() ==> !(!old(host).devices@[k].deleted && old(
                    host,
                ).devices@[k].name@ == name@),
        ensures
            final(self).wf(),
            final(self).tracks(final(host)),
            final(host).wf(),
            final(self).device_count_spec() == old(self).device_count_spec(),
            r matches Ok(d) && d.id_spec() == old(host).devices@.len() && d.name_spec() == name@
                && d.dir_spec() == Direction::Output,
            final(self).virtual_devs_spec() == old(self).virtual_devs_spec().push(
                old(host).devices@.len() as i32,
            ),
            final(host).devices@.len() == old(host).devices@.len() + 1,
            forall|i: int|
                0 <= i < old(host).devices@.len() ==> final(host).devices@[i] == old(
                    host,
                ).devices@[i],
            final(host).devices@.last().name@ == name@,
            final(host).devices@.last().output,
            final(host).devices@.last().is_virtual,
            !final(host).devices@.last().deleted,
            !final(host).devices@.last().opened,
            final(host).streams@ == old(host).streams@,
            final(host).up == old(host).up,
            final(host).log@ == old(host).log@,
            final(host).default_input == old(host).default_input,
            final(host).default_output == old(host).default_output,
    {
        self.create_virtual_device(host, name, false)
    }

    /// The position of `id` in the registry, if it is tracked.
    fn position_of(&self, id: PortMidiDeviceId) -> (r: Option<usize>)
        ensures
            match r {
                Some(k) => k < self.virtual_devs_spec().len() && self.virtual_devs_spec()[k as int]
                    == id,
                None => !self.virtual_devs_spec().contains(id),
            },
    {
        let mut index: usize = 0;
        let n = self.virtual_devs.len();
        while index < n
            invariant
                n == self.virtual_devs_spec().len(),
                index <= n,
                forall|i: int| 0 <= i < index ==> self.virtual_devs_spec()[i] != id,
            decreases n - index,
        {
            if self.virtual_devs[index] == id {
                return Some(index);
            }
            index += 1;
        }
        None
    }

    /// Deletes a virtual device created by this context.
    ///
    /// Exactly when `id` is tracked, it is removed from the registry —
    /// before the native call, so a failed call leaves no duplicate entry
    /// — and the native deletion is attempted and its code mapped.
    /// An id this context does not track fails with `Error::Unknown` and
    /// touches nothing; in particular, since a successful deletion leaves
    /// the id untracked, deleting the same id twice fails the second time
    /// with `Error::Unknown`, never freeing twice.
    pub fn delete_virtual_device(&mut self, host: &mut Host, id: PortMidiDeviceId) -> (r: Result<
        (),
        Error,
    >)
        requires
            old(self).wf(),
            old(host).wf(),
        ensures
            final(self).wf(),
            final(host).wf(),
            final(self).device_count_spec() == old(self).device_count_spec(),
            !old(self).virtual_devs_spec().contains(id) ==> r == Err::<(), Error>(Error::Unknown)
                && *final(self) == *old(self) && *final(host) == *old(host),
            old(self).virtual_devs_spec().contains(id) ==> ({
                let ok = old(host).valid_device(id as int) && old(
                    host,
                ).devices@[id as int].is_virtual && !old(host).devices@[id as int].opened;
                &&& !final(self).virtual_devs_spec().contains(id)
                &&& final(self).virtual_devs_spec().len() == old(self).virtual_devs_spec().len()
                    - 1
                &&& forall|x: i32|
                    x != id ==> (final(self).virtual_devs_spec().contains(x) <==> old(
                        self,
                    ).virtual_devs_spec().contains(x))
                &&& final(host).log@ == old(host).log@.push(HostCall::DeleteVirtual(id))
                &&& final(host).streams@ == old(host).streams@
                &&& final(host).up == old(host).up
                &&& final(host).devices@.len() == old(host).devices@.len()
                &&& if ok {
                    &&& r is Ok
                    &&& forall|i: int|
                        0 <= i < old(host).devices@.len() && i != id ==> final(host).devices@[i]
                            == old(host).devices@[i]
                    &&& final(host).devices@[id as int].deleted
                } else {
                    r == Err::<(), Error>(Error::PortMidi(PmError::PmInvalidDeviceId))
                        && final(host).devices@ == old(host).devices@
                }
            }),
    {
        let ghost regs = self.virtual_devs@;
        let index = match self.position_of(id) {
            None => {
                return Err(Error::Unknown);
            },
            Some(index) => index,
        };
        self.virtual_devs.remove(index);
        proof {
            assert forall|j: int| 0 <= j < self.virtual_devs@.len() implies self.virtual_devs@[j]
                != id by {
                if j < index {
                    assert(self.virtual_devs@[j] == regs[j]);
                } else {
                    assert(self.virtual_devs@[j] == regs[j + 1]);
                }
            }
            assert forall|x: i32| x != id implies (self.virtual_devs@.contains(x) <==> regs.contains(
                x,
            )) by {
                if regs.contains(x) {
                    let k = choose|k: int| 0 <= k < regs.len() && regs[k] == x;
                    if k < index {
                        assert(self.virtual_devs@[k] == x);
                    } else {
                        assert(k != index);
                        assert(self.virtual_devs@[k - 1] == x);
                    }
                }
                if self.virtual_devs@.contains(x) {
                    let k = choose|k: int|
                        0 <= k < self.virtual_devs@.len() && self.virtual_devs@[k] == x;
                    if k < index {
                        assert(regs[k] == x);
                    } else {
                        assert(regs[k + 1] == x);
                    }
                }
            }
        }
        let code = host.delete_virtual_device(id);
        Error::from_code(code)
    }

    /// Tears the context down: pops and deletes every tracked virtual
    /// device — every deletion is attempted before the native layer is
    /// terminated — then terminates the layer. Failures on this path are
    /// absorbed, never raised: teardown does not fail the caller.
    ///
    /// The host log grows by exactly `teardown_calls` of the registry —
    /// one deletion per tracked device, most recently tracked first —
    /// followed by the terminate call.
    pub fn shutdown(&mut self, host: &mut Host)
        requires
            old(self).wf(),
            old(host).wf(),
        ensures
            final(self).wf(),
            final(host).wf(),
            final(self).device_count_spec() == old(self).device_count_spec(),
            final(self).virtual_devs_spec() == Seq::<i32>::empty(),
            !final(host).up,
            final(host).log@ == old(host).log@ + teardown_calls(
                old(self).virtual_devs_spec(),
            ).push(HostCall::Terminate),
            final(host).devices@.len() == old(host).devices@.len(),
            final(host).streams@ == old(host).streams@,
            final(host).default_input == old(host).default_input,
            final(host).default_output == old(host).default_output,
    {
        let ghost regs = self.virtual_devs@;
        proof {
            assert(regs.take(regs.len() as int) =~= regs);
            assert(regs.skip(regs.len() as int).reverse() =~= Seq::<i32>::empty());
            assert(teardown_calls(regs.skip(regs.len() as int)) =~= Seq::<HostCall>::empty());
            assert(old(host).log@ + Seq::<HostCall>::empty() =~= old(host).log@);
        }
        while self.virtual_devs.len() > 0
            invariant
                self.wf(),
                host.wf(),
                self.device_count_spec() == old(self).device_count_spec(),
                self.virtual_devs@.len() <= regs.len(),
                self.virtual_devs@ == regs.take(self.virtual_devs@.len() as int),
                regs == old(self).virtual_devs_spec(),
                host.log@ == old(host).log@ + teardown_calls(
                    regs.skip(self.virtual_devs@.len() as int),
                ),
                host.devices@.len() == old(host).devices@.len(),
                host.streams@ == old(host).streams@,
                host.up == old(host).up,
                host.default_input == old(host).default_input,
                host.default_output == old(host).default_output,
            decreases self.virtual_devs@.len(),
        {
            let n = self.virtual_devs.len();
            let id = self.virtual_devs[n - 1];
            let _ = self.virtual_devs.pop();
            let _ = host.delete_virtual_device(id);
            proof {
                let m = n - 1;
                assert(self.virtual_devs@ =~= regs.take(m as int));
                assert(regs.skip(m as int).reverse() =~= regs.skip((m + 1) as int).reverse().push(
                    regs[m as int],
                ));
                assert(teardown_calls(regs.skip(m as int)) =~= teardown_calls(
                    regs.skip((m + 1) as int),
                ).push(HostCall::DeleteVirtual(regs[m as int])));
                assert(host.log@ =~= old(host).log@ + teardown_calls(regs.skip(m as int)));
            }
        }
        proof {
            assert(regs.skip(0) =~= regs);
        }
        let _ = host.terminate();
        proof {
            assert(host.log@ =~= old(host).log@ + teardown_calls(regs).push(HostCall::Terminate));
        }
    }
}

} // verus!
