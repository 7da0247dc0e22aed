//! Free functions over the native layer: initialization, termination,
//! device count and default-device lookup.

use vstd::prelude::*;
use crate::host::{Host, HostCall};
use crate::native::PM_NO_DEVICE;
use crate::types::{Error, PortMidiDeviceId};

verus! {

/// `initialize` brings the native layer up, mapping its result code;
/// both success codes give `Ok`. Call this before using the library. Once
/// initialized, devices connected later are not picked up.
pub fn initialize(host: &mut Host) -> (r: Result<(), Error>)
    requires
        old(host).wf(),
    ensures
        final(host).wf(),
        r == Error::from_code_spec(old(host).init_code),
        old(host).init_code == 0 || old(host).init_code == 1 ==> *final(host) == (Host {
            up: true,
            ..*old(host)
        }),
        !(old(host).init_code == 0 || old(host).init_code == 1) ==> *final(host) == *old(host),
{
    let code = host.init();
    Error::from_code(code)
}

/// `terminate` brings the native layer down, call this after using the
/// library. The call is recorded in the host log.
pub fn terminate(host: &mut Host) -> (r: Result<(), Error>)
    requires
        old(host).wf(),
    ensures
        final(host).wf(),
        r is Ok,
        !final(host).up,
        final(host).log@ == old(host).log@.push(HostCall::Terminate),
        final(host).devices@ == old(host).devices@,
        final(host).streams@ == old(host).streams@,
        final(host).default_input == old(host).default_input,
        final(host).default_output == old(host).default_output,
{
    let code = host.terminate();
    Error::from_code(code)
}

/// Returns the number of devices the native enumeration reports. This
/// number does not change while the layer stays up.
pub fn count_devices(host: &Host) -> (r: PortMidiDeviceId)
    requires
        host.wf(),
    ensures
        r == host.devices@.len(),
{
    host.count_devices()
}

/// The id of the default input device, or `None` when the native layer
/// reports its no-device sentinel.
pub fn get_default_input_device_id(host: &Host) -> (r: Option<PortMidiDeviceId>)
    requires
        host.wf(),
    ensures
        host.default_input == PM_NO_DEVICE ==> r is None,
        host.default_input != PM_NO_DEVICE ==> r == Some(host.default_input),
{
    let id = host.default_input_id();
    if id == PM_NO_DEVICE {
        None
    } else {
        Some(id)
    }
}

/// The id of the default output device, or `None` when the native layer
/// reports its no-device sentinel.
pub fn get_default_output_device_id(host: &Host) -> (r: Option<PortMidiDeviceId>)
    requires
        host.wf(),
    ensures
        host.default_output == PM_NO_DEVICE ==> r is None,
        host.default_output != PM_NO_DEVICE ==> r == Some(host.default_output),
{
    let id = host.default_output_id();
    if id == PM_NO_DEVICE {
        None
    } else {
        Some(id)
    }
}

} // verus!
