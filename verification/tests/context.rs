use portmidi::{Error, Host, HostCall, MidiMessage, PmError, PortMidi};

fn loopback_host() -> Host {
    let mut host = Host::new();
    let input = host.add_device(String::from("loop in"), true, false);
    let output = host.add_device(String::from("loop out"), false, true);
    host.set_default_input(input);
    host.set_default_output(output);
    host.connect(output, input);
    host
}

#[test]
fn context_new_snapshots_count_and_fails_on_init_error() {
    let mut host = loopback_host();
    let context = PortMidi::new(&mut host).unwrap();
    assert_eq!(context.device_count(), 2);
    assert!(host.up);

    let mut failing = Host::new();
    failing.set_init_code(-9998);
    let r = PortMidi::new(&mut failing);
    assert_eq!(
        r.err().map(|e| e.description()),
        Some(String::from("PortMidi: `Insufficient memory'"))
    );
    assert!(!failing.up);
}

#[test]
fn device_one_past_the_end_fails_with_invalid_device_id() {
    let mut host = loopback_host();
    let context = PortMidi::new(&mut host).unwrap();
    let past_the_end = context.device_count();
    let r = context.device(&host, past_the_end);
    assert!(matches!(r, Err(Error::PortMidi(PmError::PmInvalidDeviceId))));
    let r = context.device(&host, -1);
    assert!(matches!(r, Err(Error::PortMidi(PmError::PmInvalidDeviceId))));
}

#[test]
fn devices_enumerates_all_known_devices() {
    let mut host = loopback_host();
    let context = PortMidi::new(&mut host).unwrap();
    let devices = context.devices(&host).unwrap();
    assert_eq!(devices.len() as i32, context.device_count());
    assert_eq!(devices[0].id(), 0);
    assert_eq!(devices[0].name(), "loop in");
    assert!(devices[0].is_input());
    assert!(!devices[0].is_output());
    assert_eq!(devices[1].id(), 1);
    assert_eq!(devices[1].name(), "loop out");
    assert!(devices[1].is_output());
}

#[test]
fn no_default_device_reports_no_default_device() {
    let mut host = Host::new();
    host.add_device(String::from("only out"), false, true);
    let context = PortMidi::new(&mut host).unwrap();
    assert_eq!(context.default_input_device_id(&host), Err(Error::NoDefaultDevice));
    assert_eq!(context.default_output_device_id(&host), Err(Error::NoDefaultDevice));
    assert!(portmidi::get_default_input_device_id(&host).is_none());
    assert!(portmidi::get_default_output_device_id(&host).is_none());
    let r = context.default_input_port(&mut host, 1024);
    assert!(matches!(r, Err(Error::NoDefaultDevice)));
}

#[test]
fn delete_virtual_device_twice_fails_with_unknown() {
    let mut host = loopback_host();
    let mut context = PortMidi::new(&mut host).unwrap();
    let v = context.create_virtual_input(&mut host, String::from("loop v")).unwrap();
    assert_eq!(context.virtual_device_count(), 1);

    let first = context.delete_virtual_device(&mut host, v.id());
    assert_eq!(first, Ok(()));
    assert_eq!(context.virtual_device_count(), 0);

    let second = context.delete_virtual_device(&mut host, v.id());
    assert_eq!(second, Err(Error::Unknown));

    // an id never tracked is refused the same way, without a native call
    let log_len = host.log.len();
    assert_eq!(context.delete_virtual_device(&mut host, 12345), Err(Error::Unknown));
    assert_eq!(host.log.len(), log_len);
}

#[test]
fn virtual_devices_lists_tracked_devices_in_creation_order() {
    let mut host = loopback_host();
    let mut context = PortMidi::new(&mut host).unwrap();
    let a = context.create_virtual_input(&mut host, String::from("va")).unwrap();
    let b = context.create_virtual_output(&mut host, String::from("vb")).unwrap();
    let listed = context.virtual_devices(&host).unwrap();
    assert_eq!(listed.len(), 2);
    assert_eq!(listed[0].id(), a.id());
    assert_eq!(listed[0].name(), "va");
    assert!(listed[0].is_input());
    assert_eq!(listed[1].id(), b.id());
    assert!(listed[1].is_output());
}

#[test]
fn shutdown_deletes_every_virtual_device_before_terminate() {
    let mut host = loopback_host();
    let mut context = PortMidi::new(&mut host).unwrap();
    let a = context.create_virtual_input(&mut host, String::from("v1")).unwrap();
    let b = context.create_virtual_input(&mut host, String::from("v2")).unwrap();
    let c = context.create_virtual_output(&mut host, String::from("v3")).unwrap();
    assert_eq!(context.virtual_device_count(), 3);
    assert!(host.log.is_empty());

    context.shutdown(&mut host);

    assert_eq!(context.virtual_device_count(), 0);
    assert!(!host.up);
    // all three deletions were attempted — most recently created first —
    // and all of them before the terminate call
    assert_eq!(
        host.log,
        vec![
            HostCall::DeleteVirtual(c.id()),
            HostCall::DeleteVirtual(b.id()),
            HostCall::DeleteVirtual(a.id()),
            HostCall::Terminate,
        ]
    );
}

#[test]
fn end_to_end_loopback_session() {
    let mut host = loopback_host();
    let context = PortMidi::new(&mut host).unwrap();

    // the snapshot matches the native enumeration
    assert_eq!(context.device_count(), portmidi::count_devices(&host));
    let devices = context.devices(&host).unwrap();
    assert_eq!(devices.len() as i32, context.device_count());

    let mut in_port = context.default_input_port(&mut host, 1024).unwrap();
    let mut out_port = context.default_output_port(&mut host, 1024).unwrap();

    let note_on = MidiMessage { status: 0x90, data1: 60, data2: 127, data3: 0 };
    let note_off = MidiMessage { status: 0x80, data1: 60, data2: 0, data3: 0 };
    assert_eq!(out_port.write_message(&mut host, note_on), Ok(()));
    assert_eq!(out_port.write_message(&mut host, note_off), Ok(()));

    let first = in_port.read(&mut host).unwrap().unwrap();
    let second = in_port.read(&mut host).unwrap().unwrap();
    assert_eq!(first.message, note_on);
    assert_eq!(second.message, note_off);
    assert!(first.timestamp <= second.timestamp);
    assert_eq!(in_port.read(&mut host).unwrap(), None);
}

#[test]
fn virtual_device_handle_creates_and_deletes_once() {
    let mut host = loopback_host();
    portmidi::initialize(&mut host).unwrap();
    let v = portmidi::VirtualDevice::new(&mut host, "standalone", portmidi::Direction::Input)
        .unwrap();
    assert_eq!(v.name(), "standalone");
    assert!(v.is_input());
    assert!(!v.is_output());
    let id = v.id();
    assert_eq!(v.delete(&mut host), Ok(()));
    assert_eq!(host.log, vec![HostCall::DeleteVirtual(id)]);
    // the slot is gone from the enumeration now
    assert!(portmidi::DeviceInfo::new(&host, id).is_err());
}

#[test]
fn host_error_text_is_read_while_pending() {
    let mut host = Host::new();
    host.set_host_error(String::from("underlying api lost the device"));
    assert_eq!(host.host_error_text(), "underlying api lost the device");
}
