//! Input and output ports.
//!
//! A port owns exactly one opened native stream, remembers its device id
//! and its buffer capacity, and is constructed eagerly: the direction is
//! checked first — with no native call on a mismatch — and then the stream
//! is opened, so a port either exists fully opened or not at all. The
//! stream is released by `close` exactly once: the host refuses a handle
//! that is no longer open, so a second close reports a non-fatal error and
//! changes nothing.

use vstd::prelude::*;
use crate::device::{DeviceInfo, Direction};
use crate::host::{Host, HostDevice, HostStream, devices_except, only_pending_changed};
use crate::native::{PmDeviceId, PmError, PmEvent};
use crate::types::{Error, MidiEvent, MidiMessage};

verus! {

/// Whether an input stream can be opened on device `id` of the host right
/// now: the layer is up, the slot is live, has an input side, and is not
/// already opened.
pub open spec fn can_open_input(host: Host, id: int) -> bool {
    &&& host.up
    &&& host.valid_device(id)
    &&& host.devices@[id].input
    &&& !host.devices@[id].opened
}

/// Whether an output stream can be opened on device `id` of the host
/// right now.
pub open spec fn can_open_output(host: Host, id: int) -> bool {
    &&& host.up
    &&& host.valid_device(id)
    &&& host.devices@[id].output
    &&& !host.devices@[id].opened
}

/// Represents the input port of a device: one open native input stream.
pub struct InputPort {
    stream: usize,
    device: PmDeviceId,
    buffer_size: usize,
}

impl InputPort {
    /// The native stream handle this port owns.
    pub closed spec fn stream_spec(&self) -> usize {
        self.stream
    }

    /// The device this port reads from.
    pub closed spec fn device_spec(&self) -> i32 {
        self.device
    }

    /// The buffer capacity fixed at open time.
    pub closed spec fn buffer_size_spec(&self) -> usize {
        self.buffer_size
    }

    /// The port's capacity fits a native count.
    pub open spec fn wf(&self) -> bool {
        self.buffer_size_spec() <= 0x7fff_ffff
    }

    /// How many events a read with argument `cnt` may return at most:
    /// the request, clamped to the buffer capacity.
    pub open spec fn clamp_spec(&self, cnt: usize) -> int {
        if cnt > self.buffer_size_spec() {
            self.buffer_size_spec() as int
        } else {
            cnt as int
        }
    }

    /// Construct a new `InputPort` for the given device and buffer size,
    /// eagerly opened.
    ///
    /// If the device is not an input device, `Error::NotAnInputDevice` is
    /// returned and no native open is attempted: the host is untouched.
    /// Otherwise the stream is opened exactly when `can_open_input` holds,
    /// and the invalid-device error is returned, again with the host
    /// untouched, when it does not.
    pub fn new(host: &mut Host, device: DeviceInfo, buffer_size: usize) -> (r: Result<
        InputPort,
        Error,
    >)
        requires
            old(host).wf(),
            old(host).streams@.len() < usize::MAX,
            buffer_size <= 0x7fff_ffff,
        ensures
            final(host).wf(),
            device.dir_spec() != Direction::Input ==> r == Err::<InputPort, Error>(
                Error::NotAnInputDevice,
            ) && *final(host) == *old(host),
            device.dir_spec() == Direction::Input && !can_open_input(
                *old(host),
                device.id_spec() as int,
            ) ==> r == Err::<InputPort, Error>(Error::PortMidi(PmError::PmInvalidDeviceId))
                && *final(host) == *old(host),
            device.dir_spec() == Direction::Input && can_open_input(
                *old(host),
                device.id_spec() as int,
            ) ==> (r matches Ok(p) && p.wf() && p.stream_spec() == old(host).streams@.len()
                && p.device_spec() == device.id_spec() && p.buffer_size_spec() == buffer_size
                && final(host).streams@ == old(host).streams@.push(
                (HostStream { device: device.id_spec(), input: true, open: true }),
            ) && devices_except(*old(host), *final(host), device.id_spec() as int) && final(host).devices@[device.id_spec() as int] == (HostDevice {
                opened: true,
                ..old(host).devices@[device.id_spec() as int]
            }) && final(host).up == old(host).up && final(host).log@ == old(host).log@ && final(host).default_input == old(host).default_input && final(host).default_output == old(host).default_output),
    {
        if device.is_output() {
            return Err(Error::NotAnInputDevice);
        }
        let (code, handle) = host.open_input(device.id(), buffer_size as i32);
        match Error::from_code(code) {
            Err(e) => Err(e),
            Ok(()) => Ok(
                InputPort { stream: handle, device: device.id(), buffer_size },
            ),
        }
    }

    /// Reads up to `cnt` events, never more than the buffer capacity, in
    /// arrival order.
    ///
    /// `Ok(None)` means no event was available — not an error. Otherwise
    /// `Ok(Some(events))` holds the decoded events, exactly the ones
    /// consumed from the stream. A handle the host no longer accepts gives
    /// the bad-pointer error and changes nothing.
    pub fn read_n(&self, host: &mut Host, cnt: usize) -> (r: Result<
        Option<Vec<MidiEvent>>,
        Error,
    >)
        requires
            old(host).wf(),
            self.wf(),
        ensures
            final(host).wf(),
            !old(host).stream_ok(self.stream_spec() as int, true) ==> r == Err::<
                Option<Vec<MidiEvent>>,
                Error,
            >(Error::PortMidi(PmError::PmBadPtr)) && *final(host) == *old(host),
            old(host).stream_ok(self.stream_spec() as int, true) ==> ({
                let dev = old(host).streams@[self.stream_spec() as int].device as int;
                let pending = old(host).devices@[dev].pending@;
                let n = if self.clamp_spec(cnt) <= pending.len() {
                    self.clamp_spec(cnt)
                } else {
                    pending.len() as int
                };
                &&& only_pending_changed(*old(host), *final(host), dev)
                &&& final(host).devices@[dev].pending@ == pending.skip(n)
                &&& n == 0 ==> r == Ok::<Option<Vec<MidiEvent>>, Error>(None)
                &&& n > 0 ==> (r matches Ok(Some(es)) && es@.len() == n && (forall|i: int|
                    0 <= i < n ==> es@[i] == MidiEvent::decode_spec(pending[i])))
            }),
    {
        let read_cnt: i32 = if cnt > self.buffer_size {
            self.buffer_size as i32
        } else {
            cnt as i32
        };
        let (res, raw) = host.read(self.stream, read_cnt);
        match PmError::try_from_code(res) {
            Ok(_event_cnt) => {
                let mut events: Vec<MidiEvent> = Vec::new();
                let mut i: usize = 0;
                while i < raw.len()
                    invariant
                        i <= raw@.len(),
                        events@.len() == i,
                        forall|k: int|
                            0 <= k < i ==> events@[k] == MidiEvent::decode_spec(raw@[k]),
                    decreases raw@.len() - i,
                {
                    let e = MidiEvent::from(raw[i]);
                    events.push(e);
                    i += 1;
                }
                Ok(Some(events))
            },
            Err(PmError::PmNoError) => Ok(None),
            Err(err) => Err(Error::PortMidi(err)),
        }
    }

    /// Reads a single event if one is available; `Ok(None)` means none
    /// was.
    pub fn read(&mut self, host: &mut Host) -> (r: Result<Option<MidiEvent>, Error>)
        requires
            old(host).wf(),
            old(self).wf(),
        ensures
            final(host).wf(),
            *final(self) == *old(self),
            !old(host).stream_ok(old(self).stream_spec() as int, true) ==> r == Err::<
                Option<MidiEvent>,
                Error,
            >(Error::PortMidi(PmError::PmBadPtr)) && *final(host) == *old(host),
            old(host).stream_ok(old(self).stream_spec() as int, true) ==> ({
                let dev = old(host).streams@[old(self).stream_spec() as int].device as int;
                let pending = old(host).devices@[dev].pending@;
                &&& only_pending_changed(*old(host), *final(host), dev)
                &&& pending.len() == 0 || old(self).buffer_size_spec() == 0 ==> r == Ok::<
                    Option<MidiEvent>,
                    Error,
                >(None) && final(host).devices@[dev].pending@ == pending
                &&& pending.len() > 0 && old(self).buffer_size_spec() > 0 ==> r == Ok::<
                    Option<MidiEvent>,
                    Error,
                >(Some(MidiEvent::decode_spec(pending[0]))) && final(host).devices@[dev].pending@
                    == pending.skip(1)
            }),
    {
        match self.read_n(host, 1) {
            Ok(Some(mut vec)) => Ok(vec.pop()),
            Ok(_) => Ok(None),
            Err(e) => Err(e),
        }
    }

    /// Polls for available events without consuming: `Ok(true)` exactly
    /// when events are pending. A handle the host no longer accepts gives
    /// the bad-pointer error.
    pub fn poll(&self, host: &Host) -> (r: Result<bool, Error>)
        requires
            host.wf(),
        ensures
            !host.stream_ok(self.stream_spec() as int, true) ==> r == Err::<bool, Error>(
                Error::PortMidi(PmError::PmBadPtr),
            ),
            host.stream_ok(self.stream_spec() as int, true) ==> r == Ok::<bool, Error>(
                host.devices@[host.streams@[self.stream_spec() as int].device as int].pending@.len()
                    > 0,
            ),
    {
        let code = host.poll(self.stream);
        if code == 1 {
            Ok(true)
        } else if code == 0 {
            Ok(false)
        } else {
            match crate::native::tmp_from_primitive(code) {
                Some(e) => Err(Error::PortMidi(e)),
                None => Err(Error::Unknown),
            }
        }
    }

    /// Releases the native stream. Succeeds exactly once: once the handle
    /// is closed the host refuses it, so a second close reports the
    /// bad-pointer error — non-fatal — and frees nothing twice.
    pub fn close(&mut self, host: &mut Host) -> (r: Result<(), Error>)
        requires
            old(host).wf(),
        ensures
            final(host).wf(),
            *final(self) == *old(self),
            !old(host).stream_open(old(self).stream_spec() as int) ==> r == Err::<(), Error>(
                Error::PortMidi(PmError::PmBadPtr),
            ) && *final(host) == *old(host),
            old(host).stream_open(old(self).stream_spec() as int) ==> ({
                let dev = old(host).streams@[old(self).stream_spec() as int].device as int;
                &&& r is Ok
                &&& final(host).streams@ == old(host).streams@.update(
                    old(self).stream_spec() as int,
                    (HostStream {
                        open: false,
                        ..old(host).streams@[old(self).stream_spec() as int]
                    }),
                )
                &&& devices_except(*old(host), *final(host), dev)
                &&& !final(host).devices@[dev].opened
                &&& final(host).devices@[dev].pending@ == old(host).devices@[dev].pending@
                &&& final(host).up == old(host).up
                &&& final(host).log@ == old(host).log@
            }),
    {
        let code = host.close(self.stream);
        Error::from_code(code)
    }
}

/// Represents the output port of a device: one open native output stream.
pub struct OutputPort {
    stream: usize,
    device: PmDeviceId,
    buffer_size: usize,
}

impl OutputPort {
    /// The native stream handle this port owns.
    pub closed spec fn stream_spec(&self) -> usize {
        self.stream
    }

    /// The device this port writes to.
    pub closed spec fn device_spec(&self) -> i32 {
        self.device
    }

    /// The buffer capacity fixed at open time.
    pub closed spec fn buffer_size_spec(&self) -> usize {
        self.buffer_size
    }

    /// The port's capacity fits a native count.
    pub open spec fn wf(&self) -> bool {
        self.buffer_size_spec() <= 0x7fff_ffff
    }

    /// Construct a new `OutputPort` for the given device and buffer size,
    /// eagerly opened, with no latency: timestamps are not honored and
    /// writes deliver immediately.
    ///
    /// If the device is not an output device, `Error::NotAnOutputDevice`
    /// is returned and no native open is attempted: the host is untouched.
    pub fn new(host: &mut Host, device: DeviceInfo, buffer_size: usize) -> (r: Result<
        OutputPort,
        Error,
    >)
        requires
            old(host).wf(),
            old(host).streams@.len() < usize::MAX,
            buffer_size <= 0x7fff_ffff,
        ensures
            final(host).wf(),
            device.dir_spec() == Direction::Input ==> r == Err::<OutputPort, Error>(
                Error::NotAnOutputDevice,
            ) && *final(host) == *old(host),
            device.dir_spec() != Direction::Input && !can_open_output(
                *old(host),
                device.id_spec() as int,
            ) ==> r == Err::<OutputPort, Error>(Error::PortMidi(PmError::PmInvalidDeviceId))
                && *final(host) == *old(host),
            device.dir_spec() != Direction::Input && can_open_output(
                *old(host),
                device.id_spec() as int,
            ) ==> (r matches Ok(p) && p.wf() && p.stream_spec() == old(host).streams@.len()
                && p.device_spec() == device.id_spec() && p.buffer_size_spec() == buffer_size
                && final(host).streams@ == old(host).streams@.push(
                (HostStream { device: device.id_spec(), input: false, open: true }),
            ) && devices_except(*old(host), *final(host), device.id_spec() as int) && final(host).devices@[device.id_spec() as int] == (HostDevice {
                opened: true,
                ..old(host).devices@[device.id_spec() as int]
            }) && final(host).up == old(host).up && final(host).log@ == old(host).log@ && final(host).default_input == old(host).default_input && final(host).default_output == old(host).default_output),
    {
        if device.is_input() {
            return Err(Error::NotAnOutputDevice);
        }
        let (code, handle) = host.open_output(device.id(), buffer_size as i32, 0);
        match Error::from_code(code) {
            Err(e) => Err(e),
            Ok(()) => Ok(
                OutputPort { stream: handle, device: device.id(), buffer_size },
            ),
        }
    }

    /// Terminates outgoing messages immediately; the native layer discards
    /// any in-flight partial transmission. Not supported on every
    /// platform, so callers treat a failure here as non-fatal.
    pub fn abort(&mut self, host: &Host) -> (r: Result<(), Error>)
        requires
            host.wf(),
        ensures
            *final(self) == *old(self),
            host.stream_ok(old(self).stream_spec() as int, false) ==> r is Ok,
            !host.stream_ok(old(self).stream_spec() as int, false) ==> r == Err::<(), Error>(
                Error::PortMidi(PmError::PmBadPtr),
            ),
    {
        let code = host.abort(self.stream);
        Error::from_code(code)
    }

    /// Writes a single event.
    pub fn write_event(&mut self, host: &mut Host, midi_event: MidiEvent) -> (r: Result<(), Error>)
        requires
            old(host).wf(),
        ensures
            final(host).wf(),
            *final(self) == *old(self),
            !old(host).stream_ok(old(self).stream_spec() as int, false) ==> r == Err::<(), Error>(
                Error::PortMidi(PmError::PmBadPtr),
            ) && *final(host) == *old(host),
            old(host).stream_ok(old(self).stream_spec() as int, false) ==> ({
                let dev = old(host).streams@[old(self).stream_spec() as int].device as int;
                &&& r is Ok
                &&& match old(host).devices@[dev].link {
                    Some(t) => only_pending_changed(*old(host), *final(host), t as int) && final(host).devices@[t as int].pending@ == old(host).devices@[t as int].pending@.push(
                        midi_event.encode_spec(),
                    ),
                    None => *final(host) == *old(host),
                }
            }),
    {
        let events = vec![midi_event];
        let r = self.write_events(host, events);
        proof {
            assert(seq![midi_event].map_values(|e: MidiEvent| e.encode_spec()) =~= Seq::empty().push(
                midi_event.encode_spec(),
            ));
        }
        r
    }

    /// Writes a batch of events in one native call, in order: the batch
    /// is neither reordered nor coalesced.
    pub fn write_events(&mut self, host: &mut Host, midi_events: Vec<MidiEvent>) -> (r: Result<
        (),
        Error,
    >)
        requires
            old(host).wf(),
        ensures
            final(host).wf(),
            *final(self) == *old(self),
            !old(host).stream_ok(old(self).stream_spec() as int, false) ==> r == Err::<(), Error>(
                Error::PortMidi(PmError::PmBadPtr),
            ) && *final(host) == *old(host),
            old(host).stream_ok(old(self).stream_spec() as int, false) ==> ({
                let dev = old(host).streams@[old(self).stream_spec() as int].device as int;
                &&& r is Ok
                &&& match old(host).devices@[dev].link {
                    Some(t) => only_pending_changed(*old(host), *final(host), t as int) && final(host).devices@[t as int].pending@ == old(host).devices@[t as int].pending@
                        + midi_events@.map_values(|e: MidiEvent| e.encode_spec()),
                    None => *final(host) == *old(host),
                }
            }),
    {
        let mut raw: Vec<PmEvent> = Vec::new();
        let mut i: usize = 0;
        while i < midi_events.len()
            invariant
                i <= midi_events@.len(),
                raw@.len() == i,
                forall|k: int| 0 <= k < i ==> raw@[k] == midi_events@[k].encode_spec(),
            decreases midi_events@.len() - i,
        {
            let e = midi_events[i].into_raw();
            raw.push(e);
            i += 1;
        }
        proof {
            assert(raw@ =~= midi_events@.map_values(|e: MidiEvent| e.encode_spec()));
        }
        let code = host.write(self.stream, &raw);
        Error::from_code(code)
    }

    /// Writes a single message, sent immediately: timestamp zero, no
    /// latency.
    pub fn write_message(&mut self, host: &mut Host, midi_message: MidiMessage) -> (r: Result<
        (),
        Error,
    >)
        requires
            old(host).wf(),
        ensures
            final(host).wf(),
            *final(self) == *old(self),
            !old(host).stream_ok(old(self).stream_spec() as int, false) ==> r == Err::<(), Error>(
                Error::PortMidi(PmError::PmBadPtr),
            ) && *final(host) == *old(host),
            old(host).stream_ok(old(self).stream_spec() as int, false) ==> ({
                let dev = old(host).streams@[old(self).stream_spec() as int].device as int;
                &&& r is Ok
                &&& match old(host).devices@[dev].link {
                    Some(t) => only_pending_changed(*old(host), *final(host), t as int) && final(host).devices@[t as int].pending@ == old(host).devices@[t as int].pending@.push(
                        (PmEvent { message: midi_message.encode_spec(), timestamp: 0 }),
                    ),
                    None => *final(host) == *old(host),
                }
            }),
    {
        let word = midi_message.encode();
        let code = host.write_short(self.stream, 0, word);
        Error::from_code(code)
    }

    /// Releases the native stream; same exactly-once discipline as the
    /// input port's close.
    pub fn close(&mut self, host: &mut Host) -> (r: Result<(), Error>)
        requires
            old(host).wf(),
        ensures
            final(host).wf(),
            *final(self) == *old(self),
            !old(host).stream_open(old(self).stream_spec() as int) ==> r == Err::<(), Error>(
                Error::PortMidi(PmError::PmBadPtr),
            ) && *final(host) == *old(host),
            old(host).stream_open(old(self).stream_spec() as int) ==> ({
                let dev = old(host).streams@[old(self).stream_spec() as int].device as int;
                &&& r is Ok
                &&& final(host).streams@ == old(host).streams@.update(
                    old(self).stream_spec() as int,
                    (HostStream {
                        open: false,
                        ..old(host).streams@[old(self).stream_spec() as int]
                    }),
                )
                &&& devices_except(*old(host), *final(host), dev)
                &&& !final(host).devices@[dev].opened
                &&& final(host).devices@[dev].pending@ == old(host).devices@[dev].pending@
                &&& final(host).up == old(host).up
                &&& final(host).log@ == old(host).log@
            }),
    {
        let code = host.close(self.stream);
        Error::from_code(code)
    }
}

} // verus!
