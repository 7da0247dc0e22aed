//! An in-memory model of the native MIDI runtime.
//!
//! The runtime itself — init and terminate, device enumeration, stream
//! open/read/write/poll/close, virtual device creation and deletion — is an
//! external capability and out of scope. This module models that capability
//! surface as a plain value with exact contracts: the device, context and
//! port layers above are verified against these contracts, and tests
//! observe through the call log which deletions and terminations a
//! teardown performs. A binding to a real runtime stands outside the
//! library and replays the same calls.
//!
//! Every operation reports its outcome as a raw `i32` code, as the native
//! layer does; the typed reading happens above, in the error layer.

use vstd::prelude::*;
use crate::native::{PmDeviceInfo, PmEvent};

verus! {

/// One observable teardown-relevant call into the native layer. The model
/// records these so that the teardown discipline — every virtual-device
/// deletion attempted before terminate — is checkable from outside.
#[derive(Debug, Clone, Copy, PartialEq, Eq, Structural)]
pub enum HostCall {
    DeleteVirtual(i32),
    Terminate,
}

/// One device slot: capability flags, open state, events pending on its
/// input side, and an optional loopback link that carries events written
/// to this device over to another device's input side.
#[derive(Debug)]
pub struct HostDevice {
    pub name: String,
    pub input: bool,
    pub output: bool,
    pub opened: bool,
    pub is_virtual: bool,
    pub deleted: bool,
    pub pending: Vec<PmEvent>,
    pub link: Option<i32>,
}

/// One native stream slot. Handles are indices into the stream table and
/// are never reused: a closed slot stays closed.
#[derive(Debug, Clone, Copy, PartialEq, Eq, Structural)]
pub struct HostStream {
    pub device: i32,
    pub input: bool,
    pub open: bool,
}

/// The model of the native runtime: initialization state, device table,
/// stream table, default-device ids, transient host error text, and the
/// log of teardown-relevant calls.
#[derive(Debug)]
pub struct Host {
    /// Whether the runtime is initialized.
    pub up: bool,
    /// The code the next init call reports; zero means success.
    pub init_code: i32,
    pub devices: Vec<HostDevice>,
    pub streams: Vec<HostStream>,
    /// Default input device id, or `-1` for none.
    pub default_input: i32,
    /// Default output device id, or `-1` for none.
    pub default_output: i32,
    /// Transient text of the last host error.
    pub host_error: String,
    pub log: Vec<HostCall>,
}

/// All host state except the device table is unchanged.
pub open spec fn frame_devices(pre: Host, post: Host) -> bool {
    post == (Host { devices: post.devices, ..pre })
}

/// The device table keeps its length, and every slot but `dev` its value.
pub open spec fn devices_except(pre: Host, post: Host, dev: int) -> bool {
    &&& post.devices@.len() == pre.devices@.len()
    &&& forall|i: int|
        0 <= i < pre.devices@.len() && i != dev ==> post.devices@[i] == pre.devices@[i]
}

/// Nothing changed but the pending event queue of device slot `dev`.
pub open spec fn only_pending_changed(pre: Host, post: Host, dev: int) -> bool {
    &&& frame_devices(pre, post)
    &&& devices_except(pre, post, dev)
    &&& (0 <= dev < pre.devices@.len() ==> post.devices@[dev] == (HostDevice {
        pending: post.devices@[dev].pending,
        ..pre.devices@[dev]
    }))
}

impl Host {
    /// Well-formedness: the device count fits a native id, every stream
    /// and every loopback link points at a device slot, and the default
    /// ids are either the none-sentinel or in range.
    pub open spec fn wf(&self) -> bool {
        &&& self.devices@.len() <= 0x7fff_ffff
        &&& forall|i: int|
            0 <= i < self.streams@.len() ==> 0 <= #[trigger] self.streams@[i].device
                < self.devices@.len()
        &&& forall|i: int|
            0 <= i < self.devices@.len() && (#[trigger] self.devices@[i].link) is Some
                ==> 0 <= self.devices@[i].link.unwrap() < self.devices@.len()
        &&& self.default_input == -1 || 0 <= self.default_input < self.devices@.len()
        &&& self.default_output == -1 || 0 <= self.default_output < self.devices@.len()
    }

    /// A device slot that exists and was not deleted.
    pub open spec fn valid_device(&self, id: int) -> bool {
        0 <= id < self.devices@.len() && !self.devices@[id].deleted
    }

    /// A stream handle that is open and has the given direction.
    pub open spec fn stream_ok(&self, h: int, input: bool) -> bool {
        &&& 0 <= h < self.streams@.len()
        &&& self.streams@[h].open
        &&& self.streams@[h].input == input
    }

    /// A stream handle that is open, of either direction.
    pub open spec fn stream_open(&self, h: int) -> bool {
        0 <= h < self.streams@.len() && self.streams@[h].open
    }

    /// A fresh model: not initialized, no devices, no streams, no
    /// defaults, empty log.
    pub fn new() -> (h: Host)
        ensures
            h.wf(),
            !h.up,
            h.init_code == 0,
            h.devices@ == Seq::<HostDevice>::empty(),
            h.streams@ == Seq::<HostStream>::empty(),
            h.default_input == -1,
            h.default_output == -1,
            h.host_error@ == Seq::<char>::empty(),
            h.log@ == Seq::<HostCall>::empty(),
    {
        Host {
            up: false,
            init_code: 0,
            devices: Vec::new(),
            streams: Vec::new(),
            default_input: -1,
            default_output: -1,
            host_error: String::new(),
            log: Vec::new(),
        }
    }

    /// Adds a device slot to the enumeration (model set-up). Returns its id.
    pub fn add_device(&mut self, name: String, input: bool, output: bool) -> (id: i32)
        requires
            old(self).wf(),
            old(self).devices@.len() < 0x7fff_ffff,
        ensures
            final(self).wf(),
            id == old(self).devices@.len(),
            final(self).devices@.len() == old(self).devices@.len() + 1,
            forall|i: int|
                0 <= i < old(self).devices@.len() ==> final(self).devices@[i] == old(self).devices@[i],
            final(self).devices@[id as int].name == name,
            final(self).devices@[id as int].input == input,
            final(self).devices@[id as int].output == output,
            !final(self).devices@[id as int].opened,
            !final(self).devices@[id as int].is_virtual,
            !final(self).devices@[id as int].deleted,
            final(self).devices@[id as int].pending@ == Seq::<PmEvent>::empty(),
            final(self).devices@[id as int].link is None,
            final(self).up == old(self).up,
            final(self).init_code == old(self).init_code,
            final(self).streams@ == old(self).streams@,
            final(self).default_input == old(self).default_input,
            final(self).default_output == old(self).default_output,
            final(self).host_error == old(self).host_error,
            final(self).log@ == old(self).log@,
    {
        let id = self.devices.len() as i32;
        self.devices.push(
            HostDevice {
                name,
                input,
                output,
                opened: false,
                is_virtual: false,
                deleted: false,
                pending: Vec::new(),
                link: None,
            },
        );
        id
    }

    /// Sets the default input device id (model set-up).
    pub fn set_default_input(&mut self, id: i32)
        requires
            old(self).wf(),
            id == -1 || 0 <= id < old(self).devices@.len(),
        ensures
            final(self).wf(),
            *final(self) == (Host { default_input: id, ..*old(self) }),
    {
        self.default_input = id;
    }

    /// Sets the default output device id (model set-up).
    pub fn set_default_output(&mut self, id: i32)
        requires
            old(self).wf(),
            id == -1 || 0 <= id < old(self).devices@.len(),
        ensures
            final(self).wf(),
            *final(self) == (Host { default_output: id, ..*old(self) }),
    {
        self.default_output = id;
    }

    /// Sets the code the next init call reports (model set-up).
    pub fn set_init_code(&mut self, code: i32)
        requires
            old(self).wf(),
        ensures
            final(self).wf(),
            *final(self) == (Host { init_code: code, ..*old(self) }),
    {
        self.init_code = code;
    }

    /// Sets the transient host error text (model set-up).
    pub fn set_host_error(&mut self, text: String)
        requires
            old(self).wf(),
        ensures
            final(self).wf(),
            *final(self) == (Host { host_error: text, ..*old(self) }),
    {
        self.host_error = text;
    }

    /// Connects one device's written events to another device's input side
    /// (model set-up of a loopback pair).
    pub fn connect(&mut self, from: i32, to: i32)
        requires
            old(self).wf(),
            0 <= from < old(self).devices@.len(),
            0 <= to < old(self).devices@.len(),
        ensures
            final(self).wf(),
            final(self).devices@.len() == old(self).devices@.len(),
            forall|i: int|
                0 <= i < old(self).devices@.len() && i != from ==> final(self).devices@[i] == old(self).devices@[i],
            final(self).devices@[from as int] == (HostDevice {
                link: Some(to),
                ..old(self).devices@[from as int]
            }),
            *final(self) == (Host { devices: final(self).devices, ..*old(self) }),
    {
        let d = &mut self.devices[from as usize];
        d.link = Some(to);
    }

    /// The init call. Reports the configured code; on a success code the
    /// runtime comes up. Relied on by `initialize` and the context.
    pub fn init(&mut self) -> (r: i32)
        requires
            old(self).wf(),
        ensures
            final(self).wf(),
            r == old(self).init_code,
            r == 0 || r == 1 ==> *final(self) == (Host { up: true, ..*old(self) }),
            !(r == 0 || r == 1) ==> *final(self) == *old(self),
    {
        let code = self.init_code;
        if code == 0 || code == 1 {
            self.up = true;
        }
        code
    }

    /// The terminate call: brings the runtime down and is recorded in the
    /// call log.
    pub fn terminate(&mut self) -> (r: i32)
        requires
            old(self).wf(),
        ensures
            final(self).wf(),
            r == 0,
            !final(self).up,
            final(self).log@ == old(self).log@.push(HostCall::Terminate),
            final(self).devices@ == old(self).devices@,
            final(self).streams@ == old(self).streams@,
            final(self).init_code == old(self).init_code,
            final(self).default_input == old(self).default_input,
            final(self).default_output == old(self).default_output,
            final(self).host_error == old(self).host_error,
    {
        self.up = false;
        self.log.push(HostCall::Terminate);
        0
    }

    /// Number of device slots in the enumeration.
    pub fn count_devices(&self) -> (r: i32)
        requires
            self.wf(),
        ensures
            r == self.devices@.len(),
    {
        self.devices.len() as i32
    }

    /// The enumeration record of one device slot, or `None` for an id that
    /// is out of range or deleted.
    pub fn device_info(&self, id: i32) -> (r: Option<PmDeviceInfo>)
        requires
            self.wf(),
        ensures
            self.valid_device(id as int) <==> r is Some,
            r is Some ==> {
                let info = r.unwrap();
                &&& info.name@ == self.devices@[id as int].name@
                &&& info.input == self.devices@[id as int].input
                &&& info.output == self.devices@[id as int].output
                &&& info.opened == self.devices@[id as int].opened
                &&& info.struct_version == 0
                &&& info.interf@ == Seq::<char>::empty()
            },
    {
        if id < 0 || id >= self.devices.len() as i32 {
            return None;
        }
        let dev = &self.devices[id as usize];
        if dev.deleted {
            return None;
        }
        Some(
            PmDeviceInfo {
                struct_version: 0,
                interf: String::new(),
                name: dev.name.clone(),
                input: dev.input,
                output: dev.output,
                opened: dev.opened,
            },
        )
    }

    /// The default input device id, or `-1` for none.
    pub fn default_input_id(&self) -> (r: i32)
        ensures
            r == self.default_input,
    {
        self.default_input
    }

    /// The default output device id, or `-1` for none.
    pub fn default_output_id(&self) -> (r: i32)
        ensures
            r == self.default_output,
    {
        self.default_output
    }

    /// The transient host error text, as the native layer would report it
    /// while the error is still pending.
    pub fn host_error_text(&self) -> (r: String)
        ensures
            r@ == self.host_error@,
    {
        self.host_error.clone()
    }

    /// Opens an input stream on a device. Returns the result code and, on
    /// code zero, a fresh open stream handle. Fails with the invalid-device
    /// code when the runtime is down, the id is out of range or deleted,
    /// the device has no input side, or it is already opened; nothing
    /// changes on failure.
    pub fn open_input(&mut self, id: i32, buffer_size: i32) -> (r: (i32, usize))
        requires
            old(self).wf(),
            old(self).streams@.len() < usize::MAX,
        ensures
            final(self).wf(),
            ({
                let ok = old(self).up && old(self).valid_device(id as int) && old(self).devices@[id as int].input && !old(self).devices@[id as int].opened;
                if ok {
                    &&& r.0 == 0
                    &&& r.1 == old(self).streams@.len()
                    &&& final(self).streams@ == old(self).streams@.push(
                        (HostStream { device: id, input: true, open: true }),
                    )
                    &&& final(self).devices@.len() == old(self).devices@.len()
                    &&& forall|i: int|
                        0 <= i < old(self).devices@.len() && i != id
                            ==> final(self).devices@[i] == old(self).devices@[i]
                    &&& final(self).devices@[id as int] == (HostDevice {
                        opened: true,
                        ..old(self).devices@[id as int]
                    })
                    &&& final(self).up == old(self).up
                    &&& final(self).init_code == old(self).init_code
                    &&& final(self).default_input == old(self).default_input
                    &&& final(self).default_output == old(self).default_output
                    &&& final(self).host_error == old(self).host_error
                    &&& final(self).log@ == old(self).log@
                } else {
                    r.0 == -9999 && *final(self) == *old(self)
                }
            }),
    {
        let _ = buffer_size;
        if !self.up || id < 0 || id >= self.devices.len() as i32 {
            return (-9999, 0);
        }
        let idx = id as usize;
        if self.devices[idx].deleted || !self.devices[idx].input || self.devices[idx].opened {
            return (-9999, 0);
        }
        let handle = self.streams.len();
        self.streams.push(HostStream { device: id, input: true, open: true });
        let d = &mut self.devices[idx];
        d.opened = true;
        (0, handle)
    }

    /// Opens an output stream on a device; the latency setting controls
    /// whether timestamps are honored and is not part of the model state.
    /// Same outcome shape as `open_input`.
    pub fn open_output(&mut self, id: i32, buffer_size: i32, latency: i32) -> (r: (i32, usize))
        requires
            old(self).wf(),
            old(self).streams@.len() < usize::MAX,
        ensures
            final(self).wf(),
            ({
                let ok = old(self).up && old(self).valid_device(id as int) && old(self).devices@[id as int].output && !old(self).devices@[id as int].opened;
                if ok {
                    &&& r.0 == 0
                    &&& r.1 == old(self).streams@.len()
                    &&& final(self).streams@ == old(self).streams@.push(
                        (HostStream { device: id, input: false, open: true }),
                    )
                    &&& final(self).devices@.len() == old(self).devices@.len()
                    &&& forall|i: int|
                        0 <= i < old(self).devices@.len() && i != id
                            ==> final(self).devices@[i] == old(self).devices@[i]
                    &&& final(self).devices@[id as int] == (HostDevice {
                        opened: true,
                        ..old(self).devices@[id as int]
                    })
                    &&& final(self).up == old(self).up
                    &&& final(self).init_code == old(self).init_code
                    &&& final(self).default_input == old(self).default_input
                    &&& final(self).default_output == old(self).default_output
                    &&& final(self).host_error == old(self).host_error
                    &&& final(self).log@ == old(self).log@
                } else {
                    r.0 == -9999 && *final(self) == *old(self)
                }
            }),
    {
        let _ = buffer_size;
        let _ = latency;
        if !self.up || id < 0 || id >= self.devices.len() as i32 {
            return (-9999, 0);
        }
        let idx = id as usize;
        if self.devices[idx].deleted || !self.devices[idx].output || self.devices[idx].opened {
            return (-9999, 0);
        }
        let handle = self.streams.len();
        self.streams.push(HostStream { device: id, input: false, open: true });
        let d = &mut self.devices[idx];
        d.opened = true;
        (0, handle)
    }

    /// Polls an input stream without consuming: code `1` iff events are
    /// pending, `0` iff none, and the bad-pointer code on a handle that is
    /// not an open input stream.
    pub fn poll(&self, stream: usize) -> (r: i32)
        requires
            self.wf(),
        ensures
            !self.stream_ok(stream as int, true) ==> r == -9995,
            self.stream_ok(stream as int, true) ==> r == (
            if self.devices@[self.streams@[stream as int].device as int].pending@.len() > 0 {
                1i32
            } else {
                0i32
            }),
    {
        if stream >= self.streams.len() {
            return -9995;
        }
        let s = self.streams[stream];
        if !s.open || !s.input {
            return -9995;
        }
        if self.devices[s.device as usize].pending.len() > 0 {
            1
        } else {
            0
        }
    }

    /// Reads up to `max` pending events from an input stream, in arrival
    /// order, consuming them. Returns the count read (possibly zero) and
    /// the events; the bad-pointer code on a handle that is not an open
    /// input stream, with nothing changed.
    pub fn read(&mut self, stream: usize, max: i32) -> (r: (i32, Vec<PmEvent>))
        requires
            old(self).wf(),
        ensures
            final(self).wf(),
            !old(self).stream_ok(stream as int, true) ==> r.0 == -9995 && *final(self) == *old(self),
            old(self).stream_ok(stream as int, true) ==> ({
                let dev = old(self).streams@[stream as int].device as int;
                let pending = old(self).devices@[dev].pending@;
                let n = if max <= 0 {
                    0int
                } else if max <= pending.len() {
                    max as int
                } else {
                    pending.len() as int
                };
                &&& r.0 == n
                &&& r.1@ == pending.take(n)
                &&& final(self).devices@.len() == old(self).devices@.len()
                &&& forall|i: int|
                    0 <= i < old(self).devices@.len() && i != dev ==> final(self).devices@[i]
                        == old(self).devices@[i]
                &&& final(self).devices@[dev] == (HostDevice {
                    pending: final(self).devices@[dev].pending,
                    ..old(self).devices@[dev]
                })
                &&& final(self).devices@[dev].pending@ == pending.skip(n)
                &&& *final(self) == (Host { devices: final(self).devices, ..*old(self) })
            }),
    {
        if stream >= self.streams.len() {
            return (-9995, Vec::new());
        }
        let s = self.streams[stream];
        if !s.open || !s.input {
            return (-9995, Vec::new());
        }
        let dev_idx = s.device as usize;
        let pending_len = self.devices[dev_idx].pending.len();
        let take: usize = if max <= 0 {
            0
        } else if (max as usize) <= pending_len {
            max as usize
        } else {
            pending_len
        };
        let mut out: Vec<PmEvent> = Vec::new();
        let mut i: usize = 0;
        while i < take
            invariant
                take <= pending_len,
                pending_len == self.devices@[dev_idx as int].pending@.len(),
                i <= take,
                dev_idx < self.devices@.len(),
                out@ == self.devices@[dev_idx as int].pending@.take(i as int),
            decreases take - i,
        {
            let e = self.devices[dev_idx].pending[i];
            out.push(e);
            i += 1;
        }
        let mut rest: Vec<PmEvent> = Vec::new();
        let mut j: usize = take;
        while j < pending_len
            invariant
                take <= j <= pending_len,
                pending_len == self.devices@[dev_idx as int].pending@.len(),
                dev_idx < self.devices@.len(),
                rest@ == self.devices@[dev_idx as int].pending@.subrange(take as int, j as int),
            decreases pending_len - j,
        {
            let e = self.devices[dev_idx].pending[j];
            rest.push(e);
            j += 1;
        }
        proof {
            assert(rest@ == self.devices@[dev_idx as int].pending@.skip(take as int));
        }
        let d = &mut self.devices[dev_idx];
        d.pending = rest;
        (take as i32, out)
    }

    /// Writes a batch of events through an output stream, in order. When
    /// the device has a loopback link the events are appended, unreordered,
    /// to the linked device's pending input; otherwise they leave the
    /// model. Code zero on success, the bad-pointer code on a handle that
    /// is not an open output stream, with nothing changed.
    pub fn write(&mut self, stream: usize, events: &Vec<PmEvent>) -> (r: i32)
        requires
            old(self).wf(),
        ensures
            final(self).wf(),
            !old(self).stream_ok(stream as int, false) ==> r == -9995 && *final(self) == *old(self),
            old(self).stream_ok(stream as int, false) ==> ({
                let dev = old(self).streams@[stream as int].device as int;
                &&& r == 0
                &&& match old(self).devices@[dev].link {
                    Some(t) => {
                        &&& final(self).devices@.len() == old(self).devices@.len()
                        &&& forall|i: int|
                            0 <= i < old(self).devices@.len() && i != t ==> final(self).devices@[i] == old(self).devices@[i]
                        &&& final(self).devices@[t as int] == (HostDevice {
                            pending: final(self).devices@[t as int].pending,
                            ..old(self).devices@[t as int]
                        })
                        &&& final(self).devices@[t as int].pending@ == old(self).devices@[t as int].pending@ + events@
                        &&& *final(self) == (Host { devices: final(self).devices, ..*old(self) })
                    },
                    None => *final(self) == *old(self),
                }
            }),
    {
        if stream >= self.streams.len() {
            return -9995;
        }
        let s = self.streams[stream];
        if !s.open || s.input {
            return -9995;
        }
        let dev_idx = s.device as usize;
        match self.devices[dev_idx].link {
            None => 0,
            Some(t) => {
                let t_idx = t as usize;
                let mut i: usize = 0;
                while i < events.len()
                    invariant
                        i <= events@.len(),
                        t_idx < self.devices@.len(),
                        self.devices@.len() == old(self).devices@.len(),
                        forall|k: int|
                            0 <= k < old(self).devices@.len() && k != t_idx ==> self.devices@[k]
                                == old(self).devices@[k],
                        self.devices@[t_idx as int] == (HostDevice {
                            pending: self.devices@[t_idx as int].pending,
                            ..old(self).devices@[t_idx as int]
                        }),
                        self.devices@[t_idx as int].pending@ == old(self).devices@[t_idx as int].pending@ + events@.take(i as int),
                        self.streams == old(self).streams,
                        self.up == old(self).up,
                        self.init_code == old(self).init_code,
                        self.default_input == old(self).default_input,
                        self.default_output == old(self).default_output,
                        self.host_error == old(self).host_error,
                        self.log == old(self).log,
                    decreases events@.len() - i,
                {
                    let e = events[i];
                    let d = &mut self.devices[t_idx];
                    d.pending.push(e);
                    i += 1;
                }
                proof {
                    assert(events@.take(events@.len() as int) == events@);
                }
                0
            },
        }
    }

    /// Writes a single wire word with a timestamp through an output
    /// stream: one event, same outcome shape as `write`.
    pub fn write_short(&mut self, stream: usize, timestamp: u32, word: u32) -> (r: i32)
        requires
            old(self).wf(),
        ensures
            final(self).wf(),
            !old(self).stream_ok(stream as int, false) ==> r == -9995 && *final(self) == *old(self),
            old(self).stream_ok(stream as int, false) ==> ({
                let dev = old(self).streams@[stream as int].device as int;
                &&& r == 0
                &&& match old(self).devices@[dev].link {
                    Some(t) => {
                        &&& final(self).devices@.len() == old(self).devices@.len()
                        &&& forall|i: int|
                            0 <= i < old(self).devices@.len() && i != t ==> final(self).devices@[i] == old(self).devices@[i]
                        &&& final(self).devices@[t as int] == (HostDevice {
                            pending: final(self).devices@[t as int].pending,
                            ..old(self).devices@[t as int]
                        })
                        &&& final(self).devices@[t as int].pending@ == old(self).devices@[t as int].pending@.push(
                            (PmEvent { message: word, timestamp }),
                        )
                        &&& *final(self) == (Host { devices: final(self).devices, ..*old(self) })
                    },
                    None => *final(self) == *old(self),
                }
            }),
    {
        if stream >= self.streams.len() {
            return -9995;
        }
        let s = self.streams[stream];
        if !s.open || s.input {
            return -9995;
        }
        let dev_idx = s.device as usize;
        match self.devices[dev_idx].link {
            None => 0,
            Some(t) => {
                let t_idx = t as usize;
                let d = &mut self.devices[t_idx];
                d.pending.push(PmEvent { message: word, timestamp });
                0
            },
        }
    }

    /// Closes an open stream: the handle goes dead and its device is
    /// released. Code zero on success, the bad-pointer code on a handle
    /// that is not open (so a second close of the same handle fails, it
    /// never frees twice), with nothing changed.
    pub fn close(&mut self, stream: usize) -> (r: i32)
        requires
            old(self).wf(),
        ensures
            final(self).wf(),
            !old(self).stream_open(stream as int) ==> r == -9995 && *final(self) == *old(self),
            old(self).stream_open(stream as int) ==> ({
                let dev = old(self).streams@[stream as int].device as int;
                &&& r == 0
                &&& final(self).streams@ == old(self).streams@.update(
                    stream as int,
                    (HostStream { open: false, ..old(self).streams@[stream as int] }),
                )
                &&& final(self).devices@.len() == old(self).devices@.len()
                &&& forall|i: int|
                    0 <= i < old(self).devices@.len() && i != dev ==> final(self).devices@[i]
                        == old(self).devices@[i]
                &&& final(self).devices@[dev] == (HostDevice {
                    opened: false,
                    ..old(self).devices@[dev]
                })
                &&& final(self).up == old(self).up
                &&& final(self).init_code == old(self).init_code
                &&& final(self).default_input == old(self).default_input
                &&& final(self).default_output == old(self).default_output
                &&& final(self).host_error == old(self).host_error
                &&& final(self).log@ == old(self).log@
            }),
    {
        if stream >= self.streams.len() {
            return -9995;
        }
        if !self.streams[stream].open {
            return -9995;
        }
        let dev_idx = self.streams[stream].device as usize;
        let s = &mut self.streams[stream];
        s.open = false;
        let d = &mut self.devices[dev_idx];
        d.opened = false;
        0
    }

    /// Aborts in-flight output on an open output stream. The model has
    /// nothing in flight, so this only reports: code zero for an open
    /// output stream, the bad-pointer code otherwise.
    pub fn abort(&self, stream: usize) -> (r: i32)
        requires
            self.wf(),
        ensures
            r == (if self.stream_ok(stream as int, false) {
                0i32
            } else {
                -9995i32
            }),
    {
        if stream >= self.streams.len() {
            return -9995;
        }
        let s = self.streams[stream];
        if !s.open || s.input {
            return -9995;
        }
        0
    }

    /// Creates a virtual input device under the given name. Returns the
    /// fresh id, or the invalid-device code when the runtime is down or
    /// the name is already taken by a live device, with nothing changed.
    pub fn create_virtual_input(&mut self, name: String) -> (r: i32)
        requires
            old(self).wf(),
            old(self).devices@.len() < 0x7fff_ffff,
        ensures
            final(self).wf(),
            ({
                let dup = exists|k: int|
                    0 <= k < old(self).devices@.len() && !old(self).devices@[k].deleted && old(self).devices@[k].name@ == name@;
                if !old(self).up || dup {
                    r == -9999 && *final(self) == *old(self)
                } else {
                    &&& r == old(self).devices@.len()
                    &&& final(self).devices@.len() == old(self).devices@.len() + 1
                    &&& forall|i: int|
                        0 <= i < old(self).devices@.len() ==> final(self).devices@[i] == old(self).devices@[i]
                    &&& final(self).devices@[r as int].name@ == name@
                    &&& final(self).devices@[r as int].input
                    &&& !final(self).devices@[r as int].output
                    &&& !final(self).devices@[r as int].opened
                    &&& final(self).devices@[r as int].is_virtual
                    &&& !final(self).devices@[r as int].deleted
                    &&& final(self).devices@[r as int].pending@ == Seq::<PmEvent>::empty()
                    &&& final(self).devices@[r as int].link is None
                    &&& *final(self) == (Host { devices: final(self).devices, ..*old(self) })
                }
            }),
    {
        self.create_virtual(name, true)
    }

    /// Creates a virtual output device under the given name. Same outcome
    /// shape as `create_virtual_input`, with the output capability set.
    pub fn create_virtual_output(&mut self, name: String) -> (r: i32)
        requires
            old(self).wf(),
            old(self).devices@.len() < 0x7fff_ffff,
        ensures
            final(self).wf(),
            ({
                let dup = exists|k: int|
                    0 <= k < old(self).devices@.len() && !old(self).devices@[k].deleted && old(self).devices@[k].name@ == name@;
                if !old(self).up || dup {
                    r == -9999 && *final(self) == *old(self)
                } else {
                    &&& r == old(self).devices@.len()
                    &&& final(self).devices@.len() == old(self).devices@.len() + 1
                    &&& forall|i: int|
                        0 <= i < old(self).devices@.len() ==> final(self).devices@[i] == old(self).devices@[i]
                    &&& final(self).devices@[r as int].name@ == name@
                    &&& !final(self).devices@[r as int].input
                    &&& final(self).devices@[r as int].output
                    &&& !final(self).devices@[r as int].opened
                    &&& final(self).devices@[r as int].is_virtual
                    &&& !final(self).devices@[r as int].deleted
                    &&& final(self).devices@[r as int].pending@ == Seq::<PmEvent>::empty()
                    &&& final(self).devices@[r as int].link is None
                    &&& *final(self) == (Host { devices: final(self).devices, ..*old(self) })
                }
            }),
    {
        self.create_virtual(name, false)
    }

    /// Shared body of the two virtual-device constructors.
    fn create_virtual(&mut self, name: String, input: bool) -> (r: i32)
        requires
            old(self).wf(),
            old(self).devices@.len() < 0x7fff_ffff,
        ensures
            final(self).wf(),
            ({
                let dup = exists|k: int|
                    0 <= k < old(self).devices@.len() && !old(self).devices@[k].deleted && old(self).devices@[k].name@ == name@;
                if !old(self).up || dup {
                    r == -9999 && *final(self) == *old(self)
                } else {
                    &&& r == old(self).devices@.len()
                    &&& final(self).devices@.len() == old(self).devices@.len() + 1
                    &&& forall|i: int|
                        0 <= i < old(self).devices@.len() ==> final(self).devices@[i] == old(self).devices@[i]
                    &&& final(self).devices@[r as int].name@ == name@
                    &&& final(self).devices@[r as int].input == input
                    &&& final(self).devices@[r as int].output == !input
                    &&& !final(self).devices@[r as int].opened
                    &&& final(self).devices@[r as int].is_virtual
                    &&& !final(self).devices@[r as int].deleted
                    &&& final(self).devices@[r as int].pending@ == Seq::<PmEvent>::empty()
                    &&& final(self).devices@[r as int].link is None
                    &&& *final(self) == (Host { devices: final(self).devices, ..*old(self) })
                }
            }),
    {
        if !self.up {
            return -9999;
        }
        let n = self.devices.len();
        let mut k: usize = 0;
        while k < n
            invariant
                *self == *old(self),
                self.wf(),
                n == self.devices@.len(),
                k <= n,
                forall|i: int|
                    0 <= i < k ==> !(!self.devices@[i].deleted && self.devices@[i].name@ == name@),
            decreases n - k,
        {
            if !self.devices[k].deleted && self.devices[k].name == name {
                return -9999;
            }
            k += 1;
        }
        let id = self.devices.len() as i32;
        self.devices.push(
            HostDevice {
                name,
                input,
                output: !input,
                opened: false,
                is_virtual: true,
                deleted: false,
                pending: Vec::new(),
                link: None,
            },
        );
        id
    }

    /// Deletes a virtual device. The attempt is always recorded in the
    /// call log; it succeeds with code zero on a live, unopened virtual
    /// device, and fails with the invalid-device code otherwise. A deleted
    /// slot stays deleted — the same id can never be freed twice.
    pub fn delete_virtual_device(&mut self, id: i32) -> (r: i32)
        requires
            old(self).wf(),
        ensures
            final(self).wf(),
            final(self).log@ == old(self).log@.push(HostCall::DeleteVirtual(id)),
            ({
                let ok = old(self).valid_device(id as int) && old(self).devices@[id as int].is_virtual && !old(self).devices@[id as int].opened;
                if ok {
                    &&& r == 0
                    &&& final(self).devices@.len() == old(self).devices@.len()
                    &&& forall|i: int|
                        0 <= i < old(self).devices@.len() && i != id ==> final(self).devices@[i]
                            == old(self).devices@[i]
                    &&& final(self).devices@[id as int] == (HostDevice {
                        deleted: true,
                        ..old(self).devices@[id as int]
                    })
                    &&& final(self).streams@ == old(self).streams@
                    &&& final(self).up == old(self).up
                    &&& final(self).init_code == old(self).init_code
                    &&& final(self).default_input == old(self).default_input
                    &&& final(self).default_output == old(self).default_output
                    &&& final(self).host_error == old(self).host_error
                } else {
                    &&& r == -9999
                    &&& final(self).devices@ == old(self).devices@
                    &&& final(self).streams@ == old(self).streams@
                    &&& final(self).up == old(self).up
                    &&& final(self).init_code == old(self).init_code
                    &&& final(self).default_input == old(self).default_input
                    &&& final(self).default_output == old(self).default_output
                    &&& final(self).host_error == old(self).host_error
                }
            }),
    {
        self.log.push(HostCall::DeleteVirtual(id));
        if id < 0 || id >= self.devices.len() as i32 {
            return -9999;
        }
        let idx = id as usize;
        if self.devices[idx].deleted || !self.devices[idx].is_virtual || self.devices[idx].opened {
            return -9999;
        }
        let d = &mut self.devices[idx];
        d.deleted = true;
        0
    }
}

} // verus!
