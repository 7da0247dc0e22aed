//! A single-reader, single-writer message queue with overflow reporting.
//!
//! The queue accepts fixed-size messages up to the capacity it was
//! created with, and extends the usual first-in-first-out discipline with
//! an overflow protocol: when a message is dropped — because the queue
//! was full, or because the writer signals a loss with `set_overflow` —
//! the writer is blocked until the reader has drained what was queued
//! before the loss and has received one `PmBufferOverflow` report from
//! `dequeue`, which acknowledges the loss and unblocks the writer.
//! `peek` only looks at the head and never acknowledges the loss; the
//! report stays owed to `dequeue`.

use vstd::prelude::*;
use crate::native::{PmError, PmMessage};

verus! {

/// The queue: capacity fixed by `create`, queued messages in arrival
/// order, and the pending-overflow flag.
#[derive(Debug)]
pub struct PmQueue {
    created: bool,
    capacity: usize,
    items: Vec<PmMessage>,
    overflow: bool,
}

impl PmQueue {
    /// Whether `create` has been called.
    pub closed spec fn created_spec(&self) -> bool {
        self.created
    }

    /// The capacity fixed by `create`.
    pub closed spec fn capacity_spec(&self) -> usize {
        self.capacity
    }

    /// The queued messages, oldest first.
    pub closed spec fn items_spec(&self) -> Seq<PmMessage> {
        self.items@
    }

    /// Whether a loss is pending: the writer is blocked and one overflow
    /// report is owed to the reader.
    pub closed spec fn overflow_spec(&self) -> bool {
        self.overflow
    }

    /// The queue never holds more than its capacity.
    pub open spec fn wf(&self) -> bool {
        self.items_spec().len() <= self.capacity_spec()
    }

    /// A queue with no storage yet: every operation but `create` reports
    /// the bad-pointer code until `create` is called.
    pub fn new() -> (q: PmQueue)
        ensures
            q.wf(),
            !q.created_spec(),
            q.capacity_spec() == 0,
            q.items_spec() == Seq::<PmMessage>::empty(),
            !q.overflow_spec(),
    {
        PmQueue { created: false, capacity: 0, items: Vec::new(), overflow: false }
    }

    /// Allocates the queue for at most `num_msgs` messages of
    /// `bytes_per_msg` bytes each. The message size is fixed by the
    /// message type here, so only the count shapes the queue.
    pub fn create(&mut self, num_msgs: usize, bytes_per_msg: usize)
        ensures
            final(self).wf(),
            final(self).created_spec(),
            final(self).capacity_spec() == num_msgs,
            final(self).items_spec() == Seq::<PmMessage>::empty(),
            !final(self).overflow_spec(),
    {
        let _ = bytes_per_msg;
        self.created = true;
        self.capacity = num_msgs;
        self.items = Vec::new();
        self.overflow = false;
    }

    /// Destroys the queue and frees its storage.
    pub fn destroy(&mut self) -> (r: PmError)
        requires
            old(self).wf(),
        ensures
            final(self).wf(),
            !old(self).created_spec() ==> r == PmError::PmBadPtr && *final(self) == *old(self),
            old(self).created_spec() ==> r == PmError::PmNoError && !final(self).created_spec()
                && final(self).items_spec() == Seq::<PmMessage>::empty() && !final(self).overflow_spec() && final(self).capacity_spec() == 0,
    {
        if !self.created {
            return PmError::PmBadPtr;
        }
        self.created = false;
        self.capacity = 0;
        self.items = Vec::new();
        self.overflow = false;
        PmError::PmNoError
    }

    /// Inserts one message. Reports `PmNoError` on success and
    /// `PmBufferOverflow` when the queue is full or a loss is already
    /// pending — in both cases the writer stays blocked until the reader
    /// acknowledges the loss.
    pub fn enqueue(&mut self, mess: PmMessage) -> (r: PmError)
        requires
            old(self).wf(),
        ensures
            final(self).wf(),
            !old(self).created_spec() ==> r == PmError::PmBadPtr && *final(self) == *old(self),
            old(self).created_spec() && old(self).overflow_spec() ==> r
                == PmError::PmBufferOverflow && *final(self) == *old(self),
            old(self).created_spec() && !old(self).overflow_spec() && old(self).items_spec().len()
                == old(self).capacity_spec() ==> r == PmError::PmBufferOverflow && final(self).overflow_spec() && final(self).items_spec() == old(self).items_spec() && final(self).created_spec() && final(self).capacity_spec() == old(self).capacity_spec(),
            old(self).created_spec() && !old(self).overflow_spec() && old(self).items_spec().len()
                < old(self).capacity_spec() ==> r == PmError::PmNoError && final(self).items_spec()
                == old(self).items_spec().push(mess) && !final(self).overflow_spec() && final(self).created_spec() && final(self).capacity_spec() == old(self).capacity_spec(),
    {
        if !self.created {
            return PmError::PmBadPtr;
        }
        if self.overflow {
            return PmError::PmBufferOverflow;
        }
        if self.items.len() >= self.capacity {
            self.overflow = true;
            return PmError::PmBufferOverflow;
        }
        self.items.push(mess);
        PmError::PmNoError
    }

    /// Removes and returns the oldest message. An empty queue reports
    /// `Err(PmNoError)`; when the queue has drained past a loss, one
    /// `Err(PmBufferOverflow)` is reported instead, acknowledging the
    /// loss and unblocking the writer — so the reader receives everything
    /// queued before the loss, then learns of it.
    pub fn dequeue(&mut self) -> (r: Result<PmMessage, PmError>)
        requires
            old(self).wf(),
        ensures
            final(self).wf(),
            final(self).created_spec() == old(self).created_spec(),
            final(self).capacity_spec() == old(self).capacity_spec(),
            !old(self).created_spec() ==> r == Err::<PmMessage, PmError>(PmError::PmBadPtr)
                && *final(self) == *old(self),
            old(self).created_spec() && old(self).items_spec().len() > 0 ==> r == Ok::<
                PmMessage,
                PmError,
            >(old(self).items_spec()[0]) && final(self).items_spec() == old(self).items_spec().skip(1) && final(self).overflow_spec() == old(self).overflow_spec(),
            old(self).created_spec() && old(self).items_spec().len() == 0 && old(self).overflow_spec() ==> r == Err::<PmMessage, PmError>(PmError::PmBufferOverflow)
                && !final(self).overflow_spec() && final(self).items_spec() == old(self).items_spec(),
            old(self).created_spec() && old(self).items_spec().len() == 0 && !old(self).overflow_spec() ==> r == Err::<PmMessage, PmError>(PmError::PmNoError) && *final(self) == *old(self),
    {
        if !self.created {
            return Err(PmError::PmBadPtr);
        }
        if self.items.len() > 0 {
            let mess = self.items.remove(0);
            Ok(mess)
        } else if self.overflow {
            self.overflow = false;
            Err(PmError::PmBufferOverflow)
        } else {
            Err(PmError::PmNoError)
        }
    }

    /// Returns `true` iff the queue exists and is full. If it returns
    /// `false`, the next `enqueue` of an unblocked writer is guaranteed
    /// to succeed.
    pub fn is_full(&self) -> (r: bool)
        ensures
            r == (self.created_spec() && self.items_spec().len() == self.capacity_spec()),
    {
        self.created && self.items.len() == self.capacity
    }

    /// Returns `true` iff the queue exists and holds nothing.
    pub fn is_empty(&self) -> (r: bool)
        ensures
            r == (self.created_spec() && self.items_spec().len() == 0),
    {
        self.created && self.items.len() == 0
    }

    /// Returns the oldest message without removing it, or `None` when
    /// nothing is queued. A pending loss is neither reported nor
    /// acknowledged here: that stays with `dequeue`.
    pub fn peek(&mut self) -> (r: Option<PmMessage>)
        ensures
            *final(self) == *old(self),
            old(self).created_spec() && old(self).items_spec().len() > 0 ==> r == Some(
                old(self).items_spec()[0],
            ),
            !(old(self).created_spec() && old(self).items_spec().len() > 0) ==> r is None,
    {
        if !self.created {
            return None;
        }
        if self.items.len() > 0 {
            Some(self.items[0])
        } else {
            None
        }
    }

    /// Lets the writer signal a loss that happened outside the queue, so
    /// that the reader is guaranteed a `PmBufferOverflow` report from
    /// `dequeue`. Reports `PmBufferOverflow` itself when a loss is
    /// already pending.
    pub fn set_overflow(&mut self) -> (r: PmError)
        requires
            old(self).wf(),
        ensures
            final(self).wf(),
            !old(self).created_spec() ==> r == PmError::PmBadPtr && *final(self) == *old(self),
            old(self).created_spec() && old(self).overflow_spec() ==> r
                == PmError::PmBufferOverflow && *final(self) == *old(self),
            old(self).created_spec() && !old(self).overflow_spec() ==> r == PmError::PmNoError
                && final(self).overflow_spec() && final(self).items_spec() == old(self).items_spec() && final(self).created_spec() && final(self).capacity_spec() == old(self).capacity_spec(),
    {
        if !self.created {
            return PmError::PmBadPtr;
        }
        if self.overflow {
            return PmError::PmBufferOverflow;
        }
        self.overflow = true;
        PmError::PmNoError
    }
}

} // verus!
