//! CAN identifiers, frame envelopes, and the bounded FIFO frame queues that
//! connect the node core to its bus driver.

use vstd::prelude::*;

verus! {

/// A CAN identifier: standard (11-bit) or extended (29-bit).
#[derive(Clone, Copy, Debug, PartialEq, Eq, Structural)]
pub enum CanId {
    Standard(u16),
    Extended(u32),
}

impl CanId {
    /// The raw value fits in the width of its format.
    pub open spec fn wf(self) -> bool {
        match self {
            CanId::Standard(raw) => raw <= 0x7FF,
            CanId::Extended(raw) => raw <= 0x1FFF_FFFF,
        }
    }
}

/// One CAN frame: an identifier and up to 8 payload bytes.
#[derive(Clone, Debug)]
pub struct Frame {
    pub id: CanId,
    pub data: Vec<u8>,
}

impl Frame {
    /// The identifier is in range and the payload fits a CAN data frame.
    pub open spec fn wf(self) -> bool {
        self.id.wf() && self.data@.len() <= 8
    }

    /// Build a frame from an identifier and payload.
    pub fn new(id: CanId, data: Vec<u8>) -> (r: Frame)
        requires
            id.wf(),
            data@.len() <= 8,
        ensures
            r.id == id,
            r.data@ == data@,
            r.wf(),
    {
        Frame { id, data }
    }

    /// Build a frame with a standard identifier.
    pub fn new_standard(raw_id: u16, data: Vec<u8>) -> (r: Frame)
        requires
            raw_id <= 0x7FF,
            data@.len() <= 8,
        ensures
            r.id == CanId::Standard(raw_id),
            r.data@ == data@,
            r.wf(),
    {
        Frame { id: CanId::Standard(raw_id), data }
    }
}

/// A bounded FIFO queue of frames.
///
/// The node uses two of these: an inbound queue filled by the bus receiver,
/// which drops the newest frame rather than block when the queue is full
/// (`try_push`), and an outbound queue filled by frame producers, which wait
/// for space rather than drop (`push`, enabled only below capacity).
pub struct FrameQueue {
    items: Vec<Frame>,
    capacity: usize,
}

impl View for FrameQueue {
    type V = Seq<Frame>;

    /// The queued frames, oldest (next out) first.
    closed spec fn view(&self) -> Seq<Frame> {
        self.items@
    }
}

impl FrameQueue {
    /// The fixed capacity bound chosen at construction.
    pub closed spec fn spec_capacity(&self) -> nat {
        self.capacity as nat
    }

    /// The queue never holds more frames than its capacity.
    pub open spec fn wf(&self) -> bool {
        self@.len() <= self.spec_capacity()
    }

    /// Create an empty queue with the given capacity bound.
    pub fn new(capacity: usize) -> (r: FrameQueue)
        ensures
            r@ == Seq::<Frame>::empty(),
            r.spec_capacity() == capacity,
            r.wf(),
    {
        FrameQueue { items: Vec::new(), capacity }
    }

    /// Number of queued frames.
    pub fn len(&self) -> (r: usize)
        ensures
            r == self@.len(),
    {
        self.items.len()
    }

    /// The capacity bound.
    pub fn capacity(&self) -> (r: usize)
        ensures
            r == self.spec_capacity(),
    {
        self.capacity
    }

    /// Whether the queue is at capacity.
    pub fn is_full(&self) -> (r: bool)
        ensures
            r == (self@.len() >= self.spec_capacity()),
    {
        self.items.len() >= self.capacity
    }

    /// Non-blocking enqueue: appends the frame when there is room, and
    /// otherwise reports failure and leaves the queue unchanged — the frame
    /// is dropped, never an older queued one (drop-newest intake policy).
    pub fn try_push(&mut self, f: Frame) -> (r: bool)
        ensures
            final(self).spec_capacity() == old(self).spec_capacity(),
            old(self)@.len() < old(self).spec_capacity() ==> r && final(self)@ == old(self)@.push(f),
            old(self)@.len() >= old(self).spec_capacity() ==> !r && final(self)@ == old(self)@,
            old(self).wf() ==> final(self).wf(),
    {
        if self.items.len() < self.capacity {
            self.items.push(f);
            true
        } else {
            false
        }
    }

    /// Enqueue into known free space: callers facing a full queue must wait
    /// for room instead of dropping (the outbound backpressure policy), so
    /// this operation is enabled only below capacity.
    pub fn push(&mut self, f: Frame)
        requires
            old(self)@.len() < old(self).spec_capacity(),
        ensures
            final(self).spec_capacity() == old(self).spec_capacity(),
            final(self)@ == old(self)@.push(f),
            final(self).wf(),
    {
        self.items.push(f);
    }

    /// Dequeue the oldest frame; `None` exactly when the queue is empty.
    pub fn pop(&mut self) -> (r: Option<Frame>)
        ensures
            final(self).spec_capacity() == old(self).spec_capacity(),
            old(self)@.len() == 0 ==> r is None && final(self)@ == old(self)@,
            old(self)@.len() > 0 ==> r == Some(old(self)@[0]) && final(self)@ == old(self)@.drop_first(),
            old(self).wf() ==> final(self).wf(),
    {
        if self.items.len() == 0 {
            None
        } else {
            let front = self.items.remove(0);
            proof {
                assert(old(self)@.remove(0) =~= old(self)@.drop_first());
            }
            Some(front)
        }
    }
}

} // verus!
