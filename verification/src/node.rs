//! Node state, COB-ID classification, and the dispatch step: one inbound
//! frame is classified by its identifier and routed to the NMT state
//! machine or to one of the protocol extension points.

use crate::frame::{CanId, Frame, FrameQueue};
use crate::nmt::{spec_command_from_byte, NmtCommand, NmtState};
use crate::object_dictionary::{spec_canopen_301_entries, Config, ObjectDictionary};
use vstd::prelude::*;

verus! {

/// Shared node state: the node identifier, assigned once before the
/// runtime starts, and the current NMT state.
pub struct Context {
    pub node_id: u8,
    pub nmt_state: NmtState,
}

impl Context {
    /// The node identifier is in the addressable range.
    pub open spec fn wf(self) -> bool {
        1 <= self.node_id <= 127
    }

    /// A fresh context. A node starts in `Initializing` and advances only
    /// on an explicit NMT command, never on its own.
    pub fn new(node_id: u8) -> (r: Context)
        requires
            1 <= node_id <= 127,
        ensures
            r.node_id == node_id,
            r.nmt_state == NmtState::Initializing,
            r.wf(),
    {
        Context { node_id, nmt_state: NmtState::Initializing }
    }
}

/// The protocol handler a frame belongs to, by its COB-ID.
#[derive(Clone, Copy, Debug, PartialEq, Eq, Structural)]
pub enum FrameClass {
    Nmt,
    Pdo,
    SdoRequest,
    Sync,
    HeartbeatConsumption,
    Unhandled,
}

/// The ordered classification rules, first match wins: NMT at 0x000, PDO
/// in [0x200, 0x4FF], this node's SDO request slot at 0x600 + node id,
/// SYNC at 0x080, heartbeat consumption in [0x700, 0x7FF]. Everything
/// else, extended identifiers included, is unhandled.
pub open spec fn spec_classify(id: CanId, node_id: u8) -> FrameClass {
    match id {
        CanId::Standard(raw) => if raw == 0x000 {
            FrameClass::Nmt
        } else if 0x200 <= raw && raw <= 0x4FF {
            FrameClass::Pdo
        } else if raw == 0x600 + node_id {
            FrameClass::SdoRequest
        } else if raw == 0x080 {
            FrameClass::Sync
        } else if 0x700 <= raw && raw <= 0x7FF {
            FrameClass::HeartbeatConsumption
        } else {
            FrameClass::Unhandled
        },
        CanId::Extended(_) => FrameClass::Unhandled,
    }
}

/// Classify a frame identifier for the node with the given identifier.
pub fn classify(id: CanId, node_id: u8) -> (r: FrameClass)
    ensures
        r == spec_classify(id, node_id),
{
    match id {
        CanId::Standard(raw) => if raw == 0x000 {
            FrameClass::Nmt
        } else if 0x200 <= raw && raw <= 0x4FF {
            FrameClass::Pdo
        } else if raw == 0x600 + (node_id as u16) {
            FrameClass::SdoRequest
        } else if raw == 0x080 {
            FrameClass::Sync
        } else if 0x700 <= raw && raw <= 0x7FF {
            FrameClass::HeartbeatConsumption
        } else {
            FrameClass::Unhandled
        },
        CanId::Extended(_) => FrameClass::Unhandled,
    }
}

/// What handling one NMT frame did.
#[derive(Clone, Copy, Debug, PartialEq, Eq, Structural)]
pub enum NmtOutcome {
    /// The payload was shorter than two bytes: logged and discarded.
    Malformed,
    /// The frame addressed another node: no effect here.
    NotAddressed,
    /// The node entered the carried state.
    StateChanged(NmtState),
    /// A communication-layer reset was requested (extension point).
    ResetCommunication,
    /// A device reset was requested (extension point).
    ResetDevice,
    /// The command byte was unrecognized: logged, no state change.
    UnknownCommand,
}

/// Whether a target byte addresses this node: zero is broadcast.
pub open spec fn spec_addressed(target: u8, node_id: u8) -> bool {
    target == 0 || target == node_id
}

/// The state after one NMT command: the three enter-commands set their
/// state; resets and unknown commands leave it unchanged in this scope.
pub open spec fn spec_state_after_command(c: NmtCommand, s: NmtState) -> NmtState {
    match c {
        NmtCommand::EnterOperational => NmtState::Operational,
        NmtCommand::EnterStopped => NmtState::Stopped,
        NmtCommand::EnterPreOperational => NmtState::PreOperational,
        _ => s,
    }
}

/// The NMT state after handling one NMT frame payload against a context.
pub open spec fn spec_nmt_state_after(data: Seq<u8>, ctx: Context) -> NmtState {
    if data.len() < 2 || !spec_addressed(data[1], ctx.node_id) {
        ctx.nmt_state
    } else {
        spec_state_after_command(spec_command_from_byte(data[0]), ctx.nmt_state)
    }
}

/// The reported outcome of handling one NMT frame payload.
pub open spec fn spec_nmt_outcome(data: Seq<u8>, node_id: u8) -> NmtOutcome {
    if data.len() < 2 {
        NmtOutcome::Malformed
    } else if !spec_addressed(data[1], node_id) {
        NmtOutcome::NotAddressed
    } else {
        match spec_command_from_byte(data[0]) {
            NmtCommand::EnterOperational => NmtOutcome::StateChanged(NmtState::Operational),
            NmtCommand::EnterStopped => NmtOutcome::StateChanged(NmtState::Stopped),
            NmtCommand::EnterPreOperational => NmtOutcome::StateChanged(
                NmtState::PreOperational,
            ),
            NmtCommand::ResetCommunication => NmtOutcome::ResetCommunication,
            NmtCommand::ResetDevice => NmtOutcome::ResetDevice,
            NmtCommand::Unknown => NmtOutcome::UnknownCommand,
        }
    }
}

/// Communication-layer reset, an extension point: reinitializes nothing in
/// this scope and leaves the context unchanged.
pub fn reset_communication(ctx: &mut Context)
    ensures
        *final(ctx) == *old(ctx),
{
}

/// Device reset, an extension point: resets nothing in this scope and
/// leaves the context unchanged.
pub fn reset_device(ctx: &mut Context)
    ensures
        *final(ctx) == *old(ctx),
{
}

/// Handle one NMT frame payload: byte 0 is the command, byte 1 the target
/// node id, where 0 means every node. Too-short payloads and commands for
/// other nodes change nothing; reset commands are extension points and
/// change nothing in this scope. The node identifier never changes.
pub fn process_nmt_command(ctx: &mut Context, data: &Vec<u8>) -> (r: NmtOutcome)
    ensures
        final(ctx).node_id == old(ctx).node_id,
        final(ctx).nmt_state == spec_nmt_state_after(data@, *old(ctx)),
        r == spec_nmt_outcome(data@, old(ctx).node_id),
        old(ctx).wf() ==> final(ctx).wf(),
{
    if data.len() < 2 {
        return NmtOutcome::Malformed;
    }
    let command = NmtCommand::from_byte(data[0]);
    let received_node_id = data[1];
    if received_node_id == 0 || received_node_id == ctx.node_id {
        match command {
            NmtCommand::EnterOperational => {
                ctx.nmt_state = NmtState::Operational;
                NmtOutcome::StateChanged(NmtState::Operational)
            },
            NmtCommand::EnterStopped => {
                ctx.nmt_state = NmtState::Stopped;
                NmtOutcome::StateChanged(NmtState::Stopped)
            },
            NmtCommand::EnterPreOperational => {
                ctx.nmt_state = NmtState::PreOperational;
                NmtOutcome::StateChanged(NmtState::PreOperational)
            },
            NmtCommand::ResetCommunication => {
                reset_communication(ctx);
                NmtOutcome::ResetCommunication
            },
            NmtCommand::ResetDevice => {
                reset_device(ctx);
                NmtOutcome::ResetDevice
            },
            NmtCommand::Unknown => NmtOutcome::UnknownCommand,
        }
    } else {
        NmtOutcome::NotAddressed
    }
}

/// PDO handler, an extension point: takes the payload, no effect in this scope.
pub fn process_pdo(_data: &Vec<u8>) {
}

/// SDO request handler, an extension point: takes the payload, no effect in this scope.
pub fn process_sdo_request(_data: &Vec<u8>) {
}

/// SDO response handler, an extension point: takes the payload, no effect in this scope.
pub fn process_sdo_response(_data: &Vec<u8>) {
}

/// SYNC handler, an extension point: no effect in this scope.
pub fn process_sync() {
}

/// Heartbeat-consumption handler, an extension point: takes the payload,
/// no effect in this scope.
pub fn process_heartbeat(_data: &Vec<u8>) {
}

/// Where one frame was routed, and what the NMT handler did with it.
#[derive(Clone, Copy, Debug, PartialEq, Eq, Structural)]
pub enum DispatchOutcome {
    Nmt(NmtOutcome),
    Pdo,
    SdoRequest,
    Sync,
    HeartbeatConsumption,
    Unhandled,
}

/// The outcome of dispatching one frame against a context.
pub open spec fn spec_dispatch_outcome(f: Frame, ctx: Context) -> DispatchOutcome {
    match spec_classify(f.id, ctx.node_id) {
        FrameClass::Nmt => DispatchOutcome::Nmt(spec_nmt_outcome(f.data@, ctx.node_id)),
        FrameClass::Pdo => DispatchOutcome::Pdo,
        FrameClass::SdoRequest => DispatchOutcome::SdoRequest,
        FrameClass::Sync => DispatchOutcome::Sync,
        FrameClass::HeartbeatConsumption => DispatchOutcome::HeartbeatConsumption,
        FrameClass::Unhandled => DispatchOutcome::Unhandled,
    }
}

/// The NMT state after dispatching one frame: only NMT frames can move it.
pub open spec fn spec_dispatch_state_after(f: Frame, ctx: Context) -> NmtState {
    if spec_classify(f.id, ctx.node_id) is Nmt {
        spec_nmt_state_after(f.data@, ctx)
    } else {
        ctx.nmt_state
    }
}

/// Classify one inbound frame by its COB-ID and route it. Only an NMT
/// frame can move the state machine; every other class goes to its
/// extension point, and unclassified frames are discarded.
pub fn process_frame(ctx: &mut Context, frame: &Frame) -> (r: DispatchOutcome)
    ensures
        final(ctx).node_id == old(ctx).node_id,
        final(ctx).nmt_state == spec_dispatch_state_after(*frame, *old(ctx)),
        r == spec_dispatch_outcome(*frame, *old(ctx)),
        old(ctx).wf() ==> final(ctx).wf(),
{
    let node_id = ctx.node_id;
    match classify(frame.id, node_id) {
        FrameClass::Nmt => DispatchOutcome::Nmt(process_nmt_command(ctx, &frame.data)),
        FrameClass::Pdo => {
            process_pdo(&frame.data);
            DispatchOutcome::Pdo
        },
        FrameClass::SdoRequest => {
            process_sdo_request(&frame.data);
            DispatchOutcome::SdoRequest
        },
        FrameClass::Sync => {
            process_sync();
            DispatchOutcome::Sync
        },
        FrameClass::HeartbeatConsumption => {
            process_heartbeat(&frame.data);
            DispatchOutcome::HeartbeatConsumption
        },
        FrameClass::Unhandled => DispatchOutcome::Unhandled,
    }
}

/// The node runtime's state: identity and NMT state, the parameter store,
/// and the two bounded frame queues toward the bus driver.
pub struct Node {
    pub context: Context,
    pub object_dictionary: ObjectDictionary,
    pub inbound: FrameQueue,
    pub outbound: FrameQueue,
}

impl Node {
    pub open spec fn wf(self) -> bool {
        self.context.wf() && self.object_dictionary.wf() && self.inbound.wf()
            && self.outbound.wf()
    }

    /// Build a node: the bootstrap dictionary, a fresh context in
    /// `Initializing`, and empty queues of the given capacity.
    pub fn new(node_id: u8, config: Config, queue_capacity: usize) -> (r: Node)
        requires
            1 <= node_id <= 127,
        ensures
            r.context.node_id == node_id,
            r.context.nmt_state == NmtState::Initializing,
            r.object_dictionary@ == spec_canopen_301_entries(),
            r.inbound@ == Seq::<Frame>::empty(),
            r.outbound@ == Seq::<Frame>::empty(),
            r.inbound.spec_capacity() == queue_capacity,
            r.outbound.spec_capacity() == queue_capacity,
            r.wf(),
    {
        Node {
            context: Context::new(node_id),
            object_dictionary: ObjectDictionary::new_canopen_301(config),
            inbound: FrameQueue::new(queue_capacity),
            outbound: FrameQueue::new(queue_capacity),
        }
    }

    /// One dispatcher iteration: dequeue the oldest inbound frame, if any,
    /// and dispatch it. The divergent loop around this step, and its 1 ms
    /// pacing delay, belong to the scheduler that drives the node.
    pub fn process(&mut self) -> (r: Option<DispatchOutcome>)
        ensures
            final(self).context.node_id == old(self).context.node_id,
            final(self).object_dictionary == old(self).object_dictionary,
            final(self).outbound == old(self).outbound,
            final(self).inbound.spec_capacity() == old(self).inbound.spec_capacity(),
            old(self).inbound@.len() == 0 ==> r is None && final(self).inbound@ == old(
                self,
            ).inbound@ && final(self).context == old(self).context,
            old(self).inbound@.len() > 0 ==> final(self).inbound@ == old(
                self,
            ).inbound@.drop_first() && r == Some(
                spec_dispatch_outcome(old(self).inbound@[0], old(self).context),
            ) && final(self).context.nmt_state == spec_dispatch_state_after(
                old(self).inbound@[0],
                old(self).context,
            ),
            old(self).wf() ==> final(self).wf(),
    {
        match self.inbound.pop() {
            Some(frame) => Some(process_frame(&mut self.context, &frame)),
            None => None,
        }
    }
}

/// A broadcast EnterOperational frame (identifier 0x000, payload [1, 0])
/// moves a node of any identifier, in any prior state, to `Operational`;
/// an EnterStopped frame addressed to a different, non-broadcast target
/// changes nothing.
pub proof fn lemma_dispatch_classification(
    ctx: Context,
    enter_op: Frame,
    enter_stopped: Frame,
    target: u8,
)
    requires
        ctx.wf(),
        enter_op.id == CanId::Standard(0u16),
        enter_op.data@ == seq![1u8, 0u8],
        enter_stopped.id == CanId::Standard(0u16),
        enter_stopped.data@ == seq![2u8, target],
        target != 0,
        target != ctx.node_id,
    ensures
        spec_dispatch_state_after(enter_op, ctx) == NmtState::Operational,
        spec_dispatch_outcome(enter_op, ctx) == DispatchOutcome::Nmt(
            NmtOutcome::StateChanged(NmtState::Operational),
        ),
        spec_dispatch_state_after(enter_stopped, ctx) == ctx.nmt_state,
        spec_dispatch_outcome(enter_stopped, ctx) == DispatchOutcome::Nmt(
            NmtOutcome::NotAddressed,
        ),
{
}

/// A malformed NMT payload (shorter than two bytes) changes no context
/// state and is reported as malformed, never silently accepted.
pub proof fn lemma_malformed_nmt_ignored(data: Seq<u8>, ctx: Context)
    requires
        data.len() < 2,
    ensures
        spec_nmt_state_after(data, ctx) == ctx.nmt_state,
        spec_nmt_outcome(data, ctx.node_id) == NmtOutcome::Malformed,
{
}

/// Decoding a defined command byte and applying the command yields the
/// documented state; a byte that decodes to `Unknown` applies as no
/// change.
pub proof fn lemma_nmt_decode_apply(b: u8, s: NmtState)
    ensures
        b == 1 ==> spec_state_after_command(spec_command_from_byte(b), s)
            == NmtState::Operational,
        b == 2 ==> spec_state_after_command(spec_command_from_byte(b), s) == NmtState::Stopped,
        b == 128 ==> spec_state_after_command(spec_command_from_byte(b), s)
            == NmtState::PreOperational,
        b == 129 || b == 130 ==> spec_state_after_command(spec_command_from_byte(b), s) == s,
        spec_command_from_byte(b) == NmtCommand::Unknown ==> spec_state_after_command(
            spec_command_from_byte(b),
            s,
        ) == s,
{
}

} // verus!
