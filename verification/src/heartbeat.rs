//! The heartbeat producer's per-cycle decision: read the producer time
//! from the object dictionary, snapshot the node's state, and either emit
//! one liveness frame or suspend until the error fallback delay passes.

use crate::frame::{CanId, Frame};
use crate::nmt::spec_state_to_byte;
use crate::node::Context;
use crate::object_dictionary::{ObjectDictionary, Value};
use vstd::prelude::*;

verus! {

/// Why the heartbeat interval could not be read.
#[derive(Clone, Copy, Debug, PartialEq, Eq, Structural)]
pub enum ErrorKind {
    /// The parameter is present but not unsigned 16-bit.
    ErrorType,
    /// The parameter is absent.
    NoEntry,
}

/// What reading the heartbeat producer time (index 0x1017, subindex 0,
/// milliseconds) from a dictionary yields.
pub open spec fn spec_heartbeat_interval(od: ObjectDictionary) -> Result<u16, ErrorKind> {
    if !od@.dom().contains((0x1017, 0)) {
        Err(ErrorKind::NoEntry)
    } else {
        match od@[(0x1017, 0)].value {
            Value::Uint16(t) => Ok(t),
            _ => Err(ErrorKind::ErrorType),
        }
    }
}

/// Read the heartbeat producer time: `NoEntry` if the parameter is
/// absent, `ErrorType` if it is present with another type.
pub fn heartbeat_interval(od: &ObjectDictionary) -> (r: Result<u16, ErrorKind>)
    ensures
        r == spec_heartbeat_interval(*od),
{
    match od.get_entry(0x1017, 0) {
        Some(entry) => match entry.value {
            Value::Uint16(t) => Ok(t),
            _ => Err(ErrorKind::ErrorType),
        },
        None => Err(ErrorKind::NoEntry),
    }
}

/// One producer cycle's decision.
pub enum HeartbeatAction {
    /// No usable interval: emit nothing, wait the error fallback delay,
    /// and retry — heartbeat is suspended, not fatal.
    Suspend,
    /// Emit the frame, then wait the carried interval in milliseconds.
    Emit(Frame, u16),
}

/// Whether the producer suspends this cycle: the interval parameter is
/// absent, mistyped, or zero.
pub open spec fn spec_heartbeat_suspends(od: ObjectDictionary) -> bool {
    match spec_heartbeat_interval(od) {
        Ok(t) => t == 0,
        Err(_) => true,
    }
}

/// Decide one producer cycle from the dictionary and a context snapshot.
/// With no usable interval the producer suspends for the fallback delay;
/// otherwise it emits one frame — identifier 0x700 + node id, payload the
/// one-byte encoding of the current NMT state — and waits the interval.
/// Enqueueing the emitted frame may block on a full outbound queue
/// (backpressure, not drop); that wait belongs to the caller.
pub fn heartbeat_cycle(od: &ObjectDictionary, ctx: &Context) -> (r: HeartbeatAction)
    requires
        ctx.wf(),
    ensures
        spec_heartbeat_suspends(*od) ==> r is Suspend,
        !spec_heartbeat_suspends(*od) ==> (r matches HeartbeatAction::Emit(f, i) && f.id
            == CanId::Standard((0x700 + ctx.node_id) as u16) && f.data@ == seq![
            spec_state_to_byte(ctx.nmt_state),
        ] && f.wf() && i == spec_heartbeat_interval(*od)->Ok_0 && i != 0),
{
    let interval = match heartbeat_interval(od) {
        Ok(t) => t,
        Err(_) => 0,
    };
    if interval == 0 {
        HeartbeatAction::Suspend
    } else {
        let state_byte = ctx.nmt_state.to_byte();
        let mut data: Vec<u8> = Vec::new();
        data.push(state_byte);
        proof {
            assert(data@ == seq![spec_state_to_byte(ctx.nmt_state)]);
        }
        let frame = Frame::new_standard(0x700 + (ctx.node_id as u16), data);
        HeartbeatAction::Emit(frame, interval)
    }
}

} // verus!
