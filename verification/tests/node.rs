use canopen_node::frame::{CanId, Frame, FrameQueue};
use canopen_node::nmt::NmtState;
use canopen_node::node::{
    classify, process_frame, process_nmt_command, Context, DispatchOutcome, FrameClass, Node,
    NmtOutcome,
};
use canopen_node::object_dictionary::{Config, Value};

fn frame(raw_id: u16, data: Vec<u8>) -> Frame {
    Frame::new_standard(raw_id, data)
}

#[test]
fn a_fresh_context_is_initializing() {
    let ctx = Context::new(7);
    assert_eq!(ctx.node_id, 7);
    assert_eq!(ctx.nmt_state, NmtState::Initializing);
}

#[test]
fn classification_follows_the_cob_id_ranges() {
    let node_id = 7;
    assert_eq!(classify(CanId::Standard(0x000), node_id), FrameClass::Nmt);
    assert_eq!(classify(CanId::Standard(0x080), node_id), FrameClass::Sync);
    assert_eq!(classify(CanId::Standard(0x200), node_id), FrameClass::Pdo);
    assert_eq!(classify(CanId::Standard(0x350), node_id), FrameClass::Pdo);
    assert_eq!(classify(CanId::Standard(0x4FF), node_id), FrameClass::Pdo);
    assert_eq!(classify(CanId::Standard(0x1FF), node_id), FrameClass::Unhandled);
    assert_eq!(classify(CanId::Standard(0x500), node_id), FrameClass::Unhandled);
    assert_eq!(classify(CanId::Standard(0x607), node_id), FrameClass::SdoRequest);
    assert_eq!(classify(CanId::Standard(0x608), node_id), FrameClass::Unhandled);
    assert_eq!(classify(CanId::Standard(0x580), node_id), FrameClass::Unhandled);
    assert_eq!(classify(CanId::Standard(0x700), node_id), FrameClass::HeartbeatConsumption);
    assert_eq!(classify(CanId::Standard(0x7FF), node_id), FrameClass::HeartbeatConsumption);
    assert_eq!(classify(CanId::Extended(0x000), node_id), FrameClass::Unhandled);
    assert_eq!(classify(CanId::Extended(0x1ABCDE), node_id), FrameClass::Unhandled);
}

#[test]
fn broadcast_enter_operational_reaches_any_node_from_any_state() {
    for node_id in [1u8, 7, 64, 127] {
        for prior in [NmtState::Initializing, NmtState::Stopped, NmtState::PreOperational] {
            let mut ctx = Context::new(node_id);
            ctx.nmt_state = prior;
            let f = frame(0x000, vec![1, 0]);
            let out = process_frame(&mut ctx, &f);
            assert_eq!(out, DispatchOutcome::Nmt(NmtOutcome::StateChanged(NmtState::Operational)));
            assert_eq!(ctx.nmt_state, NmtState::Operational);
            assert_eq!(ctx.node_id, node_id);
        }
    }
}

#[test]
fn commands_for_another_node_change_nothing() {
    let mut ctx = Context::new(7);
    let f = frame(0x000, vec![2, 9]);
    let out = process_frame(&mut ctx, &f);
    assert_eq!(out, DispatchOutcome::Nmt(NmtOutcome::NotAddressed));
    assert_eq!(ctx.nmt_state, NmtState::Initializing);
}

#[test]
fn directly_addressed_commands_apply() {
    let mut ctx = Context::new(9);
    let stop = process_nmt_command(&mut ctx, &vec![2, 9]);
    assert_eq!(stop, NmtOutcome::StateChanged(NmtState::Stopped));
    assert_eq!(ctx.nmt_state, NmtState::Stopped);

    let pre = process_nmt_command(&mut ctx, &vec![128, 0]);
    assert_eq!(pre, NmtOutcome::StateChanged(NmtState::PreOperational));
    assert_eq!(ctx.nmt_state, NmtState::PreOperational);
}

#[test]
fn reset_and_unknown_commands_leave_the_state_alone() {
    let mut ctx = Context::new(7);
    assert_eq!(process_nmt_command(&mut ctx, &vec![129, 0]), NmtOutcome::ResetDevice);
    assert_eq!(ctx.nmt_state, NmtState::Initializing);
    assert_eq!(process_nmt_command(&mut ctx, &vec![130, 7]), NmtOutcome::ResetCommunication);
    assert_eq!(ctx.nmt_state, NmtState::Initializing);
    assert_eq!(process_nmt_command(&mut ctx, &vec![99, 0]), NmtOutcome::UnknownCommand);
    assert_eq!(ctx.nmt_state, NmtState::Initializing);
}

#[test]
fn malformed_nmt_frames_are_reported_and_change_nothing() {
    let mut ctx = Context::new(7);
    ctx.nmt_state = NmtState::Operational;

    let out0 = process_nmt_command(&mut ctx, &vec![]);
    assert_eq!(out0, NmtOutcome::Malformed);
    assert_eq!(ctx.nmt_state, NmtState::Operational);

    let out1 = process_nmt_command(&mut ctx, &vec![1]);
    assert_eq!(out1, NmtOutcome::Malformed);
    assert_eq!(ctx.nmt_state, NmtState::Operational);

    let via_dispatch = process_frame(&mut ctx, &frame(0x000, vec![2]));
    assert_eq!(via_dispatch, DispatchOutcome::Nmt(NmtOutcome::Malformed));
    assert_eq!(ctx.nmt_state, NmtState::Operational);
}

#[test]
fn undefined_command_bytes_decode_to_unknown_and_do_not_mutate() {
    let mut ctx = Context::new(7);
    ctx.nmt_state = NmtState::Stopped;
    for b in [0u8, 3, 127, 131, 200, 255] {
        let out = process_nmt_command(&mut ctx, &vec![b, 0]);
        assert_eq!(out, NmtOutcome::UnknownCommand);
        assert_eq!(ctx.nmt_state, NmtState::Stopped);
    }
}

#[test]
fn node_process_drains_the_inbound_queue_in_order() {
    let mut node = Node::new(7, Config {}, 10);
    assert!(node.process().is_none());

    assert!(node.inbound.try_push(frame(0x000, vec![1, 0])));
    assert!(node.inbound.try_push(frame(0x305, vec![0xAA, 0xBB])));
    assert!(node.inbound.try_push(frame(0x607, vec![0x40])));
    assert!(node.inbound.try_push(frame(0x080, vec![])));
    assert!(node.inbound.try_push(frame(0x70A, vec![5])));
    assert!(node.inbound.try_push(frame(0x7D0, vec![])));

    assert_eq!(
        node.process(),
        Some(DispatchOutcome::Nmt(NmtOutcome::StateChanged(NmtState::Operational)))
    );
    assert_eq!(node.context.nmt_state, NmtState::Operational);
    assert_eq!(node.process(), Some(DispatchOutcome::Pdo));
    assert_eq!(node.process(), Some(DispatchOutcome::SdoRequest));
    assert_eq!(node.process(), Some(DispatchOutcome::Sync));
    assert_eq!(node.process(), Some(DispatchOutcome::HeartbeatConsumption));
    assert_eq!(node.process(), Some(DispatchOutcome::HeartbeatConsumption));
    assert_eq!(node.process(), None);
    // nothing above 0x000 moved the state machine
    assert_eq!(node.context.nmt_state, NmtState::Operational);
}

#[test]
fn unclassified_frames_are_discarded_without_effect() {
    let mut node = Node::new(3, Config {}, 4);
    assert!(node.inbound.try_push(frame(0x100, vec![1, 2])));
    assert!(node.inbound.try_push(Frame::new(CanId::Extended(0x12345), vec![1, 0])));
    assert_eq!(node.process(), Some(DispatchOutcome::Unhandled));
    assert_eq!(node.process(), Some(DispatchOutcome::Unhandled));
    assert_eq!(node.context.nmt_state, NmtState::Initializing);
    assert_eq!(node.object_dictionary.read(0x1017, 0), Ok(Value::Uint16(1000)));
}

#[test]
fn inbound_overflow_drops_frames_but_never_queued_ones() {
    let mut node = Node::new(7, Config {}, 2);
    assert!(node.inbound.try_push(frame(0x000, vec![1, 0])));
    assert!(node.inbound.try_push(frame(0x000, vec![2, 0])));
    // the receiver would drop this one and keep running
    assert!(!node.inbound.try_push(frame(0x000, vec![128, 0])));
    assert_eq!(
        node.process(),
        Some(DispatchOutcome::Nmt(NmtOutcome::StateChanged(NmtState::Operational)))
    );
    assert_eq!(
        node.process(),
        Some(DispatchOutcome::Nmt(NmtOutcome::StateChanged(NmtState::Stopped)))
    );
    assert_eq!(node.process(), None);
    assert_eq!(node.context.nmt_state, NmtState::Stopped);
}

#[test]
fn outbound_queue_reports_fullness_for_backpressure() {
    let mut q = FrameQueue::new(1);
    assert!(!q.is_full());
    q.push(frame(0x707, vec![5]));
    // a producer now waits for space instead of dropping
    assert!(q.is_full());
    assert!(q.pop().is_some());
    assert!(!q.is_full());
    q.push(frame(0x707, vec![127]));
    assert_eq!(q.pop().unwrap().data, vec![127]);
}
