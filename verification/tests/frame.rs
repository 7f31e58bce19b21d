use canopen_node::frame::{CanId, Frame, FrameQueue};

fn frame(raw_id: u16, data: Vec<u8>) -> Frame {
    Frame::new_standard(raw_id, data)
}

#[test]
fn frames_carry_their_identifier_and_payload() {
    let f = frame(0x707, vec![5]);
    assert_eq!(f.id, CanId::Standard(0x707));
    assert_eq!(f.data, vec![5]);

    let e = Frame::new(CanId::Extended(0x1ABCDE), vec![1, 2, 3]);
    assert_eq!(e.id, CanId::Extended(0x1ABCDE));
    assert_eq!(e.data, vec![1, 2, 3]);
}

#[test]
fn queue_is_fifo() {
    let mut q = FrameQueue::new(4);
    assert_eq!(q.len(), 0);
    assert_eq!(q.capacity(), 4);
    assert!(q.pop().is_none());

    q.push(frame(0x181, vec![1]));
    q.push(frame(0x182, vec![2]));
    q.push(frame(0x183, vec![3]));
    assert_eq!(q.len(), 3);

    assert_eq!(q.pop().unwrap().id, CanId::Standard(0x181));
    assert_eq!(q.pop().unwrap().id, CanId::Standard(0x182));
    q.push(frame(0x184, vec![4]));
    assert_eq!(q.pop().unwrap().id, CanId::Standard(0x183));
    assert_eq!(q.pop().unwrap().id, CanId::Standard(0x184));
    assert!(q.pop().is_none());
}

#[test]
fn full_queue_drops_the_newest_frame_on_try_push() {
    let mut q = FrameQueue::new(2);
    assert!(q.try_push(frame(0x201, vec![1])));
    assert!(q.try_push(frame(0x202, vec![2])));
    assert!(q.is_full());

    // at capacity: the incoming frame is dropped, the queue is unchanged
    assert!(!q.try_push(frame(0x203, vec![3])));
    assert_eq!(q.len(), 2);
    assert_eq!(q.pop().unwrap().id, CanId::Standard(0x201));
    assert_eq!(q.pop().unwrap().id, CanId::Standard(0x202));
    assert!(q.pop().is_none());
}

#[test]
fn freed_space_accepts_frames_again() {
    let mut q = FrameQueue::new(1);
    assert!(q.try_push(frame(0x701, vec![5])));
    assert!(!q.try_push(frame(0x702, vec![5])));
    assert!(q.pop().is_some());
    assert!(!q.is_full());
    assert!(q.try_push(frame(0x703, vec![5])));
    assert_eq!(q.pop().unwrap().id, CanId::Standard(0x703));
}
