//! The framed queue: FIFO order, capacity accounting, and the
//! reserve/commit and read/release protocol.

use espnow_bridge::queue::{FramedQueue, QueueError};

#[test]
fn fifo_order_and_exact_bytes() {
    let mut q = FramedQueue::new(64);
    let frames: Vec<Vec<u8>> = vec![vec![1, 2, 3], vec![9], vec![7, 7, 7, 7], vec![0, 255]];
    for f in frames.iter() {
        assert_eq!(q.push(f.as_slice()), Ok(()));
    }
    for f in frames.iter() {
        let got = q.read().expect("a committed frame must be readable");
        assert_eq!(&got, f);
        q.release();
    }
    assert!(q.read().is_none());
}

#[test]
fn read_does_not_consume() {
    let mut q = FramedQueue::new(16);
    q.push(&[5, 6]).unwrap();
    assert_eq!(q.read().unwrap(), vec![5, 6]);
    assert_eq!(q.read().unwrap(), vec![5, 6]);
    q.release();
    assert!(q.read().is_none());
}

#[test]
fn capacity_exceeded_leaves_queue_unchanged() {
    let mut q = FramedQueue::new(4);
    assert_eq!(q.push(&[1, 2, 3]), Ok(()));
    let free_before = q.free_space();
    let frames_before = q.frame_count();
    assert_eq!(q.push(&[4, 5]), Err(QueueError::CapacityExceeded));
    assert_eq!(q.free_space(), free_before);
    assert_eq!(q.frame_count(), frames_before);
    assert_eq!(q.read().unwrap(), vec![1, 2, 3]);
}

#[test]
fn acquire_too_large_fails() {
    let mut q = FramedQueue::new(8);
    assert_eq!(q.acquire(9), Err(QueueError::CapacityExceeded));
    assert_eq!(q.free_space(), 8);
    assert_eq!(q.acquire(8), Ok(()));
}

#[test]
fn grant_protocol_errors() {
    let mut q = FramedQueue::new(8);
    assert_eq!(q.commit(&[1]), Err(QueueError::NoGrant));
    assert_eq!(q.acquire(2), Ok(()));
    assert_eq!(q.acquire(1), Err(QueueError::GrantInProgress));
    assert_eq!(q.push(&[1]), Err(QueueError::GrantInProgress));
    assert_eq!(q.commit(&[1, 2, 3]), Err(QueueError::GrantOverrun));
    assert_eq!(q.commit(&[1, 2]), Ok(()));
    assert_eq!(q.read().unwrap(), vec![1, 2]);
}

#[test]
fn short_commit_frees_the_remainder() {
    let mut q = FramedQueue::new(8);
    assert_eq!(q.acquire(8), Ok(()));
    assert_eq!(q.free_space(), 0);
    assert_eq!(q.commit(&[1, 2]), Ok(()));
    assert_eq!(q.free_space(), 6);
    assert_eq!(q.read().unwrap(), vec![1, 2]);
}

#[test]
fn unreleased_frame_keeps_its_storage() {
    let mut q = FramedQueue::new(6);
    assert_eq!(q.push(&[1, 2, 3, 4]), Ok(()));
    // Reading without releasing must not free the frame's bytes.
    let _ = q.read().unwrap();
    assert_eq!(q.free_space(), 2);
    assert_eq!(q.push(&[9, 9, 9]), Err(QueueError::CapacityExceeded));
    // Only the explicit release gives the storage back.
    q.release();
    assert_eq!(q.free_space(), 6);
    assert_eq!(q.push(&[9, 9, 9]), Ok(()));
}

#[test]
fn frame_filling_the_whole_capacity_fits() {
    let mut q = FramedQueue::new(4);
    assert_eq!(q.push(&[1, 2, 3, 4]), Ok(()));
    assert_eq!(q.free_space(), 0);
    assert_eq!(q.read().unwrap(), vec![1, 2, 3, 4]);
}

#[test]
fn zero_length_frames_are_frames() {
    let mut q = FramedQueue::new(4);
    assert_eq!(q.push(&[]), Ok(()));
    assert_eq!(q.frame_count(), 1);
    assert_eq!(q.read().unwrap(), Vec::<u8>::new());
    q.release();
    assert_eq!(q.frame_count(), 0);
}

#[test]
fn pop_reads_and_releases() {
    let mut q = FramedQueue::new(16);
    q.push(&[1]).unwrap();
    q.push(&[2]).unwrap();
    assert_eq!(q.pop(), Some(vec![1]));
    assert_eq!(q.pop(), Some(vec![2]));
    assert_eq!(q.pop(), None);
}
