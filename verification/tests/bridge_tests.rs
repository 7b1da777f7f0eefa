//! The radio bridge: device bounds, the bounded retry state machine, and
//! the broadcast exclusion.

use espnow_bridge::bridge::{CommandOutcome, PeerTable, RadioBridge, BROADCAST};
use espnow_bridge::queue::FramedQueue;

const DEV1: [u8; 6] = [0x50, 0x02, 0x91, 0x9F, 0xCF, 0x9C];
const DEV2: [u8; 6] = [0x50, 0x02, 0x91, 0x87, 0x95, 0x81];

fn bridge(max_retries: usize) -> RadioBridge {
    let table = PeerTable::new(&vec![DEV1, DEV2]);
    RadioBridge::new(table, max_retries)
}

#[test]
fn peer_table_layout() {
    let table = PeerTable::new(&vec![DEV1, DEV2]);
    assert_eq!(table.len(), 3);
    assert_eq!(table.addr_of(0), BROADCAST);
    assert_eq!(table.addr_of(1), DEV1);
    assert_eq!(table.addr_of(2), DEV2);
    assert_eq!(table.lookup(&DEV2), 2);
    assert_eq!(table.lookup(&BROADCAST), 0);
    assert_eq!(table.lookup(&[1, 2, 3, 4, 5, 6]), 0);
}

#[test]
fn every_peer_is_registered_unencrypted() {
    let table = PeerTable::new(&vec![DEV1, DEV2]);
    let regs = table.registrations(7);
    assert_eq!(regs.len(), 3);
    assert_eq!(
        regs.iter().map(|r| r.addr).collect::<Vec<_>>(),
        vec![BROADCAST, DEV1, DEV2]
    );
    assert!(regs.iter().all(|r| r.channel == 7 && !r.encrypt));
}

#[test]
fn command_for_known_device_is_transmitted() {
    let b = bridge(3);
    let mut cmd_q = FramedQueue::new(32);
    cmd_q.push(&[0x6D, 2]).unwrap();
    match b.poll_command(&mut cmd_q) {
        CommandOutcome::Transmit { device, addr, data } => {
            assert_eq!(device, 2);
            assert_eq!(addr, DEV2);
            assert_eq!(data, vec![0x6D, 2]);
        }
        other => panic!("expected a transmission, got {other:?}"),
    }
    // The frame left the queue either way.
    assert_eq!(cmd_q.frame_count(), 0);
}

#[test]
fn out_of_range_device_never_reaches_the_radio() {
    let b = bridge(3);
    let mut cmd_q = FramedQueue::new(32);
    cmd_q.push(&[0x6D, 3]).unwrap();
    assert_eq!(
        b.poll_command(&mut cmd_q),
        CommandOutcome::UnknownDevice { device: 3 }
    );
    assert_eq!(cmd_q.frame_count(), 0);
}

#[test]
fn empty_queue_is_idle() {
    let b = bridge(3);
    let mut cmd_q = FramedQueue::new(32);
    assert_eq!(b.poll_command(&mut cmd_q), CommandOutcome::Idle);
}

#[test]
fn frame_of_exactly_the_limit_is_transmitted() {
    let b = bridge(3);
    let mut cmd_q = FramedQueue::new(32);
    let frame = [0x72, 1, 3, 4, 5, 6, 7, 8, 9, 10];
    cmd_q.push(&frame).unwrap();
    match b.poll_command(&mut cmd_q) {
        CommandOutcome::Transmit { device, data, .. } => {
            assert_eq!(device, 1);
            assert_eq!(data, frame.to_vec());
        }
        other => panic!("expected a transmission, got {other:?}"),
    }
}

#[test]
fn oversized_frame_is_discarded() {
    let b = bridge(3);
    let mut cmd_q = FramedQueue::new(32);
    cmd_q.push(&[1, 2, 3, 4, 5, 6, 7, 8, 9, 10, 11]).unwrap();
    assert_eq!(b.poll_command(&mut cmd_q), CommandOutcome::FrameTooLong);
    assert_eq!(cmd_q.frame_count(), 0);
}

#[test]
fn retry_bound_with_three_retries() {
    let mut b = bridge(3);
    let mut retry_q = FramedQueue::new(16);
    let mut error_q = FramedQueue::new(16);

    // Exactly the first three consecutive failures trigger retries.
    for _ in 0..3 {
        b.on_send_status(&DEV1, false, &mut retry_q, &mut error_q);
    }
    assert_eq!(retry_q.frame_count(), 3);
    assert_eq!(error_q.frame_count(), 0);
    assert_eq!(retry_q.pop(), Some(vec![1]));

    // The fourth consecutive failure reports an error instead, and so does
    // every further one until a success resets the counter.
    b.on_send_status(&DEV1, false, &mut retry_q, &mut error_q);
    assert_eq!(retry_q.frame_count(), 2);
    assert_eq!(error_q.frame_count(), 1);
    assert_eq!(error_q.pop(), Some(vec![1]));
    b.on_send_status(&DEV1, false, &mut retry_q, &mut error_q);
    assert_eq!(retry_q.frame_count(), 2);
    assert_eq!(error_q.frame_count(), 1);

    // A success resets the counter: failures retry again.
    b.on_send_status(&DEV1, true, &mut retry_q, &mut error_q);
    b.on_send_status(&DEV1, false, &mut retry_q, &mut error_q);
    assert_eq!(retry_q.frame_count(), 3);
    assert_eq!(error_q.frame_count(), 1);
}

#[test]
fn broadcast_failure_triggers_nothing() {
    let mut b = bridge(3);
    let mut retry_q = FramedQueue::new(16);
    let mut error_q = FramedQueue::new(16);
    for _ in 0..5 {
        b.on_send_status(&BROADCAST, false, &mut retry_q, &mut error_q);
    }
    assert_eq!(retry_q.frame_count(), 0);
    assert_eq!(error_q.frame_count(), 0);
}

#[test]
fn unknown_address_failure_triggers_nothing() {
    let mut b = bridge(3);
    let mut retry_q = FramedQueue::new(16);
    let mut error_q = FramedQueue::new(16);
    b.on_send_status(&[9, 9, 9, 9, 9, 9], false, &mut retry_q, &mut error_q);
    assert_eq!(retry_q.frame_count(), 0);
    assert_eq!(error_q.frame_count(), 0);
}

#[test]
fn retry_resends_the_last_recorded_packet() {
    let mut b = bridge(3);
    let mut led_q = FramedQueue::new(4);
    let mut retry_q = FramedQueue::new(16);

    b.on_transmit_ok(&vec![0x72, 1, 42], &mut led_q);
    assert_eq!(led_q.pop(), Some(vec![1]));

    retry_q.push(&[1]).unwrap();
    match b.poll_retry(&mut retry_q) {
        CommandOutcome::Transmit { device, addr, data } => {
            assert_eq!(device, 1);
            assert_eq!(addr, DEV1);
            assert_eq!(data, vec![0x72, 1, 42]);
        }
        other => panic!("expected a re-transmission, got {other:?}"),
    }
    assert_eq!(retry_q.frame_count(), 0);
    assert_eq!(b.poll_retry(&mut retry_q), CommandOutcome::Idle);
}

#[test]
fn retry_ignores_the_device_in_the_trigger_frame() {
    // The trigger only signals; the re-send uses whatever was recorded
    // last, even when the trigger names another device.
    let mut b = bridge(3);
    let mut led_q = FramedQueue::new(4);
    let mut retry_q = FramedQueue::new(16);
    b.on_transmit_ok(&vec![0x75, 2], &mut led_q);
    retry_q.push(&[1]).unwrap();
    match b.poll_retry(&mut retry_q) {
        CommandOutcome::Transmit { device, data, .. } => {
            assert_eq!(device, 2);
            assert_eq!(data, vec![0x75, 2]);
        }
        other => panic!("expected a re-transmission, got {other:?}"),
    }
}

#[test]
fn full_indicator_queue_drops_the_trigger() {
    let mut b = bridge(3);
    let mut led_q = FramedQueue::new(1);
    b.on_transmit_ok(&vec![0x72, 1], &mut led_q);
    assert_eq!(led_q.frame_count(), 1);
    // The queue is full now: the second trigger is dropped, not an error.
    b.on_retry_transmit_ok(&mut led_q);
    assert_eq!(led_q.frame_count(), 1);
}

#[test]
fn radio_receive_copies_verbatim_and_reports_overflow() {
    let mut telemetry_q = FramedQueue::new(8);
    assert!(espnow_bridge::bridge::on_radio_receive(
        &[0x4D, 2, 0xAA, 0xBB],
        &mut telemetry_q
    ));
    assert_eq!(telemetry_q.read().unwrap(), vec![0x4D, 2, 0xAA, 0xBB]);
    // 4 of 8 bytes used and the frame unreleased: a 5-byte frame is dropped.
    assert!(!espnow_bridge::bridge::on_radio_receive(
        &[1, 2, 3, 4, 5],
        &mut telemetry_q
    ));
    assert_eq!(telemetry_q.frame_count(), 1);
}
