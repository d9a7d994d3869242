use fingertip::event::KeyEvent;
use fingertip::writer::{
    keeps_draining, writer_step, HookWriter, RecvOutcome, SendOutcome, WriterAction, WriterStats,
    BATCH_SIZE, CHANNEL_CAPACITY, FLUSH_INTERVAL_MS,
};
use std::sync::mpsc::sync_channel;
use std::sync::Arc;

fn ev(code: u32) -> KeyEvent {
    KeyEvent { key_code: code, timestamp_ms: 1, session_id: "test".into(), modifiers: 0 }
}

#[test]
fn writer_send_counts_received_and_queues() {
    let (tx, rx) = sync_channel::<KeyEvent>(8);
    let writer = HookWriter::from_parts(tx, Arc::new(WriterStats::new()));
    let w2 = writer.clone();
    assert_eq!(w2.send(ev(65)), SendOutcome::Sent);
    assert_eq!(writer.send(ev(66)), SendOutcome::Sent);
    assert_eq!(writer.send(ev(67)), SendOutcome::Sent);
    assert_eq!(writer.received(), 3);
    assert_eq!(writer.dropped(), 0);
    assert_eq!(rx.try_iter().map(|e| e.key_code).collect::<Vec<_>>(), vec![65, 66, 67]);
}

#[test]
fn writer_drops_when_channel_full() {
    let (tx, _rx) = sync_channel::<KeyEvent>(2);
    let writer = HookWriter::from_parts(tx, Arc::new(WriterStats::default()));
    for i in 0..5 {
        writer.send(ev(i));
    }
    assert_eq!(writer.received(), 5);
    assert_eq!(writer.dropped(), 3);
    assert!(writer.received() >= writer.written());
}

#[test]
fn writer_send_does_not_panic_when_receiver_gone() {
    let (tx, rx) = sync_channel::<KeyEvent>(2);
    drop(rx);
    let writer = HookWriter::from_parts(tx, Arc::new(WriterStats::new()));
    assert_eq!(writer.send(ev(1)), SendOutcome::Disconnected);
    assert_eq!(writer.received(), 1);
    assert_eq!(writer.dropped(), 0);
}

#[test]
fn written_counter_accumulates() {
    let stats = Arc::new(WriterStats::new());
    let (tx, _rx) = sync_channel::<KeyEvent>(1);
    let writer = HookWriter::from_parts(tx, stats.clone());
    stats.add_written(50);
    stats.add_written(3);
    assert_eq!(writer.written(), 53);
}

#[test]
fn writer_loop_decisions() {
    assert_eq!(writer_step(BATCH_SIZE, RecvOutcome::Received), WriterAction::Flush);
    assert_eq!(writer_step(BATCH_SIZE - 1, RecvOutcome::Received), WriterAction::Wait);
    assert_eq!(writer_step(0, RecvOutcome::Timeout), WriterAction::Wait);
    assert_eq!(writer_step(3, RecvOutcome::Timeout), WriterAction::Flush);
    assert_eq!(writer_step(3, RecvOutcome::Disconnected), WriterAction::FlushAndStop);
    assert_eq!(writer_step(0, RecvOutcome::Disconnected), WriterAction::Stop);
    assert!(keeps_draining(49));
    assert!(!keeps_draining(50));
    assert_eq!((BATCH_SIZE, FLUSH_INTERVAL_MS, CHANNEL_CAPACITY), (50, 100, 4096));
}
