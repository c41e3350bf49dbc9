use geyser_bridge::format::{BlockMetaUpdate, TransactionInfo, TransactionUpdate};
use geyser_bridge::json::JsonValue;
use geyser_bridge::pipeline::{
    classify_update, format_delta, format_slot, format_slot_yellow, process_messages,
    should_sample, watermark_deltas, watermarks_complete,
    worker_handle, DispatchAction, MessageQueue, ProcessingMessage,
    StreamDispatcher, StreamEvent, UpdateEnvelope, WatermarkSample, WorkerAction, CHANNEL_SIZE,
};

fn meta(slot: u64, hash: &str) -> BlockMetaUpdate {
    BlockMetaUpdate {
        slot,
        blockhash: hash.to_string(),
        rewards: None,
        block_time: None,
        block_height: None,
        parent_slot: slot.saturating_sub(1),
        parent_blockhash: "parent".to_string(),
        executed_transaction_count: 0,
        entries_count: 0,
    }
}

fn tx(slot: u64, sig: u8) -> TransactionUpdate {
    TransactionUpdate {
        transaction: Some(TransactionInfo {
            signature: vec![sig],
            encoded: Some(JsonValue::Object(Vec::new())),
        }),
        slot,
    }
}

#[test]
fn queue_suspends_producer_when_full_and_drops_nothing() {
    let mut q = MessageQueue::new(2);
    assert!(q.try_enqueue(ProcessingMessage::BlockMetadata(meta(1, "a"))));
    assert!(q.try_enqueue(ProcessingMessage::BlockMetadata(meta(2, "b"))));
    // the queue is full: the third offer is refused, not dropped silently
    assert!(q.is_full());
    assert!(!q.try_enqueue(ProcessingMessage::BlockMetadata(meta(3, "c"))));
    assert_eq!(q.len(), 2);
    // the consumer frees capacity; the producer's retry now succeeds
    let first = q.dequeue().unwrap();
    match first {
        ProcessingMessage::BlockMetadata(m) => assert_eq!(m.slot, 1),
        other => panic!("expected block metadata, got {:?}", other),
    }
    assert!(q.try_enqueue(ProcessingMessage::BlockMetadata(meta(3, "c"))));
    assert_eq!(q.len(), 2);
}

#[test]
fn queue_is_strict_fifo() {
    let mut q = MessageQueue::new(CHANNEL_SIZE);
    for i in 0..5u64 {
        assert!(q.try_enqueue(ProcessingMessage::Transaction(tx(i, i as u8))));
    }
    for i in 0..5u64 {
        match q.dequeue().unwrap() {
            ProcessingMessage::Transaction(u) => assert_eq!(u.slot, i),
            other => panic!("expected transaction, got {:?}", other),
        }
    }
    assert!(q.dequeue().is_none());
}

#[test]
fn classify_forwards_only_consumed_kinds() {
    match classify_update(UpdateEnvelope::Transaction(tx(7, 1))) {
        Some(ProcessingMessage::Transaction(u)) => assert_eq!(u.slot, 7),
        other => panic!("expected a transaction message, got {:?}", other),
    }
    match classify_update(UpdateEnvelope::BlockMeta(meta(8, "h"))) {
        Some(ProcessingMessage::BlockMetadata(m)) => assert_eq!(m.slot, 8),
        other => panic!("expected a block-meta message, got {:?}", other),
    }
    assert_eq!(classify_update(UpdateEnvelope::Ping), None);
    assert_eq!(classify_update(UpdateEnvelope::Pong), None);
    assert_eq!(classify_update(UpdateEnvelope::Entry), None);
    assert_eq!(classify_update(UpdateEnvelope::Block), None);
    assert_eq!(classify_update(UpdateEnvelope::TransactionStatus), None);
}

#[test]
fn dispatcher_runs_drains_stops() {
    let mut d = StreamDispatcher::new();
    assert_eq!(
        d.on_event(StreamEvent::TransportError),
        DispatchAction::LogAndContinue
    );
    match d.on_event(StreamEvent::Item(UpdateEnvelope::BlockMeta(meta(1, "x")))) {
        DispatchAction::Forward(ProcessingMessage::BlockMetadata(m)) => assert_eq!(m.slot, 1),
        other => panic!("expected a forward, got {:?}", other),
    }
    assert_eq!(
        d.on_event(StreamEvent::Item(UpdateEnvelope::Ping)),
        DispatchAction::Discard
    );
    assert_eq!(d.on_event(StreamEvent::StreamEnd), DispatchAction::BeginShutdown);
    d.finish();
}

#[test]
fn dispatcher_drains_when_consumer_closes() {
    let mut d = StreamDispatcher::new();
    d.on_queue_closed();
    d.finish();
}

#[test]
fn worker_keys_records_by_base58() {
    match worker_handle(ProcessingMessage::Transaction(tx(1, 255))) {
        WorkerAction::Publish(r) => {
            assert_eq!(r.key, bs58::encode(&[255u8]).into_string());
            assert_eq!(r.key, "5Q");
        }
        other => panic!("expected a publish, got {:?}", other),
    }
    match worker_handle(ProcessingMessage::BlockMetadata(meta(2, "abc"))) {
        WorkerAction::Publish(r) => {
            assert_eq!(r.key, bs58::encode("abc".as_bytes()).into_string());
        }
        other => panic!("expected a publish, got {:?}", other),
    }
}

#[test]
fn worker_skips_payloadless_transactions_and_stops_on_sentinel() {
    let empty = ProcessingMessage::Transaction(TransactionUpdate { transaction: None, slot: 1 });
    assert_eq!(worker_handle(empty), WorkerAction::Skip);
    assert_eq!(worker_handle(ProcessingMessage::Shutdown), WorkerAction::Stop);
}

#[test]
fn worker_publishes_empty_record_when_formatting_fails() {
    let broken = ProcessingMessage::Transaction(TransactionUpdate {
        transaction: Some(TransactionInfo { signature: vec![1], encoded: None }),
        slot: 1,
    });
    match worker_handle(broken) {
        WorkerAction::Publish(r) => assert_eq!(r.payload, JsonValue::Object(Vec::new())),
        other => panic!("expected a publish, got {:?}", other),
    }
}

#[test]
fn consumer_processes_nothing_after_shutdown() {
    let msgs = vec![
        ProcessingMessage::BlockMetadata(meta(1, "a")),
        ProcessingMessage::Shutdown,
        ProcessingMessage::BlockMetadata(meta(2, "b")),
        ProcessingMessage::Transaction(tx(3, 3)),
    ];
    let run = process_messages(msgs, &Vec::new());
    assert_eq!(run.consumed, 2);
    assert_eq!(run.attempted.len(), 1);
    assert!(!run.fatal);
    assert_eq!(run.attempted[0].key, bs58::encode("a".as_bytes()).into_string());
}

#[test]
fn publish_failure_is_fatal_and_final() {
    let msgs = vec![
        ProcessingMessage::BlockMetadata(meta(1, "a")),
        ProcessingMessage::BlockMetadata(meta(2, "b")),
        ProcessingMessage::BlockMetadata(meta(3, "c")),
        ProcessingMessage::Shutdown,
    ];
    let outcomes = vec![true, false, true];
    let run = process_messages(msgs, &outcomes);
    // the failed attempt is the second and last; no later message is touched
    assert!(run.fatal);
    assert_eq!(run.attempted.len(), 2);
    assert_eq!(run.consumed, 2);
    assert_eq!(run.attempted[1].key, bs58::encode("b".as_bytes()).into_string());
}

#[test]
fn skipped_messages_cost_no_publish_outcome() {
    let msgs = vec![
        ProcessingMessage::Transaction(TransactionUpdate { transaction: None, slot: 1 }),
        ProcessingMessage::BlockMetadata(meta(2, "b")),
        ProcessingMessage::Shutdown,
    ];
    let run = process_messages(msgs, &vec![true]);
    assert!(!run.fatal);
    assert_eq!(run.attempted.len(), 1);
    assert_eq!(run.consumed, 3);
}

#[test]
fn lag_sampling_window_and_aggregation() {
    assert!(!should_sample(4));
    assert!(should_sample(5));
    assert!(should_sample(6));
    assert!(watermarks_complete(&Some(1), &Some(2), &Some(3)));
    assert!(!watermarks_complete(&None, &Some(2), &Some(3)));
    assert!(!watermarks_complete(&Some(1), &None, &Some(3)));
    assert!(!watermarks_complete(&Some(1), &Some(2), &None));
    let s = WatermarkSample {
        observed_slot: 100,
        processed_slot: 104,
        confirmed_slot: 101,
        finalized_slot: 70,
    };
    assert_eq!(watermark_deltas(&s), (4, 1, -30));
}

#[test]
fn log_line_helpers_color_and_render() {
    assert_eq!(format_slot_yellow(300), "\x1b[33m300\x1b[0m");
    assert_eq!(format_slot(0), "\x1b[36m0\x1b[0m");
    assert_eq!(format_slot(18446744073709551615), "\x1b[36m18446744073709551615\x1b[0m");
    assert_eq!(format_delta(-5), "\x1b[32m-5\x1b[0m");
    assert_eq!(format_delta(7), "\x1b[31m7\x1b[0m");
    assert_eq!(format_delta(0), "\x1b[31m0\x1b[0m");
}
