//! The hint consumer, the record layout and defensive mode.

use morpheus::common::MorpheusHint;
use morpheus::ringbuf::{DefensiveMode, HintConsumer, RingBufStats};
use morpheus::wire::{
    encode_hint, parse_hint, read_u32, read_u64, write_u32, write_u64, ByteOrder, HINT_SIZE,
};

fn record(seq: u64, order: ByteOrder) -> Vec<u8> {
    encode_hint(
        &MorpheusHint { seq, reason: 1, target_tid: 42, deadline_ns: 1_000 },
        order,
    )
}

fn feed(consumer: &mut HintConsumer, seqs: &[u64]) {
    let order = consumer.byte_order();
    for seq in seqs {
        assert_eq!(consumer.process_hint(&record(*seq, order)), 0);
    }
}

#[test]
fn native_byte_order_is_the_machines() {
    let expected = if u32::from_ne_bytes([1, 0, 0, 0]) == 1 {
        ByteOrder::Little
    } else {
        ByteOrder::Big
    };
    assert_eq!(ByteOrder::native(), expected);
    assert_eq!(HintConsumer::new().byte_order(), expected);
    let value = 0x1122_3344_5566_7788u64;
    assert_eq!(read_u64(&value.to_ne_bytes(), 0, ByteOrder::native()), value);
}

#[test]
fn integers_in_both_orders() {
    let bytes = [0x01u8, 0x02, 0x03, 0x04, 0x05, 0x06, 0x07, 0x08, 0x09];
    assert_eq!(read_u32(&bytes, 0, ByteOrder::Little), 0x0403_0201);
    assert_eq!(read_u32(&bytes, 0, ByteOrder::Big), 0x0102_0304);
    assert_eq!(read_u32(&bytes, 5, ByteOrder::Little), 0x0908_0706);
    assert_eq!(read_u64(&bytes, 0, ByteOrder::Little), 0x0807_0605_0403_0201);
    assert_eq!(read_u64(&bytes, 1, ByteOrder::Big), 0x0203_0405_0607_0809);
    assert_eq!(read_u64(&[0xFF; 8], 0, ByteOrder::Big), u64::MAX);
    assert_eq!(read_u32(&[0xFF; 4], 0, ByteOrder::Little), u32::MAX);

    let mut out = vec![0xAAu8];
    write_u32(&mut out, 0x0102_0304, ByteOrder::Little);
    write_u32(&mut out, 0x0102_0304, ByteOrder::Big);
    write_u64(&mut out, 0x0102_0304_0506_0708, ByteOrder::Little);
    write_u64(&mut out, 0x0102_0304_0506_0708, ByteOrder::Big);
    assert_eq!(
        out,
        vec![
            0xAA, 4, 3, 2, 1, 1, 2, 3, 4, 8, 7, 6, 5, 4, 3, 2, 1, 1, 2, 3, 4, 5, 6, 7, 8
        ]
    );
}

#[test]
fn hint_record_layout() {
    assert_eq!(HINT_SIZE, 24);
    let hint = MorpheusHint {
        seq: 0x0102_0304_0506_0708,
        reason: 3,
        target_tid: 0xAABB_CCDD,
        deadline_ns: 99,
    };
    let bytes = encode_hint(&hint, ByteOrder::Little);
    assert_eq!(bytes.len(), 24);
    assert_eq!(bytes[0..8], hint.seq.to_le_bytes());
    assert_eq!(bytes[8..12], 3u32.to_le_bytes());
    assert_eq!(bytes[12..16], 0xAABB_CCDDu32.to_le_bytes());
    assert_eq!(bytes[16..24], 99u64.to_le_bytes());
    assert_eq!(parse_hint(&bytes, ByteOrder::Little), Some(hint));
    assert_ne!(parse_hint(&bytes, ByteOrder::Big), Some(hint));

    let big = encode_hint(&hint, ByteOrder::Big);
    assert_eq!(big[0..8], hint.seq.to_be_bytes());
    assert_eq!(parse_hint(&big, ByteOrder::Big), Some(hint));

    let mut longer = bytes.clone();
    longer.extend_from_slice(&[1, 2, 3]);
    assert_eq!(parse_hint(&longer, ByteOrder::Little), Some(hint));
    assert_eq!(parse_hint(&bytes[..23], ByteOrder::Little), None);
    assert_eq!(parse_hint(&[], ByteOrder::Little), None);
}

#[test]
fn gaps_are_counted_as_drops() {
    let mut consumer = HintConsumer::with_byte_order(ByteOrder::Little);
    let before = consumer.stats().hints_dropped;
    feed(&mut consumer, &[1, 2, 4, 5, 7]);
    assert_eq!(consumer.stats().hints_dropped - before, 2);
    assert_eq!(consumer.stats().hints_received, 5);
    assert_eq!(consumer.stats().defensive_triggers, 1);
    assert_eq!(consumer.last_seq(), 7);
    assert!(consumer.is_defensive());
    assert!(consumer.defensive_flag());
}

#[test]
fn scenario_defensive_trigger_in_the_consumer() {
    let mut consumer = HintConsumer::with_byte_order(ByteOrder::Big);
    feed(&mut consumer, &[1, 2]);
    assert!(!consumer.is_defensive());
    assert_eq!(
        *consumer.stats(),
        RingBufStats { hints_received: 2, hints_dropped: 0, defensive_triggers: 0 }
    );
    feed(&mut consumer, &[4]);
    assert_eq!(consumer.stats().hints_dropped, 1);
    assert!(consumer.is_defensive());
}

#[test]
fn first_record_opens_no_gap() {
    let mut consumer = HintConsumer::with_byte_order(ByteOrder::Little);
    feed(&mut consumer, &[500]);
    assert_eq!(consumer.stats().hints_dropped, 0);
    assert!(!consumer.is_defensive());
    feed(&mut consumer, &[501, 501, 3]);
    assert_eq!(consumer.stats().hints_dropped, 0);
    assert_eq!(consumer.last_seq(), 3);
    feed(&mut consumer, &[13]);
    assert_eq!(consumer.stats().hints_dropped, 9);
    assert_eq!(consumer.stats().hints_received, 5);
}

#[test]
fn largest_sequence_numbers() {
    let mut consumer = HintConsumer::with_byte_order(ByteOrder::Little);
    feed(&mut consumer, &[u64::MAX]);
    feed(&mut consumer, &[1]);
    assert_eq!(consumer.stats().hints_dropped, 0);
    feed(&mut consumer, &[u64::MAX]);
    assert_eq!(consumer.stats().hints_dropped, u64::MAX - 2);
    feed(&mut consumer, &[1, 5]);
    assert_eq!(consumer.stats().hints_dropped, 0);
}

#[test]
fn truncated_records_are_discarded() {
    let mut consumer = HintConsumer::with_byte_order(ByteOrder::Little);
    feed(&mut consumer, &[1]);
    let short = record(9, ByteOrder::Little);
    assert_eq!(consumer.process_hint(&short[..23]), 0);
    assert_eq!(consumer.process_hint(&[]), 0);
    assert_eq!(consumer.stats().hints_received, 1);
    assert_eq!(consumer.last_seq(), 1);
    assert!(!consumer.is_defensive());
}

#[test]
fn triggers_count_entries_not_gaps() {
    let mut consumer = HintConsumer::with_byte_order(ByteOrder::Little);
    feed(&mut consumer, &[1, 3, 5, 7]);
    assert_eq!(consumer.stats().hints_dropped, 3);
    assert_eq!(consumer.stats().defensive_triggers, 1);
    consumer.reset_defensive();
    assert!(!consumer.is_defensive());
    consumer.reset_defensive();
    assert!(!consumer.is_defensive());
    feed(&mut consumer, &[8]);
    assert!(!consumer.is_defensive());
    feed(&mut consumer, &[10]);
    assert!(consumer.is_defensive());
    assert_eq!(consumer.stats().defensive_triggers, 2);
}

#[test]
fn a_lost_ring_keeps_the_consumer_defensive() {
    let mut consumer = HintConsumer::with_byte_order(ByteOrder::Little);
    consumer.ring_failed();
    assert!(consumer.is_defensive());
    assert_eq!(consumer.stats().defensive_triggers, 1);
    consumer.reset_defensive();
    assert!(consumer.is_defensive());
    consumer.ring_failed();
    assert_eq!(consumer.stats().defensive_triggers, 1);
}

#[test]
fn missing_before_a_record() {
    let mut consumer = HintConsumer::with_byte_order(ByteOrder::Little);
    let hint = |seq| MorpheusHint { seq, reason: 1, target_tid: 0, deadline_ns: 0 };
    assert_eq!(consumer.missing_before(&hint(10)), 0);
    consumer.record(&hint(10));
    assert_eq!(consumer.missing_before(&hint(11)), 0);
    assert_eq!(consumer.missing_before(&hint(12)), 1);
    assert_eq!(consumer.missing_before(&hint(20)), 9);
    assert_eq!(consumer.missing_before(&hint(10)), 0);
    assert_eq!(consumer.missing_before(&hint(2)), 0);
}

#[test]
fn defensive_mode_hands_out_its_yields() {
    let mut mode = DefensiveMode::new(3);
    assert!(!mode.is_active());
    assert!(!mode.should_yield());
    assert_eq!(mode.default_yields(), 3);
    mode.enter();
    assert!(mode.is_active());
    assert_eq!(mode.yields_remaining(), 3);
    assert!(mode.should_yield());
    assert_eq!(mode.yields_remaining(), 2);
    assert!(mode.should_yield());
    assert!(mode.is_active());
    assert!(mode.should_yield());
    assert!(!mode.is_active());
    assert_eq!(mode.yields_remaining(), 0);
    assert!(!mode.should_yield());
}

#[test]
fn defensive_reentry_restores_the_count() {
    let mut mode = DefensiveMode::new(100);
    mode.enter();
    for _ in 0..40 {
        assert!(mode.should_yield());
    }
    assert_eq!(mode.yields_remaining(), 60);
    mode.exit();
    assert!(!mode.is_active());
    assert_eq!(mode.yields_remaining(), 0);
    assert!(!mode.should_yield());
    mode.enter();
    assert_eq!(mode.yields_remaining(), 100);
    for _ in 0..100 {
        assert!(mode.should_yield());
    }
    assert!(!mode.should_yield());
}

#[test]
fn defensive_mode_without_yields_yields_once() {
    let mut mode = DefensiveMode::new(0);
    mode.enter();
    assert!(mode.is_active());
    assert!(mode.should_yield());
    assert!(!mode.is_active());
    assert!(!mode.should_yield());
}

#[test]
fn forced_defensive_mode_never_ends() {
    let mut mode = DefensiveMode::default();
    assert_eq!(mode.default_yields(), 100);
    mode.force();
    for _ in 0..500 {
        assert!(mode.should_yield());
    }
    mode.exit();
    assert!(mode.is_active());
    assert!(mode.should_yield());
}

#[test]
fn byte_order_from_the_marker() {
    assert_eq!(ByteOrder::from_marker(1), ByteOrder::Little);
    assert_eq!(ByteOrder::from_marker(256), ByteOrder::Big);
    assert_eq!(ByteOrder::from_marker(0), ByteOrder::Big);
    assert_eq!(ByteOrder::from_marker(u16::MAX), ByteOrder::Big);
    assert_eq!(ByteOrder::from_marker(u16::from_ne_bytes([1, 0])), ByteOrder::native());
    assert_eq!(ByteOrder::from_marker(u16::from_le_bytes([1, 0])), ByteOrder::Little);
    assert_eq!(ByteOrder::from_marker(u16::from_be_bytes([1, 0])), ByteOrder::Big);
}
