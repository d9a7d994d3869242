use chrono::TimeZone;
use fingertip::aggregator::{Aggregator, KeyClassSummary};
use fingertip::event::KeyEvent;
use fingertip::theme::{
    determine_theme_from_behavior, extract_theme_word, infer_mood_from_behavior, is_printable_ascii,
    BehaviorDims,
};
use std::collections::HashMap;

fn ev(code: u32) -> KeyEvent {
    KeyEvent::now(code, "s".into(), 0)
}

fn at(code: u32, ms: i64) -> KeyEvent {
    KeyEvent { key_code: code, timestamp_ms: ms, session_id: "s".into(), modifiers: 0 }
}

#[test]
fn counts_keys_correctly() {
    let events = vec![ev(65), ev(65), ev(66), ev(65), ev(67)];
    let stats = Aggregator::count_by_key(&events);
    assert_eq!(stats.get(&65), Some(&3));
    assert_eq!(stats.get(&66), Some(&1));
    assert_eq!(stats.get(&67), Some(&1));
}

#[test]
fn top_n_returns_sorted_desc() {
    let mut counts = HashMap::new();
    counts.insert(1u32, 5);
    counts.insert(2u32, 10);
    counts.insert(3u32, 3);
    counts.insert(4u32, 7);
    let top = Aggregator::top_n(&counts, 2);
    assert_eq!(top, vec![(2, 10), (4, 7)]);
}

#[test]
fn top_n_with_more_room_than_keys_lists_all() {
    let mut counts = HashMap::new();
    counts.insert(9u32, 1);
    counts.insert(8u32, 4);
    assert_eq!(Aggregator::top_n(&counts, 5), vec![(8, 4), (9, 1)]);
    assert!(Aggregator::top_n(&counts, 0).is_empty());
}

#[test]
fn hourly_buckets_distributes_correctly() {
    let e1 = at(65, chrono::Utc.with_ymd_and_hms(2026, 7, 16, 9, 0, 0).unwrap().timestamp_millis());
    let e2 = at(66, chrono::Utc.with_ymd_and_hms(2026, 7, 16, 14, 0, 0).unwrap().timestamp_millis());
    let buckets = Aggregator::hourly_buckets(&[e1, e2]);
    assert_eq!(buckets[9], 1);
    assert_eq!(buckets[14], 1);
    assert_eq!(buckets[3], 0);
}

#[test]
fn count_meta_detects_pauses_deletes_repeats() {
    let mut events = vec![ev(65), ev(65)];
    events[1].timestamp_ms = events[0].timestamp_ms + 5000;
    events.push(ev(8));
    let (pauses, deletes, repeats) = Aggregator::count_meta(&events, 2000);
    assert_eq!(pauses, 1);
    assert_eq!(deletes, 1);
    assert_eq!(repeats, 1);
}

#[test]
fn aggregate_produces_complete_daily_stats() {
    let events = vec![ev(65), ev(65), ev(66), ev(67), ev(8)];
    let stats = Aggregator::aggregate_counts("2026-07-16".into(), &events);
    assert_eq!(stats.date, "2026-07-16");
    assert_eq!(stats.total_keys, 5);
    assert!(!stats.top_keys.is_empty());
    assert_eq!(stats.deletes, 1);
}

#[test]
fn compute_metrics_activity_hours_counts_non_zero_buckets() {
    let mut hourly = [0usize; 24];
    hourly[3] = 5;
    hourly[7] = 10;
    hourly[20] = 2;
    let events: Vec<KeyEvent> = vec![];
    let m = Aggregator::metric_counts(&events, &hourly);
    assert_eq!(m.active_hours, 3);
}

#[test]
fn metric_counts_counts_pauses_and_intervals() {
    let mut events: Vec<KeyEvent> = vec![];
    for i in 0..30 {
        events.push(at(65, i as i64 * 100));
    }
    for &i in &[5, 10, 15, 20, 25] {
        events[i].timestamp_ms += 3000;
    }
    let m = Aggregator::metric_counts(&events, &[0; 24]);
    assert_eq!(m.pauses_over_2s, 5);
    assert_eq!(m.total_intervals, 29);
    assert_eq!(m.total_keys, 30);
    let one = Aggregator::metric_counts(&[ev(65)], &[0; 24]);
    assert_eq!(one.total_intervals, 0);
}

#[test]
fn aggregate_picks_first_active_ms_from_events() {
    let mut events: Vec<KeyEvent> = vec![];
    for i in 0..5 {
        events.push(at(65, 1_753_401_600_000 + (i as i64) * 100));
    }
    events.reverse();
    let stats = Aggregator::aggregate_counts("2026-07-29".into(), &events);
    assert_eq!(stats.first_active_ms, 1_753_401_600_000);
}

#[test]
fn aggregate_first_active_ms_zero_for_empty_events() {
    let events: Vec<KeyEvent> = vec![];
    let stats = Aggregator::aggregate_counts("2026-07-29".into(), &events);
    assert_eq!(stats.first_active_ms, 0);
}

#[test]
fn classify_keys_game_only() {
    let events = vec![
        KeyEvent::now(87, "w".into(), 0),
        KeyEvent::now(65, "a".into(), 0),
        KeyEvent::now(83, "s".into(), 0),
        KeyEvent::now(68, "d".into(), 0),
        KeyEvent::now(32, "space".into(), 0),
        KeyEvent::now(13, "enter".into(), 0),
    ];
    let s = Aggregator::classify_keys(&events);
    assert_eq!(s, KeyClassSummary { game_keys: 6, text_keys: 0, modifier_keys: 0 });
}

#[test]
fn classify_keys_text_only() {
    let events = vec![
        KeyEvent::now(66, "b".into(), 0),
        KeyEvent::now(67, "c".into(), 0),
        KeyEvent::now(49, "1".into(), 0),
    ];
    let s = Aggregator::classify_keys(&events);
    assert_eq!(s, KeyClassSummary { game_keys: 0, text_keys: 3, modifier_keys: 0 });
}

#[test]
fn classify_keys_modifier_only() {
    let events = vec![
        KeyEvent::now(8, "bs".into(), 0),
        KeyEvent::now(46, "del".into(), 0),
        KeyEvent::now(16, "shift".into(), 0),
        KeyEvent::now(17, "ctrl".into(), 0),
        KeyEvent::now(18, "alt".into(), 0),
    ];
    let s = Aggregator::classify_keys(&events);
    assert_eq!(s, KeyClassSummary { game_keys: 0, text_keys: 0, modifier_keys: 5 });
}

#[test]
fn classify_keys_wins_over_text() {
    let events = vec![
        KeyEvent::now(87, "w".into(), 0),
        KeyEvent::now(65, "a".into(), 0),
        KeyEvent::now(83, "s".into(), 0),
        KeyEvent::now(68, "d".into(), 0),
        KeyEvent::now(66, "b".into(), 0),
    ];
    let s = Aggregator::classify_keys(&events);
    assert_eq!(s, KeyClassSummary { game_keys: 4, text_keys: 1, modifier_keys: 0 });
}

#[test]
fn classify_keys_empty() {
    let events: Vec<KeyEvent> = vec![];
    let s = Aggregator::classify_keys(&events);
    assert_eq!(s.game_keys + s.text_keys + s.modifier_keys, 0);
}

#[test]
fn classify_keys_ignores_unknown_codes() {
    let events = vec![
        KeyEvent::now(112, "f1".into(), 0),
        KeyEvent::now(37, "left".into(), 0),
        KeyEvent::now(38, "up".into(), 0),
    ];
    let s = Aggregator::classify_keys(&events);
    assert_eq!(s, KeyClassSummary::default());
}

#[test]
fn special_keys_are_counted_separately() {
    let events = vec![ev(8), ev(46), ev(46), ev(13), ev(32), ev(32), ev(32), ev(87), ev(65), ev(90)];
    let c = Aggregator::count_special_keys(&events);
    assert_eq!(c.backspace_count, 1);
    assert_eq!(c.delete_count, 2);
    assert_eq!(c.enter_count, 1);
    assert_eq!(c.space_count, 3);
    assert_eq!(c.wasd_count, 2);
    assert_eq!(c.total_events, 10);
}

#[test]
fn top_key_with_count_returns_readable_summary() {
    let mut counts = HashMap::new();
    counts.insert(b'h' as u32, 10);
    counts.insert(b'e' as u32, 8);
    counts.insert(b'l' as u32, 5);
    counts.insert(b'o' as u32, 5);
    let word = extract_theme_word(&counts);
    assert_eq!(word, "h");
}

#[test]
fn filters_non_printable_keys() {
    let mut counts = HashMap::new();
    counts.insert(16u32, 100);
    counts.insert(b'a' as u32, 5);
    counts.insert(b'b' as u32, 3);
    let word = extract_theme_word(&counts);
    assert_eq!(word, "a");
    assert!(!word.contains(char::from(16)));
}

#[test]
fn empty_counts_returns_empty_string() {
    let counts: HashMap<u32, usize> = HashMap::new();
    let word = extract_theme_word(&counts);
    assert_eq!(word, "");
}

#[test]
fn only_non_printable_returns_empty() {
    let mut counts = HashMap::new();
    counts.insert(16u32, 100);
    counts.insert(17u32, 50);
    let word = extract_theme_word(&counts);
    assert_eq!(word, "");
}

#[test]
fn tie_breaks_by_smaller_key_code() {
    let mut counts = HashMap::new();
    counts.insert(b'z' as u32, 5);
    counts.insert(b'a' as u32, 5);
    let word = extract_theme_word(&counts);
    assert_eq!(word, "a");
}

#[test]
fn high_freq_ina_no_longer_returns_ina_concat() {
    let mut counts = HashMap::new();
    counts.insert(b'I' as u32, 120);
    counts.insert(b'N' as u32, 98);
    counts.insert(b'A' as u32, 85);
    let word = extract_theme_word(&counts);
    assert_ne!(word, "INA");
    assert_eq!(word, "I");
}

#[test]
fn printable_ascii_range_is_32_to_126() {
    assert!(is_printable_ascii(32));
    assert!(is_printable_ascii(126));
    assert!(!is_printable_ascii(31));
    assert!(!is_printable_ascii(127));
}

fn dims(fast: bool, smooth: bool, fluent: bool, active: bool) -> BehaviorDims {
    BehaviorDims { fast, smooth, fluent, active }
}

#[test]
fn behavior_theme_follows_rule_precedence() {
    // 3 deletes of 25 events = 12% -> REWRITE, even with many Enters.
    let mut events: Vec<KeyEvent> = (0..19).map(|_| ev(13)).collect();
    events.extend((0..3).map(|_| ev(8)));
    events.extend((0..3).map(|_| ev(66)));
    assert_eq!(determine_theme_from_behavior(&events, dims(false, false, false, false)), "REWRITE");
    // 2 deletes of 25 = 8% (< 12%), Enter 3 of 25 = 12% > 8% -> BREAK
    let mut events: Vec<KeyEvent> = (0..2).map(|_| ev(8)).collect();
    events.extend((0..3).map(|_| ev(13)));
    events.extend((0..20).map(|_| ev(66)));
    assert_eq!(determine_theme_from_behavior(&events, dims(true, true, true, true)), "BREAK");
    // Space 31% -> PAUSE
    let mut events: Vec<KeyEvent> = (0..31).map(|_| ev(32)).collect();
    events.extend((0..69).map(|_| ev(66)));
    assert_eq!(determine_theme_from_behavior(&events, dims(true, true, true, true)), "PAUSE");
    // WASD 26% -> CONTROL
    let mut events: Vec<KeyEvent> = (0..26).map(|_| ev(87)).collect();
    events.extend((0..74).map(|_| ev(66)));
    assert_eq!(determine_theme_from_behavior(&events, dims(true, true, true, true)), "CONTROL");
}

#[test]
fn behavior_theme_uses_dimension_table_otherwise() {
    let events: Vec<KeyEvent> = (0..10).map(|_| ev(66)).collect();
    assert_eq!(determine_theme_from_behavior(&events, dims(true, true, true, true)), "Flow");
    assert_eq!(determine_theme_from_behavior(&events, dims(false, false, false, false)), "Stillness");
    assert_eq!(determine_theme_from_behavior(&[], dims(false, true, false, true)), "Trek");
}

#[test]
fn mood_follows_dimension_table() {
    assert_eq!(infer_mood_from_behavior(dims(true, true, true, true)), "energetic");
    assert_eq!(infer_mood_from_behavior(dims(false, true, true, true)), "calm");
    assert_eq!(infer_mood_from_behavior(dims(false, false, false, false)), "melancholy");
}

#[test]
fn aggregate_100k_events_under_5s() {
    let events: Vec<KeyEvent> = (0..100_000).map(|i| KeyEvent::now(i as u32, "s".into(), 0)).collect();
    let start = std::time::Instant::now();
    let _counts = Aggregator::count_by_key(&events);
    let elapsed = start.elapsed();
    assert!(elapsed.as_secs() < 5, "10 万事件聚合耗时 {} 秒，超出 5 秒基线", elapsed.as_secs_f64());
}

#[test]
fn hourly_buckets_100k_events_under_3s() {
    let events: Vec<KeyEvent> = (0..100_000)
        .map(|i| {
            let mut e = KeyEvent::now(0, "s".into(), 0);
            e.timestamp_ms = 1_700_000_000_000 + (i as i64 % 24) * 3_600_000;
            e
        })
        .collect();
    let start = std::time::Instant::now();
    let buckets = Aggregator::hourly_buckets(&events);
    let elapsed = start.elapsed();
    assert!(elapsed.as_secs() < 3, "10 万事件时段分桶耗时 {:?}，超出 3 秒基线", elapsed);
    assert_eq!(buckets.iter().sum::<usize>(), 100_000);
}

#[test]
fn key_counts_add_up_to_event_total() {
    let events = vec![ev(65), ev(65), ev(66), ev(8), ev(65), ev(67), ev(8)];
    let counts = Aggregator::count_by_key(&events);
    let total: usize = counts.values().sum();
    assert_eq!(total, 7);
}

#[test]
fn hourly_buckets_add_up_to_event_total() {
    let base = 1_753_401_600_000i64; // 2025-07-25 00:00:00 UTC
    let events = vec![
        at(65, base),
        at(66, base + 3_600_000),
        at(67, base + 5 * 3_600_000 + 1),
        at(68, base + 23 * 3_600_000 + 59_999),
        at(69, base + 86_400_000),
    ];
    let buckets = Aggregator::hourly_buckets(&events);
    let total: usize = buckets.iter().sum();
    assert_eq!(total, 5);
    assert_eq!(buckets[0], 2);
    assert_eq!(buckets[23], 1);
}

#[test]
fn classify_keys_ignores_event_order() {
    let codes = [87u32, 66, 8, 49, 13, 90, 91, 65, 120];
    let forward: Vec<KeyEvent> = codes.iter().map(|&c| ev(c)).collect();
    let backward: Vec<KeyEvent> = codes.iter().rev().map(|&c| ev(c)).collect();
    let a = Aggregator::classify_keys(&forward);
    let b = Aggregator::classify_keys(&backward);
    assert_eq!(a, b);
    assert_eq!(a, KeyClassSummary { game_keys: 3, text_keys: 3, modifier_keys: 2 });
}
