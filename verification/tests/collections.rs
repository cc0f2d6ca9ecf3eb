//! The map keyed by names, spans of time, and the small text functions.

use agent_precommit::engine::duration::Duration;
use agent_precommit::engine::runner::parse_duration;
use agent_precommit::namemap::NameMap;
use agent_precommit::text::{blank, has_more_digits_than, push_decimal};

#[test]
fn a_new_map_is_empty() {
    let map: NameMap<String> = NameMap::new();
    assert!(map.is_empty());
    assert_eq!(map.len(), 0);
    assert!(!map.contains_key(""));
    assert_eq!(map.get("a"), None);
}

#[test]
fn insert_binds_and_rebinds_in_place() {
    let mut map: NameMap<String> = NameMap::new();
    assert_eq!(map.insert("b".to_string(), "1".to_string()), None);
    assert_eq!(map.insert("a".to_string(), "2".to_string()), None);
    assert_eq!(map.insert("c".to_string(), "3".to_string()), None);
    assert_eq!(map.insert("a".to_string(), "4".to_string()), Some("2".to_string()));
    assert_eq!(map.len(), 3);
    assert!(!map.is_empty());
    assert_eq!(map.get("a"), Some(&"4".to_string()));
    assert_eq!(map.get("b"), Some(&"1".to_string()));
    assert!(map.contains_key("c"));
    assert!(!map.contains_key("d"));
    assert!(!map.contains_key("A"));
    assert_eq!(
        (0..map.len()).map(|i| map.name_at(i)).collect::<Vec<_>>(),
        vec!["b", "a", "c"]
    );
    assert_eq!(
        (0..map.len()).map(|i| map.value_at(i).as_str()).collect::<Vec<_>>(),
        vec!["1", "4", "3"]
    );
}

#[test]
fn extend_lets_the_later_binding_win() {
    let mut map: NameMap<String> = NameMap::new();
    map.insert("x".to_string(), "old".to_string());
    map.insert("y".to_string(), "kept".to_string());
    let mut more: NameMap<String> = NameMap::new();
    more.insert("z".to_string(), "new".to_string());
    more.insert("x".to_string(), "won".to_string());
    map.extend(more);
    assert_eq!(map.len(), 3);
    assert_eq!(map.get("x"), Some(&"won".to_string()));
    assert_eq!(map.get("y"), Some(&"kept".to_string()));
    assert_eq!(map.get("z"), Some(&"new".to_string()));
    assert_eq!(map.name_at(0), "x");
    assert_eq!(map.name_at(2), "z");
    map.extend(NameMap::new());
    assert_eq!(map.len(), 3);
}

#[test]
fn a_copy_has_the_same_bindings_and_a_life_of_its_own() {
    let mut map: NameMap<String> = NameMap::new();
    map.insert("k".to_string(), "v".to_string());
    let mut copy = map.clone();
    copy.insert("k".to_string(), "w".to_string());
    copy.insert("l".to_string(), "x".to_string());
    assert_eq!(map.get("k"), Some(&"v".to_string()));
    assert_eq!(map.len(), 1);
    assert_eq!(copy.get("k"), Some(&"w".to_string()));
    assert_eq!(map.duplicate().get("k"), Some(&"v".to_string()));
}

#[test]
fn spans_of_time() {
    assert_eq!(Duration::zero(), Duration { secs: 0, nanos: 0 });
    assert!(Duration::zero().is_zero());
    assert!(!Duration::from_millis(1).is_zero());
    assert_eq!(Duration::from_secs(90).as_secs(), 90);
    assert_eq!(Duration::from_secs(90).subsec_nanos(), 0);
    assert_eq!(Duration::from_millis(1500), Duration { secs: 1, nanos: 500_000_000 });
    assert_eq!(Duration::from_millis(1500).as_millis(), 1500);
    assert_eq!(Duration::from_millis(999).as_secs(), 0);
    assert_eq!(Duration::from_millis(u64::MAX).as_millis(), u128::from(u64::MAX));
    assert_eq!(Duration::from_secs(u64::MAX).as_millis(), u128::from(u64::MAX) * 1000);
    assert_eq!(Duration::new(1, 2), Some(Duration { secs: 1, nanos: 2 }));
    assert_eq!(
        Duration::new(1, 2_500_000_000),
        Some(Duration { secs: 3, nanos: 500_000_000 })
    );
    assert_eq!(Duration::new(u64::MAX, 999_999_999).map(|d| d.as_secs()), Some(u64::MAX));
    assert_eq!(Duration::new(u64::MAX, 1_000_000_000), None);
    assert_eq!(Duration::new(u64::MAX - 3, u32::MAX), None);
}

#[test]
fn spans_are_read_as_humantime_reads_them() {
    assert_eq!(Duration::parse("30s"), Some(Duration::from_secs(30)));
    assert_eq!(Duration::parse("2h 37min"), Some(Duration::from_secs(9420)));
    assert_eq!(Duration::parse("32ms"), Some(Duration::from_millis(32)));
    assert_eq!(
        Duration::parse("4.2s"),
        Some(Duration { secs: 4, nanos: 200_000_000 })
    );
    assert_eq!(Duration::parse("100ms"), Some(Duration::from_millis(100)));
    assert_eq!(Duration::parse("0"), Some(Duration::zero()));
    assert_eq!(Duration::parse("1500ms"), Some(Duration { secs: 1, nanos: 500_000_000 }));
    assert_eq!(Duration::parse("30"), None);
    assert_eq!(Duration::parse("s"), None);
    assert_eq!(Duration::parse("30 parsecs"), None);
    assert_eq!(parse_duration("1day"), Some(Duration::from_secs(86_400)));
}

#[test]
fn texts_of_eleven_digits_at_most_are_read() {
    assert_eq!(
        Duration::parse("99999999999s"),
        Some(Duration::from_secs(99_999_999_999))
    );
    assert_eq!(
        Duration::read("99999999999s"),
        Some(Some(Duration::from_secs(99_999_999_999)))
    );
    assert_eq!(Duration::read("30s"), Some(Some(Duration::from_secs(30))));
    assert_eq!(Duration::read("soon"), Some(None));
    assert_eq!(Duration::read(""), Some(None));
    assert_eq!(Duration::read("1h 1m 1s 1ms 1us 1ns 11d 111w"), Some(Some(Duration {
        secs: 3600 + 60 + 1 + 11 * 86_400 + 111 * 604_800,
        nanos: 1_001_001,
    })));
}

#[test]
fn texts_of_more_than_eleven_digits_are_left_to_the_caller() {
    // `None` says that nothing was read, not that the text is no span.
    assert_eq!(Duration::read("000000000030s"), None);
    assert_eq!(Duration::read("100000000000s"), None);
    assert_eq!(Duration::read("1h 30m 15s 500ms 250us 100ns"), None);
    assert_eq!(Duration::read("18446744073709551615s 1000000000ns"), None);
    assert_eq!(Duration::read("123456789012 parsecs"), None);
}

#[test]
fn digits_are_counted_up_to_a_limit() {
    assert!(!has_more_digits_than("", 0));
    assert!(has_more_digits_than("7", 0));
    assert!(!has_more_digits_than("a1b2c3", 3));
    assert!(has_more_digits_than("a1b2c3", 2));
    assert!(!has_more_digits_than("\u{661}\u{662}\u{663}", 0));
    assert!(!has_more_digits_than("12345678901", 11));
    assert!(has_more_digits_than("123456789012", 11));
}

#[test]
fn blank_texts_hold_white_space_only() {
    assert!(blank(""));
    assert!(blank(" \t\r\n"));
    assert!(blank("\u{2028}\u{3000}"));
    assert!(!blank(" . "));
    assert!(!blank("\u{200b}"));
}

#[test]
fn numbers_are_written_in_decimal() {
    for (n, text) in [
        (0usize, "0"),
        (7, "7"),
        (10, "10"),
        (99, "99"),
        (100, "100"),
        (1234567890, "1234567890"),
        (usize::MAX, &usize::MAX.to_string()),
    ] {
        let mut out = "n=".to_string();
        push_decimal(&mut out, n);
        assert_eq!(out, format!("n={text}"));
    }
}
