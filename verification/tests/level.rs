use ccb::{Color, Level};

fn levels() -> [Level; 5] {
    [Level::Trace, Level::Debug, Level::Info, Level::Warn, Level::Error]
}

#[test]
fn test_level_ordering() {
    assert!(Level::Trace < Level::Debug);
    assert!(Level::Debug < Level::Info);
    assert!(Level::Info < Level::Warn);
    assert!(Level::Warn < Level::Error);
}

#[test]
fn test_level_strings() {
    assert_eq!(Level::Trace.as_str(), "TRCE");
    assert_eq!(Level::Debug.as_str(), "DEBG");
    assert_eq!(Level::Info.as_str(), "INFO");
    assert_eq!(Level::Warn.as_str(), "WARN");
    assert_eq!(Level::Error.as_str(), "ERRO");
}

#[test]
fn test_level_colors() {
    assert_eq!(Level::Trace.color(), Color::Cyan);
    assert_eq!(Level::Debug.color(), Color::Blue);
    assert_eq!(Level::Info.color(), Color::Green);
    assert_eq!(Level::Warn.color(), Color::Yellow);
    assert_eq!(Level::Error.color(), Color::Red);
}

#[test]
fn test_level_display() {
    assert_eq!(Level::Trace.to_string(), "TRCE");
    assert_eq!(Level::Debug.to_string(), "DEBG");
    assert_eq!(Level::Info.to_string(), "INFO");
    assert_eq!(Level::Warn.to_string(), "WARN");
    assert_eq!(Level::Error.to_string(), "ERRO");
}

#[test]
fn level_order_is_strict_and_total_over_all_pairs() {
    for (i, a) in levels().iter().enumerate() {
        for (j, b) in levels().iter().enumerate() {
            assert_eq!(a < b, i < j);
            assert_eq!(a > b, i > j);
            assert_eq!(a == b, i == j);
            assert_eq!(a <= b, i <= j);
            assert_eq!(a.partial_cmp(b), i.partial_cmp(&j));
            assert_eq!(a.cmp(b), i.cmp(&j));
        }
    }
}

#[test]
fn level_ranks_count_from_zero() {
    for (i, level) in levels().iter().enumerate() {
        assert_eq!(level.rank() as usize, i);
    }
}

#[test]
fn labels_have_four_characters_and_differ() {
    for a in levels().iter() {
        assert_eq!(a.as_str().chars().count(), 4);
        assert_eq!(a.as_str(), a.as_str());
        for b in levels().iter() {
            if a != b {
                assert_ne!(a.as_str(), b.as_str());
                assert_ne!(a.color(), b.color());
            }
        }
    }
}
