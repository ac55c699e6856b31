use ccb::{
    plain_text, render_line, Color, Config, FieldMap, Level, LogEntry, Logger, Segment, Style,
    Timestamp, TIMESTAMP_PATTERN,
};

fn stamp() -> Timestamp {
    Timestamp {
        year: 2009,
        month: 11,
        day: 10,
        hour: 15,
        minute: 0,
        second: 0,
        nanosecond: 123_456_789,
    }
}

fn config(use_colors: bool, show_timestamp: bool) -> Config {
    Config { level: Level::Trace, use_colors, show_timestamp }
}

fn shown(segments: &[Segment]) -> Vec<(Style, String)> {
    segments.iter().map(|s| (s.style, s.text.clone())).collect()
}

fn muted() -> Style {
    Style { fg: Some(Color::Rgb(128, 128, 128)), bold: false }
}

fn plain() -> Style {
    Style { fg: None, bold: false }
}

fn label(color: Color) -> Style {
    Style { fg: Some(color), bold: true }
}

#[test]
fn styles_are_what_they_are_named() {
    assert_eq!(Style::plain(), plain());
    assert_eq!(Style::muted(), muted());
    assert_eq!(Style::label(Level::Trace), label(Color::Cyan));
    assert_eq!(Style::label(Level::Debug), label(Color::Blue));
    assert_eq!(Style::label(Level::Info), label(Color::Green));
    assert_eq!(Style::label(Level::Warn), label(Color::Yellow));
    assert_eq!(Style::label(Level::Error), label(Color::Red));
    assert_eq!(Style::muted().applied(true), muted());
    assert_eq!(Style::muted().applied(false), plain());
    assert_eq!(Style::label(Level::Error).applied(false), plain());
}

#[test]
fn render_with_colors_and_time() {
    let logger = Logger::with_config(config(true, true)).with("service", "api");
    let entry = logger.log_at(Level::Warn, "low disk", &[("used", "92%")], stamp()).unwrap();
    let line = logger.render(&entry);
    assert_eq!(
        shown(&line),
        vec![
            (muted(), "2009-11-10 15:00:00.123 ".to_string()),
            (label(Color::Yellow), "WARN ".to_string()),
            (plain(), "low disk".to_string()),
            (muted(), " service=".to_string()),
            (plain(), "api".to_string()),
            (muted(), " used=".to_string()),
            (plain(), "92%".to_string()),
            (plain(), "\n".to_string()),
        ]
    );
    assert_eq!(plain_text(&line), "2009-11-10 15:00:00.123 WARN low disk service=api used=92%\n");
}

#[test]
fn render_without_colors_is_unstyled() {
    let logger = Logger::with_config(config(false, true)).with("service", "api");
    let entry = logger.log_at(Level::Error, "boom", &[], stamp()).unwrap();
    let line = logger.render(&entry);
    assert_eq!(
        shown(&line),
        vec![
            (plain(), "2009-11-10 15:00:00.123 ".to_string()),
            (plain(), "ERRO ".to_string()),
            (plain(), "boom".to_string()),
            (plain(), " service=".to_string()),
            (plain(), "api".to_string()),
            (plain(), "\n".to_string()),
        ]
    );
}

#[test]
fn render_without_time() {
    let logger = Logger::with_config(config(true, false));
    let entry = logger.log_at(Level::Info, "started", &[], stamp()).unwrap();
    let line = logger.render(&entry);
    assert_eq!(
        shown(&line),
        vec![
            (label(Color::Green), "INFO ".to_string()),
            (plain(), "started".to_string()),
            (plain(), "\n".to_string()),
        ]
    );
    assert_eq!(plain_text(&line), "INFO started\n");
}

#[test]
fn render_every_level_label() {
    let logger = Logger::with_config(config(true, false));
    let expected = [
        (Level::Trace, "TRCE ", Color::Cyan),
        (Level::Debug, "DEBG ", Color::Blue),
        (Level::Info, "INFO ", Color::Green),
        (Level::Warn, "WARN ", Color::Yellow),
        (Level::Error, "ERRO ", Color::Red),
    ];
    for (level, text, color) in expected {
        let entry = logger.log_at(level, "", &[], stamp()).unwrap();
        let line = logger.render(&entry);
        assert_eq!(line.len(), 3);
        assert_eq!(line[0].style, label(color));
        assert_eq!(line[0].text, text);
        assert_eq!(line[1].text, "");
    }
}

#[test]
fn render_keeps_the_message_verbatim() {
    let logger = Logger::with_config(config(false, false));
    let message = "tabs\tand \"quotes\" = and\nline feeds \u{1F980}";
    let entry = logger.log_at(Level::Info, message, &[("k=", " v ")], stamp()).unwrap();
    let line = logger.render(&entry);
    assert_eq!(plain_text(&line), format!("INFO {} k=={}\n", message, " v "));
}

#[test]
fn render_formats_the_time_with_the_pattern() {
    assert_eq!(TIMESTAMP_PATTERN, "%Y-%m-%d %H:%M:%S%.3f");
    let logger = Logger::with_config(config(false, true));
    let cases = [
        (
            Timestamp { year: 2024, month: 2, day: 29, hour: 0, minute: 0, second: 0, nanosecond: 0 },
            "2024-02-29 00:00:00.000 ",
        ),
        (
            Timestamp {
                year: 1999,
                month: 12,
                day: 31,
                hour: 23,
                minute: 59,
                second: 59,
                nanosecond: 999_999_999,
            },
            "1999-12-31 23:59:59.999 ",
        ),
        (
            Timestamp { year: 987, month: 1, day: 2, hour: 3, minute: 4, second: 5, nanosecond: 6_000_000 },
            "0987-01-02 03:04:05.006 ",
        ),
        (
            Timestamp {
                year: 2016,
                month: 12,
                day: 31,
                hour: 23,
                minute: 59,
                second: 59,
                nanosecond: 1_500_000_000,
            },
            "2016-12-31 23:59:60.500 ",
        ),
    ];
    for (at, text) in cases {
        let entry = logger.log_at(Level::Info, "m", &[], at).unwrap();
        let line = logger.render(&entry);
        assert_eq!(line.len(), 4);
        assert_eq!(line[0].text, text);
    }
}

#[test]
fn render_leaves_out_a_time_that_is_no_time() {
    let logger = Logger::with_config(config(true, true));
    let cases = [
        Timestamp { year: 2023, month: 2, day: 29, hour: 0, minute: 0, second: 0, nanosecond: 0 },
        Timestamp { year: 2023, month: 13, day: 1, hour: 0, minute: 0, second: 0, nanosecond: 0 },
        Timestamp { year: 2023, month: 0, day: 1, hour: 0, minute: 0, second: 0, nanosecond: 0 },
        Timestamp { year: 2023, month: 1, day: 1, hour: 24, minute: 0, second: 0, nanosecond: 0 },
        Timestamp { year: 2023, month: 1, day: 1, hour: 0, minute: 60, second: 0, nanosecond: 0 },
        Timestamp { year: 2023, month: 1, day: 1, hour: 0, minute: 0, second: 60, nanosecond: 0 },
        Timestamp {
            year: 2023,
            month: 1,
            day: 1,
            hour: 0,
            minute: 0,
            second: 0,
            nanosecond: 1_000_000_000,
        },
        Timestamp { year: i32::MAX, month: 1, day: 1, hour: 0, minute: 0, second: 0, nanosecond: 0 },
    ];
    for at in cases {
        let entry = logger.log_at(Level::Info, "m", &[], at).unwrap();
        let line = logger.render(&entry);
        assert_eq!(plain_text(&line), "INFO m\n");
        assert_eq!(line.len(), 3);
    }
}

#[test]
fn render_line_takes_the_time_as_text() {
    let entry = LogEntry {
        level: Level::Debug,
        message: "hello".to_string(),
        fields: FieldMap::new().overlaid(&[("a", "1"), ("b", "")]),
        timestamp: stamp(),
    };
    let with_time = render_line(&config(true, true), &entry, Some("the time"));
    assert_eq!(
        shown(&with_time),
        vec![
            (muted(), "the time ".to_string()),
            (label(Color::Blue), "DEBG ".to_string()),
            (plain(), "hello".to_string()),
            (muted(), " a=".to_string()),
            (plain(), "1".to_string()),
            (muted(), " b=".to_string()),
            (plain(), "".to_string()),
            (plain(), "\n".to_string()),
        ]
    );
    let hidden = render_line(&config(true, false), &entry, Some("the time"));
    assert_eq!(plain_text(&hidden), "DEBG hello a=1 b=\n");
    let missing = render_line(&config(true, true), &entry, None);
    assert_eq!(plain_text(&missing), "DEBG hello a=1 b=\n");
    let empty = render_line(&config(false, true), &entry, Some(""));
    assert_eq!(plain_text(&empty), " DEBG hello a=1 b=\n");
}

#[test]
fn plain_text_joins_the_segments() {
    assert_eq!(plain_text(&Vec::new()), "");
    let segments = vec![
        Segment { style: muted(), text: "a".to_string() },
        Segment { style: plain(), text: "".to_string() },
        Segment { style: label(Color::Red), text: "bc".to_string() },
    ];
    assert_eq!(plain_text(&segments), "abc");
}

#[test]
fn default_logger_warns_about_low_disk() {
    let logger = Logger::new();
    let entry = logger.warn("low disk", &[("used", "92%")]).unwrap();
    let line = logger.render(&entry);
    let text = plain_text(&line);
    assert_eq!(text.matches('\n').count(), 1);
    assert!(text.ends_with(" WARN low disk used=92%\n"));
    let label = text.find("WARN").unwrap();
    let message = text.find("low disk").unwrap();
    let field = text.find("used=92%").unwrap();
    assert!(label < message);
    assert!(message < field);
    // the default settings show the time: date, time of day, milliseconds
    let time = &text[..label];
    assert_eq!(time.len(), 24);
    let shape: String =
        time.chars().map(|c| if c.is_ascii_digit() { '0' } else { c }).collect();
    assert_eq!(shape, "0000-00-00 00:00:00.000 ");
}
