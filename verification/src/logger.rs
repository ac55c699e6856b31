//! `Logger`: settings, a persistent context, and the calls that turn a
//! message into a log entry and an entry into a rendered line.
//!
//! A logging call decides whether the entry passes the logger's threshold
//! and, where it does, resolves it: the context with the call's fields laid
//! over it, stamped with the current local time. Writing the rendered line to
//! a stream is the caller's part.

use crate::clock::{format_timestamp, now, timestamp_text, Timestamp};
use crate::config::Config;
use crate::entry::{entry_view, EntryView, LogEntry};
use crate::fields::{pairs_of, FieldMap};
use crate::level::Level;
use crate::pairs::{overlay, put, put_all, Pair};
use crate::render::{line, pieces, render_line, Segment, TIMESTAMP_PATTERN};
use vstd::prelude::*;

verus! {

/// A logger: what it emits, how it shows it, and the fields that go with
/// every entry.
#[derive(Debug)]
pub struct Logger {
    pub config: Config,
    /// The fields that go with every entry of this logger.
    pub context: FieldMap,
}

/// What a logger holds: its settings, and its context as the list of its
/// pairs.
pub struct LoggerView {
    pub config: Config,
    pub context: Seq<Pair>,
}

impl LoggerView {
    /// Whether an entry of the level `level` passes the threshold.
    pub open spec fn emits(self, level: Level) -> bool {
        level.ordinal() >= self.config.level.ordinal()
    }

    /// The entry of a logging call made at the time `at`: none below the
    /// threshold, and else the level, the message, and the context with the
    /// call's fields put into it, first to last.
    pub open spec fn entry(
        self,
        level: Level,
        message: Seq<char>,
        fields: Seq<Pair>,
        at: Timestamp,
    ) -> Option<EntryView> {
        if self.emits(level) {
            Some(
                EntryView {
                    level,
                    message,
                    fields: put_all(self.context, fields),
                    timestamp: at,
                },
            )
        } else {
            None
        }
    }

    /// `r` is the entry of a logging call made at some time.
    pub open spec fn logged(
        self,
        level: Level,
        message: Seq<char>,
        fields: Seq<Pair>,
        r: Option<EntryView>,
    ) -> bool {
        match r {
            Some(e) => r == self.entry(level, message, fields, e.timestamp),
            None => !self.emits(level),
        }
    }
}

/// A logger lets an entry pass exactly when the entry's level is not below
/// the logger's: a logger at the level `threshold` has no entry for a level
/// below `threshold` and has one for `threshold` itself and for every level
/// above.
pub proof fn lemma_threshold(
    logger: LoggerView,
    level: Level,
    message: Seq<char>,
    fields: Seq<Pair>,
    at: Timestamp,
)
    ensures
        level.ordinal() < logger.config.level.ordinal() <==> logger.entry(
            level,
            message,
            fields,
            at,
        ) is None,
        logger.entry(logger.config.level, message, fields, at) is Some,
        logger.logged(level, message, fields, None) <==> level.ordinal()
            < logger.config.level.ordinal(),
{
}

impl View for Logger {
    type V = LoggerView;

    open spec fn view(&self) -> LoggerView {
        LoggerView { config: self.config, context: self.context.entries() }
    }
}

impl Logger {
    /// A logger with the default settings for the standard error stream and
    /// an empty context.
    pub fn new() -> (r: Logger)
        ensures
            r@ == (LoggerView {
                config: Config::defaults(r.config.use_colors),
                context: Seq::empty(),
            }),
    {
        Logger { config: Config::default(), context: FieldMap::new() }
    }

    /// A logger with the settings `config` and an empty context.
    pub fn with_config(config: Config) -> (r: Logger)
        ensures
            r@ == (LoggerView { config, context: Seq::empty() }),
    {
        Logger { config, context: FieldMap::new() }
    }

    /// This logger with the threshold `level`.
    pub fn with_level(self, level: Level) -> (r: Logger)
        ensures
            r@ == (LoggerView { config: Config { level, ..self.config }, ..self@ }),
    {
        let mut r = self;
        r.config.level = level;
        r
    }

    /// This logger with colours switched on or off.
    pub fn with_colors(self, use_colors: bool) -> (r: Logger)
        ensures
            r@ == (LoggerView { config: Config { use_colors, ..self.config }, ..self@ }),
    {
        let mut r = self;
        r.config.use_colors = use_colors;
        r
    }

    /// This logger with the time shown or not.
    pub fn with_timestamp(self, show_timestamp: bool) -> (r: Logger)
        ensures
            r@ == (LoggerView { config: Config { show_timestamp, ..self.config }, ..self@ }),
    {
        let mut r = self;
        r.config.show_timestamp = show_timestamp;
        r
    }

    /// This logger with `value` under `key` in its context: a key that is
    /// present keeps its position and takes the new value, a new key goes to
    /// the end.
    pub fn with_field(self, key: String, value: String) -> (r: Logger)
        ensures
            r@ == (LoggerView { context: put(self@.context, key@, value@), ..self@ }),
            r.context@ == self.context@.insert(key@, value@),
    {
        let mut r = self;
        r.context.insert(key, value);
        r
    }

    /// This logger with the field that `key` and `value` convert into: see
    /// `with_field`.
    pub fn with<K: Into<String>, V: Into<String>>(self, key: K, value: V) -> (r: Logger)
        ensures
            exists|k: String, v: String|
                {
                    &&& call_ensures(K::into, (key,), k)
                    &&& call_ensures(V::into, (value,), v)
                    &&& r@ == (LoggerView { context: put(self@.context, k@, v@), ..self@ })
                    &&& r.context@ == self.context@.insert(k@, v@)
                },
    {
        let k: String = key.into();
        let v: String = value.into();
        self.with_field(k, v)
    }

    /// The entry of a logging call made at the time `at`, or `None` where
    /// `level` is below the threshold.
    pub fn log_at(&self, level: Level, message: &str, fields: &[(&str, &str)], at: Timestamp) -> (r:
        Option<LogEntry>)
        ensures
            entry_view(r) == self@.entry(level, message@, pairs_of(fields@), at),
            r matches Some(e) ==> e.fields@ == overlay(
                self.context@,
                pairs_of(fields@),
            ),
    {
        if level < self.config.level {
            return None;
        }
        Some(
            LogEntry {
                level,
                message: message.to_owned(),
                fields: self.context.overlaid(fields),
                timestamp: at,
            },
        )
    }

    /// The entry of a logging call made now, or `None` where `level` is
    /// below the threshold. The clock is not read for an entry that is
    /// dropped.
    pub fn log(&self, level: Level, message: &str, fields: &[(&str, &str)]) -> (r: Option<LogEntry>)
        ensures
            self@.logged(level, message@, pairs_of(fields@), entry_view(r)),
            r matches Some(e) ==> e.fields@ == overlay(
                self.context@,
                pairs_of(fields@),
            ),
    {
        if level < self.config.level {
            return None;
        }
        self.log_at(level, message, fields, now())
    }

    /// `log` at the level `Trace`.
    pub fn trace(&self, message: &str, fields: &[(&str, &str)]) -> (r: Option<LogEntry>)
        ensures
            self@.logged(Level::Trace, message@, pairs_of(fields@), entry_view(r)),
            r matches Some(e) ==> e.fields@ == overlay(self.context@, pairs_of(fields@)),
    {
        self.log(Level::Trace, message, fields)
    }

    /// `log` at the level `Debug`.
    pub fn debug(&self, message: &str, fields: &[(&str, &str)]) -> (r: Option<LogEntry>)
        ensures
            self@.logged(Level::Debug, message@, pairs_of(fields@), entry_view(r)),
            r matches Some(e) ==> e.fields@ == overlay(self.context@, pairs_of(fields@)),
    {
        self.log(Level::Debug, message, fields)
    }

    /// `log` at the level `Info`.
    pub fn info(&self, message: &str, fields: &[(&str, &str)]) -> (r: Option<LogEntry>)
        ensures
            self@.logged(Level::Info, message@, pairs_of(fields@), entry_view(r)),
            r matches Some(e) ==> e.fields@ == overlay(self.context@, pairs_of(fields@)),
    {
        self.log(Level::Info, message, fields)
    }

    /// `log` at the level `Warn`.
    pub fn warn(&self, message: &str, fields: &[(&str, &str)]) -> (r: Option<LogEntry>)
        ensures
            self@.logged(Level::Warn, message@, pairs_of(fields@), entry_view(r)),
            r matches Some(e) ==> e.fields@ == overlay(self.context@, pairs_of(fields@)),
    {
        self.log(Level::Warn, message, fields)
    }

    /// `log` at the level `Error`.
    pub fn error(&self, message: &str, fields: &[(&str, &str)]) -> (r: Option<LogEntry>)
        ensures
            self@.logged(Level::Error, message@, pairs_of(fields@), entry_view(r)),
            r matches Some(e) ==> e.fields@ == overlay(self.context@, pairs_of(fields@)),
    {
        self.log(Level::Error, message, fields)
    }

    /// The rendered line of `entry` under this logger's settings. A time
    /// that has no text is left out of the line.
    pub fn render(&self, entry: &LogEntry) -> (out: Vec<Segment>)
        ensures
            pieces(out@) == line(
                self.config,
                entry@,
                timestamp_text(entry.timestamp, TIMESTAMP_PATTERN@),
            ),
    {
        if self.config.show_timestamp {
            match format_timestamp(&entry.timestamp, TIMESTAMP_PATTERN) {
                Some(text) => render_line(&self.config, entry, Some(text.as_str())),
                None => render_line(&self.config, entry, None),
            }
        } else {
            render_line(&self.config, entry, None)
        }
    }
}

impl Clone for Logger {
    fn clone(&self) -> (r: Logger)
        ensures
            r@ == self@,
            r.context@ == self.context@,
    {
        Logger { config: self.config, context: self.context.clone() }
    }
}

impl Default for Logger {
    /// The same as `Logger::new`.
    fn default() -> (r: Logger)
        ensures
            r@ == (LoggerView {
                config: Config::defaults(r.config.use_colors),
                context: Seq::empty(),
            }),
    {
        Logger::new()
    }
}

} // verus!
