//! `LogEntry`: one resolved record, as it goes to the renderer.

use crate::clock::Timestamp;
use crate::fields::FieldMap;
use crate::level::Level;
use crate::pairs::Pair;
use vstd::prelude::*;

verus! {

/// A log record: what was said, how severe it is, with which fields and
/// when.
#[derive(Debug)]
pub struct LogEntry {
    pub level: Level,
    pub message: String,
    /// The logger's context with the call's own fields laid over it.
    pub fields: FieldMap,
    /// The local time at which the entry was made.
    pub timestamp: Timestamp,
}

/// What a log entry holds: its message as a sequence of characters, its
/// fields as the list of their pairs.
pub struct EntryView {
    pub level: Level,
    pub message: Seq<char>,
    pub fields: Seq<Pair>,
    pub timestamp: Timestamp,
}

impl View for LogEntry {
    type V = EntryView;

    open spec fn view(&self) -> EntryView {
        EntryView {
            level: self.level,
            message: self.message@,
            fields: self.fields.entries(),
            timestamp: self.timestamp,
        }
    }
}

/// What an optional log entry holds.
pub open spec fn entry_view(e: Option<LogEntry>) -> Option<EntryView> {
    match e {
        Some(e) => Some(e@),
        None => None,
    }
}

impl Clone for LogEntry {
    fn clone(&self) -> (r: LogEntry)
        ensures
            r@ == self@,
    {
        LogEntry {
            level: self.level,
            message: self.message.clone(),
            fields: self.fields.clone(),
            timestamp: self.timestamp,
        }
    }
}

} // verus!
