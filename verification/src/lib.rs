//! A structured, terminal-oriented logger: leveled calls with key-value
//! context, filtered by a minimum severity and rendered as styled text.
//!
//! A `Logger` holds settings and a context. A logging call gives the entry
//! that passes the logger's threshold, `Logger::render` gives the entry's
//! line as styled segments, and the caller writes them to its stream.

pub mod clock;
pub mod config;
pub mod entry;
pub mod fields;
pub mod global;
pub mod level;
pub mod logger;
pub mod pairs;
pub mod render;

pub use clock::Timestamp;
pub use config::{ColorChoice, Config};
pub use entry::LogEntry;
pub use fields::FieldMap;
pub use global::{global_logger, set_global_logger, with_global_logger, GlobalLogger};
pub use level::{Color, Level};
pub use logger::Logger;
pub use render::{plain_text, render_line, Segment, Style, TIMESTAMP_PATTERN};
