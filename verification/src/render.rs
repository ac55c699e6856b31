//! Rendering: one log entry becomes one line, as a list of styled pieces of
//! text. Whoever writes the line applies each piece's style, writes its text
//! and resets the style; joined, the texts are the plain line.
//!
//! The pieces of a line, in order:
//! 1. the time and a space, muted, where the time is shown;
//! 2. the level's label and a space, bold in the level's colour;
//! 3. the message, unstyled;
//! 4. for every field, in the order of the entry's field map: a space, the
//!    key and `=`, muted, and then the value, unstyled;
//! 5. a line feed, unstyled.
//! Without colours every piece is unstyled.

use crate::config::Config;
use crate::entry::{EntryView, LogEntry};
use crate::level::{Color, Level};
use crate::pairs::Pair;
use vstd::prelude::*;
use vstd::string::StringExecFns;

verus! {

/// The strftime pattern of the time at the start of a line: date, time of
/// day, and milliseconds.
pub const TIMESTAMP_PATTERN: &'static str = "%Y-%m-%d %H:%M:%S%.3f";

/// How a piece of text is shown.
#[derive(Clone, Copy, Debug, PartialEq, Eq)]
pub struct Style {
    /// The colour of the text; `None` is the terminal's own.
    pub fg: Option<Color>,
    pub bold: bool,
}

/// A piece of a rendered line.
#[derive(Debug)]
pub struct Segment {
    pub style: Style,
    pub text: String,
}

/// A piece of a rendered line, its text as a sequence of characters.
pub struct Piece {
    pub style: Style,
    pub text: Seq<char>,
}

impl View for Segment {
    type V = Piece;

    open spec fn view(&self) -> Piece {
        Piece { style: self.style, text: self.text@ }
    }
}

/// The pieces that a list of segments stands for.
pub open spec fn pieces(segments: Seq<Segment>) -> Seq<Piece> {
    segments.map_values(|s: Segment| s@)
}

/// The style of text that is left as the terminal shows it.
pub open spec fn plain_style() -> Style {
    Style { fg: None, bold: false }
}

/// The style of text that steps back: a middle grey.
pub open spec fn muted_style() -> Style {
    Style { fg: Some(Color::Rgb(128, 128, 128)), bold: false }
}

/// The style of a level's label: bold, in the level's colour.
pub open spec fn label_style(level: Level) -> Style {
    Style { fg: Some(level.hue()), bold: true }
}

/// The style that is applied in place of `style`: itself with colours, none
/// without.
pub open spec fn applied(use_colors: bool, style: Style) -> Style {
    if use_colors {
        style
    } else {
        plain_style()
    }
}

/// The piece that shows the time, where there is one to show.
pub open spec fn stamp_pieces(config: Config, stamp: Option<Seq<char>>) -> Seq<Piece> {
    match stamp {
        Some(text) if config.show_timestamp => seq![
            Piece { style: applied(config.use_colors, muted_style()), text: text + seq![' '] },
        ],
        _ => Seq::empty(),
    }
}

/// The pieces that show the level and the message.
pub open spec fn message_pieces(config: Config, level: Level, message: Seq<char>) -> Seq<Piece> {
    seq![
        Piece {
            style: applied(config.use_colors, label_style(level)),
            text: level.label() + seq![' '],
        },
        Piece { style: plain_style(), text: message },
    ]
}

/// The two pieces that show one field.
pub open spec fn pair_pieces(config: Config, pair: Pair) -> Seq<Piece> {
    seq![
        Piece {
            style: applied(config.use_colors, muted_style()),
            text: seq![' '] + pair.0 + seq!['='],
        },
        Piece { style: plain_style(), text: pair.1 },
    ]
}

/// The pieces that show the fields, in their order.
pub open spec fn field_pieces(config: Config, entries: Seq<Pair>) -> Seq<Piece>
    decreases entries.len(),
{
    if entries.len() == 0 {
        Seq::empty()
    } else {
        field_pieces(config, entries.drop_last()) + pair_pieces(config, entries.last())
    }
}

/// The piece that ends the line.
pub open spec fn end_pieces() -> Seq<Piece> {
    seq![Piece { style: plain_style(), text: seq!['\n'] }]
}

/// The rendered line of `entry`, whose time has the text `stamp` (`None`
/// where it has no text).
pub open spec fn line(config: Config, entry: EntryView, stamp: Option<Seq<char>>) -> Seq<Piece> {
    stamp_pieces(config, stamp) + message_pieces(config, entry.level, entry.message)
        + field_pieces(config, entry.fields) + end_pieces()
}

/// The texts of the pieces, joined.
pub open spec fn joined(parts: Seq<Piece>) -> Seq<char>
    decreases parts.len(),
{
    if parts.len() == 0 {
        Seq::empty()
    } else {
        joined(parts.drop_last()) + parts.last().text
    }
}

/// The characters of an optional string.
pub open spec fn text_of(s: Option<&str>) -> Option<Seq<char>> {
    match s {
        Some(t) => Some(t@),
        None => None,
    }
}

impl Style {
    /// The style of text that is left as the terminal shows it.
    pub fn plain() -> (s: Style)
        ensures
            s == plain_style(),
    {
        Style { fg: None, bold: false }
    }

    /// The style of text that steps back.
    pub fn muted() -> (s: Style)
        ensures
            s == muted_style(),
    {
        Style { fg: Some(Color::Rgb(128, 128, 128)), bold: false }
    }

    /// The style of a level's label.
    pub fn label(level: Level) -> (s: Style)
        ensures
            s == label_style(level),
    {
        Style { fg: Some(level.color()), bold: true }
    }

    /// This style with colours, the plain one without.
    pub fn applied(self, use_colors: bool) -> (s: Style)
        ensures
            s == applied(use_colors, self),
    {
        if use_colors {
            self
        } else {
            Style::plain()
        }
    }
}

/// Renders the line of `entry`.
///
/// `stamp` is the text of the entry's time, `None` where it has none; it is
/// shown only where `config` asks for the time.
pub fn render_line(config: &Config, entry: &LogEntry, stamp: Option<&str>) -> (out: Vec<Segment>)
    ensures
        pieces(out@) == line(*config, entry@, text_of(stamp)),
{
    let level = entry.level;
    let message = entry.message.as_str();
    let fields = &entry.fields;
    proof {
        reveal_strlit(" ");
    }
    let muted = Style::muted().applied(config.use_colors);
    let mut out: Vec<Segment> = Vec::new();
    assert(pieces(out@) =~= Seq::<Piece>::empty());
    if config.show_timestamp {
        if let Some(text) = stamp {
            let mut shown = text.to_owned();
            shown.append(" ");
            assert(shown@ =~= text@ + seq![' ']);
            out.push(Segment { style: muted, text: shown });
        }
    }
    assert(pieces(out@) =~= stamp_pieces(*config, text_of(stamp)));
    let mut label = level.to_string();
    label.append(" ");
    assert(label@ =~= level.label() + seq![' ']);
    out.push(Segment { style: Style::label(level).applied(config.use_colors), text: label });
    out.push(Segment { style: Style::plain(), text: message.to_owned() });
    let ghost start = stamp_pieces(*config, text_of(stamp)) + message_pieces(
        *config,
        level,
        message@,
    );
    assert(pieces(out@) =~= start);
    let n = fields.len();
    let mut i: usize = 0;
    assert(fields.entries().take(0) =~= Seq::<Pair>::empty());
    while i < n
        invariant
            i <= n,
            n == fields.entries().len(),
            muted == applied(config.use_colors, muted_style()),
            pieces(out@) == start + field_pieces(*config, fields.entries().take(i as int)),
        decreases n - i,
    {
        if let Some((key, value)) = fields.get_index(i) {
            let mut shown = " ".to_owned();
            shown.append(key.as_str());
            shown.append("=");
            proof {
                reveal_strlit(" ");
                reveal_strlit("=");
            }
            assert(shown@ =~= seq![' '] + key@ + seq!['=']);
            let ghost before = pieces(out@);
            out.push(Segment { style: muted, text: shown });
            out.push(Segment { style: Style::plain(), text: value.clone() });
            proof {
                let done = fields.entries().take(i as int);
                let next = fields.entries().take(i + 1);
                assert(next.drop_last() =~= done);
                assert(next.last() == fields.entries()[i as int]);
                assert(pieces(out@) =~= before + pair_pieces(*config, fields.entries()[i as int]));
                assert(start + field_pieces(*config, next) =~= before + pair_pieces(
                    *config,
                    fields.entries()[i as int],
                ));
            }
        }
        i += 1;
    }
    assert(fields.entries().take(n as int) =~= fields.entries());
    let ghost body = pieces(out@);
    let end = "\n".to_owned();
    proof {
        reveal_strlit("\n");
        assert(end@ =~= seq!['\n']);
    }
    out.push(Segment { style: Style::plain(), text: end });
    assert(pieces(out@) =~= body + end_pieces());
    out
}

/// The plain text of a rendered line: the texts of its segments, joined.
pub fn plain_text(segments: &Vec<Segment>) -> (text: String)
    ensures
        text@ == joined(pieces(segments@)),
{
    let mut text = String::new();
    let mut i: usize = 0;
    assert(pieces(segments@).take(0) =~= Seq::<Piece>::empty());
    while i < segments.len()
        invariant
            i <= segments.len(),
            text@ == joined(pieces(segments@).take(i as int)),
        decreases segments.len() - i,
    {
        proof {
            let done = pieces(segments@).take(i as int);
            let next = pieces(segments@).take(i + 1);
            assert(next.drop_last() =~= done);
            assert(next.last() == segments@[i as int]@);
        }
        text.append(segments[i].text.as_str());
        i += 1;
    }
    assert(pieces(segments@).take(segments.len() as int) =~= pieces(segments@));
    text
}

/// Colours change how the fields of a line look and nothing else.
proof fn lemma_field_colors(config: Config, entries: Seq<Pair>)
    ensures
        field_pieces(Config { use_colors: true, ..config }, entries).len() == field_pieces(
            Config { use_colors: false, ..config },
            entries,
        ).len(),
        forall|i: int|
            0 <= i < field_pieces(Config { use_colors: false, ..config }, entries).len() ==> {
                &&& (#[trigger] field_pieces(
                    Config { use_colors: false, ..config },
                    entries,
                )[i]).style == plain_style()
                &&& field_pieces(Config { use_colors: false, ..config }, entries)[i].text
                    == field_pieces(Config { use_colors: true, ..config }, entries)[i].text
            },
    decreases entries.len(),
{
    if entries.len() > 0 {
        lemma_field_colors(config, entries.drop_last());
    }
}

/// Colours change how a line looks and nothing else: with and without them
/// it has the same pieces with the same texts, and without them every piece
/// is unstyled.
pub proof fn lemma_colors_change_styles_only(
    config: Config,
    entry: EntryView,
    stamp: Option<Seq<char>>,
)
    ensures
        line(Config { use_colors: false, ..config }, entry, stamp).len() == line(
            Config { use_colors: true, ..config },
            entry,
            stamp,
        ).len(),
        forall|i: int|
            0 <= i < line(Config { use_colors: false, ..config }, entry, stamp).len() ==> {
                &&& (#[trigger] line(Config { use_colors: false, ..config }, entry, stamp)[i]).style
                    == plain_style()
                &&& line(Config { use_colors: false, ..config }, entry, stamp)[i].text == line(
                    Config { use_colors: true, ..config },
                    entry,
                    stamp,
                )[i].text
            },
{
    lemma_field_colors(config, entry.fields);
}

} // verus!
