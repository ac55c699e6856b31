//! Severity levels: their order, their labels and their colours.

use core::cmp::Ordering;
use vstd::std_specs::cmp::PartialOrdSpec;
use vstd::prelude::*;

verus! {

/// A display colour, as far as the logger uses one.
#[derive(Clone, Copy, Debug, PartialEq, Eq, Structural)]
pub enum Color {
    Blue,
    Green,
    Red,
    Cyan,
    Yellow,
    /// Red, green and blue components.
    Rgb(u8, u8, u8),
}

/// The severity of a log entry, from the least severe to the most.
#[derive(Clone, Copy, Debug, PartialEq, Eq, Structural, Ord)]
pub enum Level {
    Trace,
    Debug,
    Info,
    Warn,
    Error,
}

impl Level {
    /// The position of the level in the order of severities, from 0.
    pub open spec fn ordinal(self) -> int {
        match self {
            Level::Trace => 0,
            Level::Debug => 1,
            Level::Info => 2,
            Level::Warn => 3,
            Level::Error => 4,
        }
    }

    /// The four characters that stand for the level in a rendered line.
    pub open spec fn label(self) -> Seq<char> {
        match self {
            Level::Trace => seq!['T', 'R', 'C', 'E'],
            Level::Debug => seq!['D', 'E', 'B', 'G'],
            Level::Info => seq!['I', 'N', 'F', 'O'],
            Level::Warn => seq!['W', 'A', 'R', 'N'],
            Level::Error => seq!['E', 'R', 'R', 'O'],
        }
    }

    /// The colour in which the level's label is shown.
    pub open spec fn hue(self) -> Color {
        match self {
            Level::Trace => Color::Cyan,
            Level::Debug => Color::Blue,
            Level::Info => Color::Green,
            Level::Warn => Color::Yellow,
            Level::Error => Color::Red,
        }
    }

    /// The level's rank as a machine integer.
    pub fn rank(&self) -> (r: u8)
        ensures
            r == self.ordinal(),
    {
        match self {
            Level::Trace => 0,
            Level::Debug => 1,
            Level::Info => 2,
            Level::Warn => 3,
            Level::Error => 4,
        }
    }

    /// The level's label as a string slice.
    pub fn as_str(&self) -> (s: &'static str)
        ensures
            s@ == self.label(),
    {
        proof {
            reveal_strlit("TRCE");
            reveal_strlit("DEBG");
            reveal_strlit("INFO");
            reveal_strlit("WARN");
            reveal_strlit("ERRO");
        }
        let s = match self {
            Level::Trace => "TRCE",
            Level::Debug => "DEBG",
            Level::Info => "INFO",
            Level::Warn => "WARN",
            Level::Error => "ERRO",
        };
        assert(s@ =~= self.label());
        s
    }

    /// The level's display colour.
    pub fn color(&self) -> (c: Color)
        ensures
            c == self.hue(),
    {
        match self {
            Level::Trace => Color::Cyan,
            Level::Debug => Color::Blue,
            Level::Info => Color::Green,
            Level::Warn => Color::Yellow,
            Level::Error => Color::Red,
        }
    }

    /// The level's label as an owned string.
    pub fn to_string(&self) -> (s: String)
        ensures
            s@ == self.label(),
    {
        self.as_str().to_owned()
    }
}

impl PartialOrd for Level {
    fn partial_cmp(&self, other: &Self) -> (r: Option<Ordering>) {
        let a = self.rank();
        let b = other.rank();
        if a < b {
            Some(Ordering::Less)
        } else if a == b {
            Some(Ordering::Equal)
        } else {
            Some(Ordering::Greater)
        }
    }
}

impl vstd::std_specs::cmp::PartialOrdSpecImpl for Level {
    open spec fn obeys_partial_cmp_spec() -> bool {
        true
    }

    open spec fn partial_cmp_spec(&self, other: &Self) -> Option<Ordering> {
        if self.ordinal() < other.ordinal() {
            Some(Ordering::Less)
        } else if self.ordinal() == other.ordinal() {
            Some(Ordering::Equal)
        } else {
            Some(Ordering::Greater)
        }
    }
}

/// The levels are strictly and totally ordered by their ordinals: of two
/// levels exactly one is less than the other unless they are the same, and
/// Trace < Debug < Info < Warn < Error.
pub proof fn lemma_level_order(a: Level, b: Level)
    ensures
        a.partial_cmp_spec(&b) == Some(Ordering::Less) <==> a.ordinal() < b.ordinal(),
        a.partial_cmp_spec(&b) == Some(Ordering::Equal) <==> a == b,
        a.partial_cmp_spec(&b) == Some(Ordering::Greater) <==> b.partial_cmp_spec(&a) == Some(
            Ordering::Less,
        ),
        a.partial_cmp_spec(&b) is Some,
        Level::Trace.partial_cmp_spec(&Level::Debug) == Some(Ordering::Less),
        Level::Debug.partial_cmp_spec(&Level::Info) == Some(Ordering::Less),
        Level::Info.partial_cmp_spec(&Level::Warn) == Some(Ordering::Less),
        Level::Warn.partial_cmp_spec(&Level::Error) == Some(Ordering::Less),
{
}

/// "Less than" on levels carries over: below a level that is below a third
/// is below the third.
pub proof fn lemma_level_order_transitive(a: Level, b: Level, c: Level)
    requires
        a.partial_cmp_spec(&b) == Some(Ordering::Less),
        b.partial_cmp_spec(&c) == Some(Ordering::Less),
    ensures
        a.partial_cmp_spec(&c) == Some(Ordering::Less),
{
}

/// Every level has a label of four characters, and two levels share neither
/// their label nor their colour.
pub proof fn lemma_labels_and_colors(a: Level, b: Level)
    ensures
        a.label().len() == 4,
        a != b ==> a.label() != b.label(),
        a != b ==> a.hue() != b.hue(),
{
    if a != b {
        assert(a.label()[0] != b.label()[0] || a.label()[1] != b.label()[1]);
    }
}

} // verus!
