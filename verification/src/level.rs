//! Severity levels of log records and the thresholds that sinks filter by.

use tracing::level_filters::LevelFilter as TracingFilter;
use vstd::prelude::*;

verus! {

/// Severity of one emitted record.
#[derive(Clone, Copy, Debug, PartialEq, Eq, Structural)]
pub enum Level {
    Error,
    Warn,
    Info,
    Debug,
    Trace,
}

/// Threshold of a sink: the most verbose level it still lets through.
#[derive(Clone, Copy, Debug, PartialEq, Eq, Structural)]
pub enum LevelFilter {
    Off,
    Error,
    Warn,
    Info,
    Debug,
    Trace,
}

/// Whether `a` and `b` are the same character, or the same ASCII letter in
/// different case.
pub open spec fn same_letter(a: char, b: char) -> bool {
    ||| a == b
    ||| ('A' <= a && a <= 'Z' && a as u32 + 32 == b as u32)
    ||| ('A' <= b && b <= 'Z' && b as u32 + 32 == a as u32)
}

/// Whether `text` spells `word`, the case of ASCII letters aside.
pub open spec fn spells(text: Seq<char>, word: Seq<char>) -> bool {
    &&& text.len() == word.len()
    &&& forall|i: int| 0 <= i < text.len() ==> same_letter(#[trigger] text[i], word[i])
}

/// The threshold that `text` plainly names: one of the six level names
/// in any case, a single digit from 0 for `Off` to 5 for `Trace`, or
/// nothing at all, which stands for `Error`.
pub open spec fn plain_level(text: Seq<char>) -> Option<LevelFilter> {
    if text.len() == 0 || spells(text, "error"@) || text == "1"@ {
        Some(LevelFilter::Error)
    } else if spells(text, "warn"@) || text == "2"@ {
        Some(LevelFilter::Warn)
    } else if spells(text, "info"@) || text == "3"@ {
        Some(LevelFilter::Info)
    } else if spells(text, "debug"@) || text == "4"@ {
        Some(LevelFilter::Debug)
    } else if spells(text, "trace"@) || text == "5"@ {
        Some(LevelFilter::Trace)
    } else if spells(text, "off"@) || text == "0"@ {
        Some(LevelFilter::Off)
    } else {
        None
    }
}

/// What `tracing`'s parser for level filters makes of `text`: the threshold
/// that `str::parse::<LevelFilter>` returns, or `None` where it rejects
/// the text.
pub uninterp spec fn parsed_level_filter(text: Seq<char>) -> Option<LevelFilter>;

/// Parses a threshold with `tracing`'s `FromStr` for `LevelFilter` and
/// maps the outcome onto this crate's [`LevelFilter`], one variant each.
///
/// The contract gives the outcome its name, [`parsed_level_filter`], and
/// states it for the texts of [`plain_level`]: the parser compares the
/// six names without regard to ASCII case, reads the numbers 0 to 5, and
/// takes the empty text for `Error`. What it makes of any other text,
/// such as a number with a sign or with leading zeros, is left to the
/// name.
#[verifier::external_body]
fn parse_level_filter(text: &str) -> (parsed: Option<LevelFilter>)
    ensures
        parsed == parsed_level_filter(text@),
        plain_level(text@) is Some ==> parsed == plain_level(text@),
{
    match text.parse::<TracingFilter>() {
        Err(_) => None,
        Ok(filter) if filter == TracingFilter::OFF => Some(LevelFilter::Off),
        Ok(filter) if filter == TracingFilter::ERROR => Some(LevelFilter::Error),
        Ok(filter) if filter == TracingFilter::WARN => Some(LevelFilter::Warn),
        Ok(filter) if filter == TracingFilter::INFO => Some(LevelFilter::Info),
        Ok(filter) if filter == TracingFilter::DEBUG => Some(LevelFilter::Debug),
        Ok(_) => Some(LevelFilter::Trace),
    }
}

impl Level {
    /// Position on the verbosity scale: 1 for `Error` up to 5 for `Trace`.
    pub open spec fn verbosity(self) -> nat {
        match self {
            Level::Error => 1,
            Level::Warn => 2,
            Level::Info => 3,
            Level::Debug => 4,
            Level::Trace => 5,
        }
    }
}

impl LevelFilter {
    /// Position on the verbosity scale: 0 for `Off`, then as for [`Level`].
    pub open spec fn verbosity(self) -> nat {
        match self {
            LevelFilter::Off => 0,
            LevelFilter::Error => 1,
            LevelFilter::Warn => 2,
            LevelFilter::Info => 3,
            LevelFilter::Debug => 4,
            LevelFilter::Trace => 5,
        }
    }

    /// A record passes a threshold when it is no more verbose than it.
    pub open spec fn allows(self, level: Level) -> bool {
        level.verbosity() <= self.verbosity()
    }

    /// The threshold that a parse outcome stands for: unreadable text
    /// falls back to `Debug`.
    pub open spec fn or_debug(parsed: Option<LevelFilter>) -> LevelFilter {
        match parsed {
            Some(filter) => filter,
            None => LevelFilter::Debug,
        }
    }

    /// The threshold named by `text`, `Debug` where the text names none.
    /// For the texts of [`plain_level`] this is the threshold they name.
    pub open spec fn named_by(text: Seq<char>) -> LevelFilter {
        match plain_level(text) {
            Some(filter) => filter,
            None => Self::or_debug(parsed_level_filter(text)),
        }
    }

    /// Resolves a parse outcome, falling back to `Debug`.
    pub fn resolve(parsed: Option<LevelFilter>) -> (filter: LevelFilter)
        ensures
            filter == Self::or_debug(parsed),
    {
        match parsed {
            Some(filter) => filter,
            None => LevelFilter::Debug,
        }
    }

    /// Reads a threshold from its textual name, falling back to `Debug`
    /// where the text names none.
    pub fn from_name(text: &str) -> (filter: LevelFilter)
        ensures
            filter == Self::named_by(text@),
    {
        Self::resolve(parse_level_filter(text))
    }

    /// Whether a sink with this threshold receives a record of `level`.
    pub fn enables(&self, level: Level) -> (passes: bool)
        ensures
            passes == self.allows(level),
    {
        let limit: u8 = match self {
            LevelFilter::Off => 0,
            LevelFilter::Error => 1,
            LevelFilter::Warn => 2,
            LevelFilter::Info => 3,
            LevelFilter::Debug => 4,
            LevelFilter::Trace => 5,
        };
        let rank: u8 = match level {
            Level::Error => 1,
            Level::Warn => 2,
            Level::Info => 3,
            Level::Debug => 4,
            Level::Trace => 5,
        };
        rank <= limit
    }
}

} // verus!
