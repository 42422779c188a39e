//! The severity level of an event.

use vstd::prelude::*;

verus! {

/// The severity level of an event.
#[derive(Clone, Copy, Debug)]
pub enum Level {
    /// A weakly informative event.
    Debug,
    /// An informative event.
    Info,
    /// A weakly erroneous event.
    Warn,
    /// An erroneous event.
    Error,
}

/// The text a level is displayed as.
pub open spec fn level_text(level: Level) -> Seq<char> {
    match level {
        Level::Debug => "DEBUG"@,
        Level::Info => "INFO"@,
        Level::Warn => "WARN"@,
        Level::Error => "ERROR"@,
    }
}

impl Level {
    /// The text the level is displayed as: `DEBUG`, `INFO`, `WARN` or `ERROR`.
    pub fn as_str(&self) -> (r: &'static str)
        ensures
            r@ == level_text(*self),
    {
        match self {
            Level::Info => "INFO",
            Level::Error => "ERROR",
            Level::Warn => "WARN",
            Level::Debug => "DEBUG",
        }
    }
}

impl Default for Level {
    /// The default level is [`Level::Info`].
    fn default() -> (r: Self)
        ensures
            r == Level::Info,
    {
        Level::Info
    }
}

/// The error returned when a level can't be parsed.
pub struct ParseLevelError {}

/// Distinct levels are displayed as distinct text.
pub proof fn lemma_level_text_distinct(a: Level, b: Level)
    requires
        a != b,
    ensures
        level_text(a) != level_text(b),
{
    reveal_strlit("DEBUG");
    reveal_strlit("INFO");
    reveal_strlit("WARN");
    reveal_strlit("ERROR");
    if level_text(a) == level_text(b) {
        assert(level_text(a).len() == level_text(b).len());
        assert(level_text(a)[0] == level_text(b)[0]);
    }
}

} // verus!
