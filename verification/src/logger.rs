//! Which log messages the agent shows, and how a message's level is labelled.
use vstd::prelude::*;

verus! {

/// The level of a log message, from the most to the least severe.
#[derive(Debug, Clone, Copy, PartialEq, Eq, Structural)]
pub enum LogLevel {
    Error,
    Warn,
    Info,
    Debug,
    Trace,
}

/// The rank of a level: the more detailed the message, the higher.
pub open spec fn rank(level: LogLevel) -> nat {
    match level {
        LogLevel::Error => 1,
        LogLevel::Warn => 2,
        LogLevel::Info => 3,
        LogLevel::Debug => 4,
        LogLevel::Trace => 5,
    }
}

/// The most detailed level shown: a debug build shows one level more than a
/// release build, and `verbose` one more again.
pub open spec fn max_level_spec(debug_build: bool, verbose: bool) -> LogLevel {
    if debug_build {
        if verbose {
            LogLevel::Trace
        } else {
            LogLevel::Debug
        }
    } else if verbose {
        LogLevel::Debug
    } else {
        LogLevel::Info
    }
}

/// The most detailed level shown.
pub fn max_level(debug_build: bool, verbose: bool) -> (level: LogLevel)
    ensures
        level == max_level_spec(debug_build, verbose),
{
    if debug_build {
        if verbose {
            LogLevel::Trace
        } else {
            LogLevel::Debug
        }
    } else if verbose {
        LogLevel::Debug
    } else {
        LogLevel::Info
    }
}

/// The rank of a level.
pub fn rank_of(level: LogLevel) -> (r: u8)
    ensures
        r == rank(level),
{
    match level {
        LogLevel::Error => 1,
        LogLevel::Warn => 2,
        LogLevel::Info => 3,
        LogLevel::Debug => 4,
        LogLevel::Trace => 5,
    }
}

/// Whether a message of `level` is shown when `max` is the most detailed
/// level shown.
pub fn enabled(level: LogLevel, max: LogLevel) -> (shown: bool)
    ensures
        shown == (rank(level) <= rank(max)),
{
    rank_of(level) <= rank_of(max)
}

/// The label of a level, padded to five characters.
pub open spec fn label_spec(level: LogLevel) -> Seq<char> {
    match level {
        LogLevel::Error => "ERROR"@,
        LogLevel::Warn => "WARN "@,
        LogLevel::Info => "INFO "@,
        LogLevel::Debug => "DEBUG"@,
        LogLevel::Trace => "TRACE"@,
    }
}

/// The label of a level, padded to five characters.
pub fn level_label(level: LogLevel) -> (label: String)
    ensures
        label@ == label_spec(level),
{
    match level {
        LogLevel::Error => "ERROR".to_owned(),
        LogLevel::Warn => "WARN ".to_owned(),
        LogLevel::Info => "INFO ".to_owned(),
        LogLevel::Debug => "DEBUG".to_owned(),
        LogLevel::Trace => "TRACE".to_owned(),
    }
}

/// Asking for verbose output never hides a message that would be shown
/// without it, and errors are shown whatever is asked.
pub proof fn law_verbose_shows_more(debug_build: bool, level: LogLevel)
    ensures
        rank(level) <= rank(max_level_spec(debug_build, false)) ==> rank(level) <= rank(
            max_level_spec(debug_build, true),
        ),
        rank(LogLevel::Error) <= rank(max_level_spec(debug_build, false)),
{
}

/// The levels, from the most to the least severe.
pub open spec fn by_severity() -> Seq<LogLevel> {
    seq![LogLevel::Error, LogLevel::Warn, LogLevel::Info, LogLevel::Debug, LogLevel::Trace]
}

/// Levels are shown in order of severity: with any level as the most
/// detailed shown, every more severe level is shown too and every less severe
/// one is not. At the release default, errors, warnings and information are
/// shown and debugging and tracing messages are not.
pub proof fn law_levels_by_severity()
    ensures
        forall|i: int, j: int|
            0 <= i < j < 5 ==> rank(#[trigger] by_severity()[i]) < rank(#[trigger] by_severity()[j]),
        forall|l: LogLevel|
            #[trigger] rank(l) <= rank(max_level_spec(false, false)) <==> (l == LogLevel::Error || l
                == LogLevel::Warn || l == LogLevel::Info),
        forall|l: LogLevel| #[trigger] rank(l) <= rank(max_level_spec(true, true)),
{
    assert forall|i: int, j: int| 0 <= i < j < 5 implies rank(#[trigger] by_severity()[i]) < rank(
        #[trigger] by_severity()[j],
    ) by {
        assert(by_severity()[0] == LogLevel::Error);
        assert(by_severity()[1] == LogLevel::Warn);
        assert(by_severity()[2] == LogLevel::Info);
        assert(by_severity()[3] == LogLevel::Debug);
        assert(by_severity()[4] == LogLevel::Trace);
    }
}

} // verus!
