//! The level of detail at which the program logs.

use crate::text::same_text;
use vstd::prelude::*;

verus! {

/// How much is logged: everything at `Trace`, less at `Debug`, `Info` and
/// `Warn` in turn, and errors alone at `Error`.
#[derive(Clone, Copy, Debug, PartialEq, Eq, Structural)]
pub enum LogLevel {
    Debug,
    Error,
    Warn,
    Trace,
    Info,
}

/// The level that `level` names: `debug`, `error`, `warn` and `trace` name
/// their own; every other name, `info` among them, gives `Info`.
pub open spec fn level_named(level: Seq<char>) -> LogLevel {
    if level == "debug"@ {
        LogLevel::Debug
    } else if level == "error"@ {
        LogLevel::Error
    } else if level == "warn"@ {
        LogLevel::Warn
    } else if level == "trace"@ {
        LogLevel::Trace
    } else {
        LogLevel::Info
    }
}

/// The level that `level` names.
pub fn level_for(level: &str) -> (r: LogLevel)
    ensures
        r == level_named(level@),
{
    if same_text(level, "debug") {
        LogLevel::Debug
    } else if same_text(level, "error") {
        LogLevel::Error
    } else if same_text(level, "warn") {
        LogLevel::Warn
    } else if same_text(level, "trace") {
        LogLevel::Trace
    } else {
        LogLevel::Info
    }
}

} // verus!
