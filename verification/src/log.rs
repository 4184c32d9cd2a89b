//! What the engine's log says: the levels, their labels and colours, and the text of an
//! assertion failure. Writing the lines out is left to the caller.

use crate::mem::report::decimal;
use crate::mem::report::push_decimal;
use vstd::prelude::*;
use vstd::string::StringExecFns;

verus! {

/// Severity of a log entry, most severe first.
#[derive(Clone, Copy, PartialEq, Eq, Structural, Debug)]
pub enum LogLevel {
    Fatal,
    Error,
    Warn,
    Info,
    Debug,
    Trace,
}

/// Colour that a log entry is written in.
#[derive(Clone, Copy, PartialEq, Eq, Structural, Debug)]
pub enum LogColor {
    BrightRed,
    Red,
    Yellow,
    Green,
    Blue,
    White,
}

/// Rank of each level, the most severe at zero.
pub open spec fn level_rank(level: LogLevel) -> nat {
    match level {
        LogLevel::Fatal => 0,
        LogLevel::Error => 1,
        LogLevel::Warn => 2,
        LogLevel::Info => 3,
        LogLevel::Debug => 4,
        LogLevel::Trace => 5,
    }
}

/// The label that a level's entries begin with.
pub open spec fn level_label(level: LogLevel) -> Seq<char> {
    match level {
        LogLevel::Fatal => "[ Fatal ]"@,
        LogLevel::Error => "[ Error ]"@,
        LogLevel::Warn => "[  Warn ]"@,
        LogLevel::Info => "[  Info ]"@,
        LogLevel::Debug => "[ Debug ]"@,
        LogLevel::Trace => "[ Trace ]"@,
    }
}

/// The colour of each level's entries.
pub open spec fn level_color(level: LogLevel) -> LogColor {
    match level {
        LogLevel::Fatal => LogColor::BrightRed,
        LogLevel::Error => LogColor::Red,
        LogLevel::Warn => LogColor::Yellow,
        LogLevel::Info => LogColor::Green,
        LogLevel::Debug => LogColor::Blue,
        LogLevel::Trace => LogColor::White,
    }
}

/// The text that reports a failed assertion.
pub open spec fn assertion_failure_text(
    expr: Seq<char>,
    msg: Seq<char>,
    file: Seq<char>,
    line: u32,
) -> Seq<char> {
    "\n    Assertion: "@ + expr + "\n    Message: '"@ + msg + "'\n    Location: "@ + file + ":"@
        + decimal(line as nat)
}

impl LogLevel {
    /// Rank of the level, the most severe at zero.
    pub fn rank(&self) -> (rank: u8)
        ensures
            rank == level_rank(*self),
    {
        match self {
            LogLevel::Fatal => 0,
            LogLevel::Error => 1,
            LogLevel::Warn => 2,
            LogLevel::Info => 3,
            LogLevel::Debug => 4,
            LogLevel::Trace => 5,
        }
    }

    /// The colour of the level's entries.
    pub fn color(&self) -> (color: LogColor)
        ensures
            color == level_color(*self),
    {
        match self {
            LogLevel::Fatal => LogColor::BrightRed,
            LogLevel::Error => LogColor::Red,
            LogLevel::Warn => LogColor::Yellow,
            LogLevel::Info => LogColor::Green,
            LogLevel::Debug => LogColor::Blue,
            LogLevel::Trace => LogColor::White,
        }
    }

    /// The label that the level's entries begin with.
    pub fn label(&self) -> (label: &'static str)
        ensures
            label@ == level_label(*self),
    {
        match self {
            LogLevel::Fatal => "[ Fatal ]",
            LogLevel::Error => "[ Error ]",
            LogLevel::Warn => "[  Warn ]",
            LogLevel::Info => "[  Info ]",
            LogLevel::Debug => "[ Debug ]",
            LogLevel::Trace => "[ Trace ]",
        }
    }

    /// Whether the level's entries go to the error stream: those more severe than a
    /// warning do.
    pub fn to_error_stream(&self) -> (yes: bool)
        ensures
            yes == (level_rank(*self) < level_rank(LogLevel::Warn)),
    {
        self.rank() < 2
    }
}

/// The text that reports a failed assertion, to be logged as fatal: the expression that
/// failed, the message given with it, and the file and line where it stands.
pub fn report_assertion_failure(expr: &str, msg: &str, file: &str, line: u32) -> (text: String)
    ensures
        text@ == assertion_failure_text(expr@, msg@, file@, line),
{
    let mut text = String::from_str("\n    Assertion: ");
    text.append(expr);
    text.append("\n    Message: '");
    text.append(msg);
    text.append("'\n    Location: ");
    text.append(file);
    text.append(":");
    push_decimal(&mut text, line as u128);
    assert(text@ =~= assertion_failure_text(expr@, msg@, file@, line));
    text
}

} // verus!
