//! Leveled logging: the filter that a log level selects, which records it
//! lets through, the label and colour of each level, and how a line is laid
//! out.
//!
//! Nothing here writes: the functions decide, and the caller owns the sink.

use vstd::prelude::*;
use vstd::string::*;

verus! {

/// The severity of one log message, most severe first.
#[derive(Debug, Clone, Copy, PartialEq, Eq, Structural)]
pub enum Level {
    Error,
    Warn,
    Info,
    Debug,
    Trace,
}

/// The least severe level that is still written.
#[derive(Debug, Clone, Copy, PartialEq, Eq, Structural)]
pub enum LevelFilter {
    Error,
    Warn,
    Info,
    Debug,
}

/// The colour in which a level's label is shown.
#[derive(Debug, Clone, Copy, PartialEq, Eq, Structural)]
pub enum Colour {
    Red,
    Yellow,
    Green,
    Blue,
    Cyan,
}

/// The filter that a numeric log level selects: 6 is debug, 5 is info, 4 is
/// warn, and every other number is error.
pub open spec fn filter_for(level: u8) -> LevelFilter {
    if level == 6 {
        LevelFilter::Debug
    } else if level == 5 {
        LevelFilter::Info
    } else if level == 4 {
        LevelFilter::Warn
    } else {
        LevelFilter::Error
    }
}

/// The rank of a level: the more severe, the smaller.
pub open spec fn rank(level: Level) -> int {
    match level {
        Level::Error => 1,
        Level::Warn => 2,
        Level::Info => 3,
        Level::Debug => 4,
        Level::Trace => 5,
    }
}

/// The rank of the least severe level that a filter lets through.
pub open spec fn threshold(filter: LevelFilter) -> int {
    match filter {
        LevelFilter::Error => 1,
        LevelFilter::Warn => 2,
        LevelFilter::Info => 3,
        LevelFilter::Debug => 4,
    }
}

/// Whether a record of `level` is written under `filter`: it is, unless it
/// is less severe than the filter's level.
pub open spec fn passes(filter: LevelFilter, level: Level) -> bool {
    rank(level) <= threshold(filter)
}

/// One log record: its severity and what it says.
#[derive(Debug, Clone, PartialEq, Eq)]
pub struct Record {
    pub level: Level,
    pub message: String,
}

/// What a `Record` says.
pub ghost struct RecordView {
    pub level: Level,
    pub message: Seq<char>,
}

impl View for Record {
    type V = RecordView;

    open spec fn view(&self) -> RecordView {
        RecordView { level: self.level, message: self.message@ }
    }
}

/// The filter that applies where neither the configuration nor the
/// environment names one.
pub fn default_filter() -> (filter: LevelFilter)
    ensures
        filter == LevelFilter::Info,
{
    LevelFilter::Info
}

/// The label of a level, as it stands in a log line.
pub open spec fn label_of(level: Level) -> Seq<char> {
    match level {
        Level::Error => "ERROR"@,
        Level::Warn => "WARN"@,
        Level::Info => "INFO"@,
        Level::Debug => "DEBUG"@,
        Level::Trace => "TRACE"@,
    }
}

/// The colour of a level's label.
pub open spec fn colour_of(level: Level) -> Colour {
    match level {
        Level::Error => Colour::Red,
        Level::Warn => Colour::Yellow,
        Level::Info => Colour::Green,
        Level::Debug => Colour::Blue,
        Level::Trace => Colour::Cyan,
    }
}

/// One log line: the time stamp, the label in square brackets, the message.
pub open spec fn line_of(timestamp: Seq<char>, label: Seq<char>, message: Seq<char>) -> Seq<char> {
    timestamp + " ["@ + label + "] "@ + message
}

impl LevelFilter {
    /// The filter for a numeric log level.
    pub fn from_log_level(level: u8) -> (filter: LevelFilter)
        ensures
            filter == filter_for(level),
    {
        match level {
            6 => LevelFilter::Debug,
            5 => LevelFilter::Info,
            4 => LevelFilter::Warn,
            _ => LevelFilter::Error,
        }
    }
}

impl LevelFilter {
    /// Whether a record of `level` is written under this filter.
    pub fn allows(self, level: Level) -> (yes: bool)
        ensures
            yes == passes(self, level),
    {
        let rank: u8 = match level {
            Level::Error => 1,
            Level::Warn => 2,
            Level::Info => 3,
            Level::Debug => 4,
            Level::Trace => 5,
        };
        let threshold: u8 = match self {
            LevelFilter::Error => 1,
            LevelFilter::Warn => 2,
            LevelFilter::Info => 3,
            LevelFilter::Debug => 4,
        };
        rank <= threshold
    }
}

impl Level {
    /// The label of this level.
    pub fn label(self) -> (s: &'static str)
        ensures
            s@ == label_of(self),
    {
        match self {
            Level::Error => "ERROR",
            Level::Warn => "WARN",
            Level::Info => "INFO",
            Level::Debug => "DEBUG",
            Level::Trace => "TRACE",
        }
    }

    /// The colour of this level's label.
    pub fn colour(self) -> (c: Colour)
        ensures
            c == colour_of(self),
    {
        match self {
            Level::Error => Colour::Red,
            Level::Warn => Colour::Yellow,
            Level::Info => Colour::Green,
            Level::Debug => Colour::Blue,
            Level::Trace => Colour::Cyan,
        }
    }
}

/// Lays out one log line from its three parts. `label` is the level's label,
/// already coloured where the sink shows colour.
pub fn format_line(timestamp: &str, label: &str, message: &str) -> (line: String)
    ensures
        line@ == line_of(timestamp@, label@, message@),
{
    let mut line = String::from_str(timestamp);
    line.append(" [");
    line.append(label);
    line.append("] ");
    line.append(message);
    line
}

} // verus!
