//! The entry point's decisions: what a run does, how its logging is set up,
//! and with which code the process ends.

use crate::failure::{fatal, Failure, IngestError};
use crate::local::cli::args::{text_of, CliArgs, Config};
use crate::logging::{
    default_filter, filter_for, passes, Level, LevelFilter, Record, RecordView,
};
use vstd::prelude::*;
use vstd::string::*;

verus! {

/// The exit code of a run that ended well: help or version shown, or the
/// url-file ingested, be it with feeds that failed.
pub const EXIT_OK: u8 = 0;

/// The exit code of a run that a fatal failure ended.
pub const EXIT_FAILURE: u8 = 1;

/// The exit code of a run whose arguments were refused.
pub const EXIT_USAGE: u8 = 2;

/// What a run does.
#[derive(Debug, Clone, PartialEq, Eq)]
pub enum Startup {
    /// Print the usage and end.
    Help,
    /// Print the version and end.
    Version,
    /// Set up the session and ingest the url-file, if one is named.
    Run { url_file: Option<String> },
}

/// What a `Startup` says.
pub ghost enum Plan {
    Help,
    Version,
    Run { url_file: Option<Seq<char>> },
}

impl View for Startup {
    type V = Plan;

    open spec fn view(&self) -> Plan {
        match self {
            Startup::Help => Plan::Help,
            Startup::Version => Plan::Version,
            Startup::Run { url_file } => Plan::Run { url_file: text_of(*url_file) },
        }
    }
}

/// What a run with the configuration `cfg` does. Help goes before version,
/// and both go before everything else: with either set, nothing is set up
/// and nothing is ingested.
pub open spec fn plan_of(cfg: Config) -> Plan {
    if cfg.help {
        Plan::Help
    } else if cfg.version {
        Plan::Version
    } else {
        Plan::Run { url_file: cfg.url_file }
    }
}

/// The url-file that a plan has ingested, if any.
pub open spec fn ingested(plan: Plan) -> Option<Seq<char>> {
    match plan {
        Plan::Run { url_file } => url_file,
        _ => None,
    }
}

/// The session of one run: the filter to install, and the records that are
/// logged first and last. No filter means that the environment names the
/// filters and they stand as they are.
#[derive(Debug, Clone, PartialEq, Eq)]
pub struct Session {
    pub filter: Option<LevelFilter>,
    pub greeting: Record,
    pub farewell: Record,
}

/// What a `Session` says.
pub ghost struct SessionView {
    pub filter: Option<LevelFilter>,
    pub greeting: RecordView,
    pub farewell: RecordView,
}

impl View for Session {
    type V = SessionView;

    open spec fn view(&self) -> SessionView {
        SessionView { filter: self.filter, greeting: self.greeting@, farewell: self.farewell@ }
    }
}

/// The filter to install for a configured log level. A configured level
/// selects its filter, whatever the environment says. Without one, a silent
/// environment gets the default, `info`, and an environment that names its
/// filters keeps them: nothing is installed over them.
pub open spec fn filter_of(level: Option<u8>, environment_silent: bool) -> Option<LevelFilter> {
    match level {
        Some(n) => Some(filter_for(n)),
        None => if environment_silent {
            Some(LevelFilter::Info)
        } else {
            None
        },
    }
}

/// The session of a run with the log level `level`. Start and stop are
/// announced as `info` records.
pub open spec fn session_of(level: Option<u8>, environment_silent: bool) -> SessionView {
    SessionView {
        filter: filter_of(level, environment_silent),
        greeting: RecordView { level: Level::Info, message: "irontide: Hello world"@ },
        farewell: RecordView { level: Level::Info, message: "irontide stopped"@ },
    }
}

/// Whether `record` is written in `session`: the session installs a filter
/// and the filter lets the record's level through.
pub open spec fn is_written(session: SessionView, record: RecordView) -> bool {
    session.filter matches Some(filter) && passes(filter, record.level)
}

/// The line that tells the version.
pub open spec fn version_text() -> Seq<char> {
    "irontide 0.1.0"@
}

/// The exit code of a run that ended with `failure`, or with none.
pub open spec fn code_of(failure: Option<Failure>) -> u8 {
    match failure {
        Some(f) => if fatal(f) {
            EXIT_FAILURE
        } else {
            EXIT_OK
        },
        None => EXIT_OK,
    }
}

/// Decides what the run does.
pub fn startup(args: &CliArgs) -> (plan: Startup)
    ensures
        plan@ == plan_of(args@),
        args.help || args.version ==> ingested(plan@) is None,
{
    if args.help {
        Startup::Help
    } else if args.version {
        Startup::Version
    } else {
        Startup::Run { url_file: args.url_file.clone() }
    }
}

/// The line that tells the version.
pub fn version_line() -> (line: String)
    ensures
        line@ == version_text(),
{
    String::from_str("irontide 0.1.0")
}

/// Chooses the log filter to install. `environment_silent` says that the
/// environment names no filter.
pub fn setup_logging(level: Option<u8>, environment_silent: bool) -> (filter: Option<LevelFilter>)
    ensures
        filter == filter_of(level, environment_silent),
{
    match level {
        Some(n) => Some(LevelFilter::from_log_level(n)),
        None => if environment_silent {
            Some(default_filter())
        } else {
            None
        },
    }
}

/// Sets up the session of a run: the log filter to install, the record that
/// announces the start and the record that announces the stop. The caller
/// installs the filter, logs the first record at once and the second when
/// the run ends.
pub fn init(args: &CliArgs, environment_silent: bool) -> (session: Session)
    ensures
        session@ == session_of(args@.log_level, environment_silent),
{
    Session {
        filter: setup_logging(args.log_level, environment_silent),
        greeting: Record { level: Level::Info, message: String::from_str("irontide: Hello world") },
        farewell: Record { level: Level::Info, message: String::from_str("irontide stopped") },
    }
}

/// The start is announced exactly where `info` passes. In a silent
/// environment the greeting is written if no log level is configured, or 5
/// or 6, and with every other level it is held back. The same holds of the
/// farewell.
pub proof fn law_greeting_is_written(level: Option<u8>)
    ensures
        is_written(session_of(level, true), session_of(level, true).greeting) <==> (level is None
            || level == Some(5u8) || level == Some(6u8)),
        is_written(session_of(level, true), session_of(level, true).farewell) == is_written(
            session_of(level, true),
            session_of(level, true).greeting,
        ),
{
}

/// The exit code of a run that ended with `failure`, or with none. Only a
/// fatal failure makes it other than zero.
pub fn exit_code(failure: Option<&IngestError>) -> (code: u8)
    ensures
        code == code_of(
            match failure {
                Some(e) => Some(e@),
                None => None,
            },
        ),
{
    match failure {
        Some(e) => if e.is_fatal() {
            EXIT_FAILURE
        } else {
            EXIT_OK
        },
        None => EXIT_OK,
    }
}

} // verus!
