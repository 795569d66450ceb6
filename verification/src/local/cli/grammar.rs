//! The grammar of the command line, as mathematics: what each argument
//! vector means, be it a configuration or a fault.
//!
//! An argument vector begins with the program's name. Each argument after it
//! is an option by its long name (`--name`, `--name=value`), a cluster of
//! options by their short names (`-abc`, `-uvalue`, `-u=value`), the value of
//! the option before it, or `--`, after which no option follows. The
//! configuration knows no operands, so an argument that is neither an option
//! nor the value of one is a fault.

use crate::local::cli::args::Config;
use crate::local::cli::error::{ArgumentErrorKind, Fault};
use crate::local::cli::level::{log_level_of, MAX_LOG_LEVEL, MIN_LOG_LEVEL};
use crate::local::cli::options::{by_long, by_short, display_of, kind_of, Kind, Opt};
use crate::text::span_before;
use vstd::prelude::*;

verus! {

/// The configuration of an empty command line: no flag is set, no value is
/// given, no command is to be executed.
pub open spec fn initial() -> Config {
    Config {
        export_to_opml: false,
        export_to_opml2: false,
        refresh_on_start: false,
        import_from_opml: None,
        url_file: None,
        cache_file: None,
        config_file: None,
        queue_file: None,
        search_history_file: None,
        cmdline_history_file: None,
        vacuum: false,
        execute: Seq::empty(),
        quiet: false,
        version: false,
        log_level: None,
        log_file: None,
        export_to_file: None,
        import_from_file: None,
        help: false,
        cleanup: false,
    }
}

/// Whether a configuration is valid: its log level, if it has one, lies
/// between 1 and 6.
pub open spec fn well_formed(cfg: Config) -> bool {
    cfg.log_level matches Some(level) ==> MIN_LOG_LEVEL <= level <= MAX_LOG_LEVEL
}

/// Whether `opt` was given, going by the configuration.
pub open spec fn occurs(cfg: Config, opt: Opt) -> bool {
    match opt {
        Opt::ExportToOpml => cfg.export_to_opml,
        Opt::ExportToOpml2 => cfg.export_to_opml2,
        Opt::RefreshOnStart => cfg.refresh_on_start,
        Opt::ImportFromOpml => cfg.import_from_opml is Some,
        Opt::UrlFile => cfg.url_file is Some,
        Opt::CacheFile => cfg.cache_file is Some,
        Opt::ConfigFile => cfg.config_file is Some,
        Opt::QueueFile => cfg.queue_file is Some,
        Opt::SearchHistoryFile => cfg.search_history_file is Some,
        Opt::CmdlineHistoryFile => cfg.cmdline_history_file is Some,
        Opt::Vacuum => cfg.vacuum,
        Opt::Execute => cfg.execute.len() > 0,
        Opt::Quiet => cfg.quiet,
        Opt::Version => cfg.version,
        Opt::LogLevel => cfg.log_level is Some,
        Opt::LogFile => cfg.log_file is Some,
        Opt::ExportToFile => cfg.export_to_file is Some,
        Opt::ImportFromFile => cfg.import_from_file is Some,
        Opt::Help => cfg.help,
        Opt::Cleanup => cfg.cleanup,
    }
}

/// `cfg` with the flag `opt` set. An option that is no flag changes nothing.
pub open spec fn with_flag(cfg: Config, opt: Opt) -> Config {
    match opt {
        Opt::ExportToOpml => Config { export_to_opml: true, ..cfg },
        Opt::ExportToOpml2 => Config { export_to_opml2: true, ..cfg },
        Opt::RefreshOnStart => Config { refresh_on_start: true, ..cfg },
        Opt::Vacuum => Config { vacuum: true, ..cfg },
        Opt::Quiet => Config { quiet: true, ..cfg },
        Opt::Version => Config { version: true, ..cfg },
        Opt::Help => Config { help: true, ..cfg },
        Opt::Cleanup => Config { cleanup: true, ..cfg },
        _ => cfg,
    }
}

/// `cfg` with the path-valued `opt` set to `path`, as the text stands. An
/// option that takes no path changes nothing.
pub open spec fn with_path(cfg: Config, opt: Opt, path: Seq<char>) -> Config {
    match opt {
        Opt::ImportFromOpml => Config { import_from_opml: Some(path), ..cfg },
        Opt::UrlFile => Config { url_file: Some(path), ..cfg },
        Opt::CacheFile => Config { cache_file: Some(path), ..cfg },
        Opt::ConfigFile => Config { config_file: Some(path), ..cfg },
        Opt::QueueFile => Config { queue_file: Some(path), ..cfg },
        Opt::SearchHistoryFile => Config { search_history_file: Some(path), ..cfg },
        Opt::CmdlineHistoryFile => Config { cmdline_history_file: Some(path), ..cfg },
        Opt::LogFile => Config { log_file: Some(path), ..cfg },
        Opt::ExportToFile => Config { export_to_file: Some(path), ..cfg },
        Opt::ImportFromFile => Config { import_from_file: Some(path), ..cfg },
        _ => cfg,
    }
}

/// `cfg` with `value` given to `opt`, or `None` where the value is not one
/// that `opt` takes. A path is any text. A log level is a number from 1 to
/// 6. A command is any text and joins the commands given before it.
pub open spec fn with_value(cfg: Config, opt: Opt, value: Seq<char>) -> Option<Config> {
    match kind_of(opt) {
        Kind::Flag => None,
        Kind::Path => Some(with_path(cfg, opt, value)),
        Kind::Level => match log_level_of(value) {
            Some(level) => Some(Config { log_level: Some(level), ..cfg }),
            None => None,
        },
        Kind::Command => Some(Config { execute: cfg.execute.push(value), ..cfg }),
    }
}

/// The fault of `kind` at the option `opt`.
pub open spec fn fault_at(kind: ArgumentErrorKind, opt: Opt) -> Fault {
    Fault { kind, argument: display_of(opt) }
}

/// The fault of an argument that the command line does not know.
pub open spec fn unknown(argument: Seq<char>) -> Fault {
    Fault { kind: ArgumentErrorKind::UnknownArgument, argument }
}

/// What one occurrence of `opt` does to `cfg`, with the value that came with
/// it, if any.
///
/// A flag takes no value and may be given once. Every other option needs a
/// value of its type and, unless it takes commands, may be given once.
pub open spec fn given(cfg: Config, opt: Opt, value: Option<Seq<char>>) -> Result<Config, Fault> {
    if kind_of(opt) is Flag {
        if value is Some {
            Err(fault_at(ArgumentErrorKind::UnexpectedValue, opt))
        } else if occurs(cfg, opt) {
            Err(fault_at(ArgumentErrorKind::Repeated, opt))
        } else {
            Ok(with_flag(cfg, opt))
        }
    } else {
        match value {
            None => Err(fault_at(ArgumentErrorKind::MissingValue, opt)),
            Some(v) => if !(kind_of(opt) is Command) && occurs(cfg, opt) {
                Err(fault_at(ArgumentErrorKind::Repeated, opt))
            } else {
                match with_value(cfg, opt, v) {
                    Some(next) => Ok(next),
                    None => Err(fault_at(ArgumentErrorKind::InvalidValue, opt)),
                }
            },
        }
    }
}

/// Whether `token` begins like an option: a hyphen and at least one more
/// character.
pub open spec fn is_hyphenated(token: Seq<char>) -> bool {
    token.len() >= 2 && token[0] == '-'
}

/// Whether `token` is `--`, which ends the options.
pub open spec fn is_escape(token: Seq<char>) -> bool {
    is_hyphenated(token) && token[1] == '-' && token.len() == 2
}

/// Whether `token` names an option by its long name.
pub open spec fn is_long(token: Seq<char>) -> bool {
    is_hyphenated(token) && token[1] == '-' && token.len() > 2
}

/// Whether `token` is a cluster of short names.
pub open spec fn is_short(token: Seq<char>) -> bool {
    is_hyphenated(token) && token[1] != '-'
}

/// The name in a long option: what stands between the two hyphens and the
/// first `=`, or the end.
pub open spec fn long_name(token: Seq<char>) -> Seq<char> {
    let body = token.skip(2);
    body.take(span_before(body, '=') as int)
}

/// The value attached to a long option: what follows the first `=`.
pub open spec fn long_value(token: Seq<char>) -> Option<Seq<char>> {
    let body = token.skip(2);
    let n = span_before(body, '=') as int;
    if n < body.len() {
        Some(body.skip(n + 1))
    } else {
        None
    }
}

/// The value attached to a short option: what follows the option's letter in
/// its cluster, without one leading `=`.
pub open spec fn short_value(rest: Seq<char>) -> Seq<char> {
    if rest.len() > 0 && rest.first() == '=' {
        rest.drop_first()
    } else {
        rest
    }
}

/// The meaning of the arguments from the `i`-th on, with `cfg` the
/// configuration that the arguments before them gave.
pub open spec fn parse_at(args: Seq<Seq<char>>, i: int, cfg: Config) -> Result<Config, Fault>
    decreases args.len() - i, args[i].len() + 1,
{
    if i < 0 || i >= args.len() {
        Ok(cfg)
    } else if is_escape(args[i]) {
        if i + 1 < args.len() {
            Err(unknown(args[i + 1]))
        } else {
            Ok(cfg)
        }
    } else if is_long(args[i]) {
        match by_long(long_name(args[i])) {
            None => Err(unknown("--"@ + long_name(args[i]))),
            Some(opt) => if kind_of(opt) is Flag || long_value(args[i]) is Some {
                match given(cfg, opt, long_value(args[i])) {
                    Ok(next) => parse_at(args, i + 1, next),
                    Err(fault) => Err(fault),
                }
            } else {
                value_at(args, i, cfg, opt)
            },
        }
    } else if is_short(args[i]) {
        cluster_at(args, i, 1, cfg)
    } else {
        Err(unknown(args[i]))
    }
}

/// The meaning of the arguments from the `i`-th on, where the `i`-th ended
/// in the option `opt`, which takes its value from the argument after it.
/// That argument must not begin like an option.
pub open spec fn value_at(args: Seq<Seq<char>>, i: int, cfg: Config, opt: Opt) -> Result<
    Config,
    Fault,
>
    decreases args.len() - i, 0nat,
{
    if 0 <= i && i + 1 < args.len() && !is_hyphenated(args[i + 1]) {
        match given(cfg, opt, Some(args[i + 1])) {
            Ok(next) => parse_at(args, i + 2, next),
            Err(fault) => Err(fault),
        }
    } else {
        Err(fault_at(ArgumentErrorKind::MissingValue, opt))
    }
}

/// The meaning of the arguments from the `i`-th on, a cluster of short
/// names, read from its `j`-th character.
///
/// A flag is followed by the next letter of the cluster. An option that
/// takes a value takes the rest of the cluster, or the next argument where
/// the cluster ends with it.
pub open spec fn cluster_at(args: Seq<Seq<char>>, i: int, j: int, cfg: Config) -> Result<
    Config,
    Fault,
>
    decreases args.len() - i, args[i].len() - j,
{
    if i < 0 || i >= args.len() {
        Ok(cfg)
    } else if j < 0 || j >= args[i].len() {
        parse_at(args, i + 1, cfg)
    } else {
        match by_short(args[i][j]) {
            None => Err(unknown("-"@ + seq![args[i][j]])),
            Some(opt) => if kind_of(opt) is Flag {
                match given(cfg, opt, None) {
                    Ok(next) => cluster_at(args, i, j + 1, next),
                    Err(fault) => Err(fault),
                }
            } else if j + 1 < args[i].len() {
                match given(cfg, opt, Some(short_value(args[i].skip(j + 1)))) {
                    Ok(next) => parse_at(args, i + 1, next),
                    Err(fault) => Err(fault),
                }
            } else {
                value_at(args, i, cfg, opt)
            },
        }
    }
}

/// The meaning of an argument vector. Its first argument is the program's
/// name and means nothing.
pub open spec fn parsed(args: Seq<Seq<char>>) -> Result<Config, Fault> {
    parse_at(args, 1, initial())
}

} // verus!
