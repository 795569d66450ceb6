//! The argument parser: reads an argument vector into a configuration, as
//! the grammar says.

use crate::local::cli::args::CliArgs;
use crate::local::cli::error::{ArgumentError, ArgumentErrorKind};
use crate::local::cli::grammar::{
    cluster_at, fault_at, given, initial, is_escape, is_hyphenated, is_long, is_short, long_name,
    long_value, occurs, parse_at, parsed, short_value, unknown, value_at, well_formed, with_flag,
    with_path, with_value,
};
use crate::local::cli::laws::law_parsed_is_valid;
use crate::local::cli::level::parse_log_level;
use crate::local::cli::options::{Kind, Opt};
use crate::text::{chars_of, scan_to};
use vstd::prelude::*;
use vstd::string::*;

verus! {

/// The characters of each argument of a vector.
pub open spec fn texts(args: Seq<&str>) -> Seq<Seq<char>> {
    args.map_values(|s: &str| s@)
}

/// The characters of a value that may be missing.
pub open spec fn value_view(value: Option<&str>) -> Option<Seq<char>> {
    match value {
        Some(v) => Some(v@),
        None => None,
    }
}

/// The failure of `kind` at the option `opt`.
fn failure_at(kind: ArgumentErrorKind, opt: Opt) -> (e: ArgumentError)
    ensures
        e@ == fault_at(kind, opt),
{
    let mut argument = String::from_str("--");
    argument.append(opt.long());
    ArgumentError { kind, argument }
}

impl CliArgs {
    /// The configuration of an empty command line.
    pub fn new() -> (args: CliArgs)
        ensures
            args@ == initial(),
            well_formed(args@),
    {
        let args = CliArgs {
            export_to_opml: false,
            export_to_opml2: false,
            refresh_on_start: false,
            import_from_opml: None,
            url_file: None,
            cache_file: None,
            config_file: None,
            queue_file: None,
            search_history_file: None,
            cmdline_history_file: None,
            vacuum: false,
            execute: Vec::new(),
            quiet: false,
            version: false,
            log_level: None,
            log_file: None,
            export_to_file: None,
            import_from_file: None,
            help: false,
            cleanup: false,
        };
        assert(args@.execute =~= Seq::empty());
        args
    }

    /// Whether `opt` was given, going by this configuration.
    pub fn has(&self, opt: Opt) -> (yes: bool)
        ensures
            yes == occurs(self@, opt),
    {
        match opt {
            Opt::ExportToOpml => self.export_to_opml,
            Opt::ExportToOpml2 => self.export_to_opml2,
            Opt::RefreshOnStart => self.refresh_on_start,
            Opt::ImportFromOpml => self.import_from_opml.is_some(),
            Opt::UrlFile => self.url_file.is_some(),
            Opt::CacheFile => self.cache_file.is_some(),
            Opt::ConfigFile => self.config_file.is_some(),
            Opt::QueueFile => self.queue_file.is_some(),
            Opt::SearchHistoryFile => self.search_history_file.is_some(),
            Opt::CmdlineHistoryFile => self.cmdline_history_file.is_some(),
            Opt::Vacuum => self.vacuum,
            Opt::Execute => self.execute.len() > 0,
            Opt::Quiet => self.quiet,
            Opt::Version => self.version,
            Opt::LogLevel => self.log_level.is_some(),
            Opt::LogFile => self.log_file.is_some(),
            Opt::ExportToFile => self.export_to_file.is_some(),
            Opt::ImportFromFile => self.import_from_file.is_some(),
            Opt::Help => self.help,
            Opt::Cleanup => self.cleanup,
        }
    }

    /// Sets the flag `opt`.
    fn set_flag(&mut self, opt: Opt)
        ensures
            final(self)@ == with_flag(old(self)@, opt),
    {
        match opt {
            Opt::ExportToOpml => {
                self.export_to_opml = true;
            },
            Opt::ExportToOpml2 => {
                self.export_to_opml2 = true;
            },
            Opt::RefreshOnStart => {
                self.refresh_on_start = true;
            },
            Opt::Vacuum => {
                self.vacuum = true;
            },
            Opt::Quiet => {
                self.quiet = true;
            },
            Opt::Version => {
                self.version = true;
            },
            Opt::Help => {
                self.help = true;
            },
            Opt::Cleanup => {
                self.cleanup = true;
            },
            _ => {},
        }
    }

    /// Sets the path-valued `opt` to `path`.
    fn set_path(&mut self, opt: Opt, path: &str)
        ensures
            final(self)@ == with_path(old(self)@, opt, path@),
    {
        match opt {
            Opt::ImportFromOpml => {
                self.import_from_opml = Some(path.to_owned());
            },
            Opt::UrlFile => {
                self.url_file = Some(path.to_owned());
            },
            Opt::CacheFile => {
                self.cache_file = Some(path.to_owned());
            },
            Opt::ConfigFile => {
                self.config_file = Some(path.to_owned());
            },
            Opt::QueueFile => {
                self.queue_file = Some(path.to_owned());
            },
            Opt::SearchHistoryFile => {
                self.search_history_file = Some(path.to_owned());
            },
            Opt::CmdlineHistoryFile => {
                self.cmdline_history_file = Some(path.to_owned());
            },
            Opt::LogFile => {
                self.log_file = Some(path.to_owned());
            },
            Opt::ExportToFile => {
                self.export_to_file = Some(path.to_owned());
            },
            Opt::ImportFromFile => {
                self.import_from_file = Some(path.to_owned());
            },
            _ => {},
        }
    }

    /// Gives `value` to `opt`, if it is a value that `opt` takes, and says
    /// whether it was.
    fn set_value(&mut self, opt: Opt, value: &str) -> (taken: bool)
        ensures
            match with_value(old(self)@, opt, value@) {
                Some(next) => taken && final(self)@ == next,
                None => !taken && final(self)@ == old(self)@,
            },
    {
        match opt.kind() {
            Kind::Flag => false,
            Kind::Path => {
                self.set_path(opt, value);
                true
            },
            Kind::Level => match parse_log_level(value) {
                Some(level) => {
                    self.log_level = Some(level);
                    true
                },
                None => false,
            },
            Kind::Command => {
                let ghost before = self@.execute;
                self.execute.push(value.to_owned());
                assert(self@.execute =~= before.push(value@));
                true
            },
        }
    }

    /// Takes one occurrence of `opt`, with the value that came with it, if
    /// any. A refused occurrence leaves the configuration as it was.
    pub fn give(&mut self, opt: Opt, value: Option<&str>) -> (r: Result<(), ArgumentError>)
        ensures
            match given(old(self)@, opt, value_view(value)) {
                Ok(next) => r is Ok && final(self)@ == next,
                Err(fault) => r matches Err(e) && e@ == fault && final(self)@ == old(self)@,
            },
            well_formed(old(self)@) ==> well_formed(final(self)@),
    {
        match opt.kind() {
            Kind::Flag => {
                if value.is_some() {
                    Err(failure_at(ArgumentErrorKind::UnexpectedValue, opt))
                } else if self.has(opt) {
                    Err(failure_at(ArgumentErrorKind::Repeated, opt))
                } else {
                    self.set_flag(opt);
                    Ok(())
                }
            },
            kind => match value {
                None => Err(failure_at(ArgumentErrorKind::MissingValue, opt)),
                Some(v) => {
                    let once = match kind {
                        Kind::Command => false,
                        _ => true,
                    };
                    if once && self.has(opt) {
                        Err(failure_at(ArgumentErrorKind::Repeated, opt))
                    } else if self.set_value(opt, v) {
                        Ok(())
                    } else {
                        Err(failure_at(ArgumentErrorKind::InvalidValue, opt))
                    }
                },
            },
        }
    }
}

/// The failure of an argument that the command line does not know.
fn unknown_argument(argument: String) -> (e: ArgumentError)
    ensures
        e@ == unknown(argument@),
{
    ArgumentError { kind: ArgumentErrorKind::UnknownArgument, argument }
}

/// Whether `token` begins like an option.
fn begins_like_option(token: &str) -> (yes: bool)
    ensures
        yes == is_hyphenated(token@),
{
    let chars = chars_of(token);
    chars.len() >= 2 && chars[0] == '-'
}

impl CliArgs {
    /// Gives `opt`, with which the `i`-th argument ended, the argument after
    /// it as its value. What is left to read begins two arguments on.
    fn take_value(&mut self, args: &[&str], i: usize, opt: Opt) -> (r: Result<(), ArgumentError>)
        requires
            i < args.len(),
        ensures
            match r {
                Ok(()) => i + 2 <= args.len() && parse_at(texts(args@), i + 2, final(self)@)
                    == value_at(texts(args@), i as int, old(self)@, opt),
                Err(e) => value_at(texts(args@), i as int, old(self)@, opt) matches Err(fault)
                    && fault == e@,
            },
    {
        if i + 1 < args.len() && !begins_like_option(args[i + 1]) {
            self.give(opt, Some(args[i + 1]))
        } else {
            Err(failure_at(ArgumentErrorKind::MissingValue, opt))
        }
    }

    /// Reads the `i`-th argument, an option by its long name, and says where
    /// the next argument to read stands.
    fn long_option(&mut self, args: &[&str], i: usize) -> (r: Result<usize, ArgumentError>)
        requires
            i < args.len(),
            is_long(texts(args@)[i as int]),
        ensures
            match r {
                Ok(next) => i < next <= args.len() && parse_at(
                    texts(args@),
                    next as int,
                    final(self)@,
                ) == parse_at(texts(args@), i as int, old(self)@),
                Err(e) => parse_at(texts(args@), i as int, old(self)@) matches Err(fault)
                    && fault == e@,
            },
    {
        let token = args[i];
        let chars = chars_of(token);
        let n = chars.len();
        let eq = scan_to(&chars, 2, '=');
        let name = token.substring_char(2, eq);
        proof {
            let body = token@.skip(2);
            assert(name@ =~= long_name(token@));
            if eq < n {
                assert(token@.subrange(eq + 1, n as int) =~= body.skip(eq - 2 + 1));
            }
        }
        match Opt::from_long(name) {
            None => {
                let mut argument = String::from_str("--");
                argument.append(name);
                Err(unknown_argument(argument))
            },
            Some(opt) => {
                let attached = if eq < n {
                    Some(token.substring_char(eq + 1, n))
                } else {
                    None
                };
                assert(value_view(attached) == long_value(token@));
                let alone = match opt.kind() {
                    Kind::Flag => true,
                    _ => attached.is_some(),
                };
                if alone {
                    match self.give(opt, attached) {
                        Ok(()) => Ok(i + 1),
                        Err(e) => Err(e),
                    }
                } else {
                    match self.take_value(args, i, opt) {
                        Ok(()) => Ok(i + 2),
                        Err(e) => Err(e),
                    }
                }
            },
        }
    }

    /// Reads the `i`-th argument, a cluster of short names, and says where
    /// the next argument to read stands.
    fn short_cluster(&mut self, args: &[&str], i: usize) -> (r: Result<usize, ArgumentError>)
        requires
            i < args.len(),
            is_short(texts(args@)[i as int]),
        ensures
            match r {
                Ok(next) => i < next <= args.len() && parse_at(
                    texts(args@),
                    next as int,
                    final(self)@,
                ) == parse_at(texts(args@), i as int, old(self)@),
                Err(e) => parse_at(texts(args@), i as int, old(self)@) matches Err(fault)
                    && fault == e@,
            },
    {
        let token = args[i];
        let chars = chars_of(token);
        let n = chars.len();
        let ghost argv = texts(args@);
        let ghost meaning = parse_at(argv, i as int, old(self)@);
        let mut j: usize = 1;
        while j < n
            invariant
                1 <= j <= n,
                i < args.len(),
                n == chars.len(),
                chars@ == token@,
                argv == texts(args@),
                token@ == argv[i as int],
                meaning == parse_at(argv, i as int, old(self)@),
                cluster_at(argv, i as int, j as int, self@) == meaning,
            decreases n - j,
        {
            match Opt::from_short(chars[j]) {
                None => {
                    let letter = token.substring_char(j, j + 1);
                    assert(letter@ =~= seq![chars@[j as int]]);
                    let mut argument = String::from_str("-");
                    argument.append(letter);
                    return Err(unknown_argument(argument));
                },
                Some(opt) => {
                    match opt.kind() {
                        Kind::Flag => {
                            match self.give(opt, None) {
                                Ok(()) => {},
                                Err(e) => {
                                    return Err(e);
                                },
                            }
                        },
                        _ => {
                            if j + 1 < n {
                                let from = if chars[j + 1] == '=' {
                                    j + 2
                                } else {
                                    j + 1
                                };
                                let value = token.substring_char(from, n);
                                proof {
                                    let rest = token@.skip(j + 1);
                                    assert(rest.first() == chars@[j + 1]);
                                    assert(value@ =~= short_value(rest));
                                }
                                return match self.give(opt, Some(value)) {
                                    Ok(()) => Ok(i + 1),
                                    Err(e) => Err(e),
                                };
                            } else {
                                return match self.take_value(args, i, opt) {
                                    Ok(()) => Ok(i + 2),
                                    Err(e) => Err(e),
                                };
                            }
                        },
                    }
                },
            }
            j += 1;
        }
        Ok(i + 1)
    }

    /// Reads an argument vector into a configuration.
    ///
    /// The first argument is the program's name. The result is the meaning
    /// that the grammar gives to the vector: the configuration, or the first
    /// fault met when the arguments are read in order. Nothing but the
    /// arguments is looked at: no path is checked against the file system.
    pub fn try_parse_from(args: &[&str]) -> (r: Result<CliArgs, ArgumentError>)
        ensures
            match parsed(texts(args@)) {
                Ok(cfg) => r matches Ok(a) && a@ == cfg,
                Err(fault) => r matches Err(e) && e@ == fault,
            },
            r matches Ok(a) ==> well_formed(a@),
    {
        proof {
            law_parsed_is_valid(texts(args@));
        }
        let mut cfg = CliArgs::new();
        let ghost argv = texts(args@);
        let mut i: usize = 1;
        while i < args.len()
            invariant
                1 <= i,
                argv == texts(args@),
                parse_at(argv, i as int, cfg@) == parsed(argv),
                parsed(argv) matches Ok(end) ==> well_formed(end),
            decreases args.len() - i,
        {
            let token = args[i];
            assert(token@ == argv[i as int]);
            let chars = chars_of(token);
            if chars.len() >= 2 && chars[0] == '-' {
                if chars[1] != '-' {
                    match cfg.short_cluster(args, i) {
                        Ok(next) => {
                            i = next;
                        },
                        Err(e) => {
                            return Err(e);
                        },
                    }
                } else if chars.len() > 2 {
                    match cfg.long_option(args, i) {
                        Ok(next) => {
                            i = next;
                        },
                        Err(e) => {
                            return Err(e);
                        },
                    }
                } else {
                    assert(is_escape(token@));
                    if i + 1 < args.len() {
                        return Err(unknown_argument(args[i + 1].to_owned()));
                    } else {
                        return Ok(cfg);
                    }
                }
            } else {
                return Err(unknown_argument(token.to_owned()));
            }
        }
        Ok(cfg)
    }
}

} // verus!
