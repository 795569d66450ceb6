//! What holds of every command line.

use crate::local::cli::args::Config;
use crate::local::cli::error::Fault;
use crate::local::cli::grammar::{
    cluster_at, given, initial, is_hyphenated, is_long, is_short, long_name, long_value, occurs,
    parse_at, parsed, value_at, well_formed, with_path, with_value,
};
use crate::local::cli::level::{law_log_level_range, log_level_of};
use crate::local::cli::options::{by_long, by_short, kind_of, long_of, Opt};
use crate::text::{decimal, lemma_span_walk, span_before};
use vstd::prelude::*;

verus! {

/// Whether `token` looks like an option and names none: a long name that the
/// option table does not hold, or a cluster whose first letter it does not
/// hold.
pub open spec fn names_no_option(token: Seq<char>) -> bool {
    ||| is_long(token) && by_long(long_name(token)) is None
    ||| is_short(token) && by_short(token[1]) is None
}

/// Reading from the `i`-th argument fails if an argument at or after it
/// looks like an option and names none.
proof fn lemma_refused_from(args: Seq<Seq<char>>, bad: int, i: int, cfg: Config)
    requires
        0 <= i <= bad < args.len(),
        names_no_option(args[bad]),
    ensures
        parse_at(args, i, cfg) is Err,
    decreases args.len() - i, args[i].len() + 1,
{
    if is_long(args[i]) {
        match by_long(long_name(args[i])) {
            None => {},
            Some(opt) => {
                if kind_of(opt) is Flag || long_value(args[i]) is Some {
                    match given(cfg, opt, long_value(args[i])) {
                        Ok(next) => {
                            lemma_refused_from(args, bad, i + 1, next);
                        },
                        Err(_) => {},
                    }
                } else {
                    lemma_refused_value(args, bad, i, cfg, opt);
                }
            },
        }
    } else if is_short(args[i]) {
        lemma_refused_cluster(args, bad, i, 1, cfg);
    }
}

/// As `lemma_refused_from`, where the `i`-th argument ended in an option
/// that takes the next argument as its value.
proof fn lemma_refused_value(args: Seq<Seq<char>>, bad: int, i: int, cfg: Config, opt: Opt)
    requires
        0 <= i < bad < args.len(),
        names_no_option(args[bad]),
    ensures
        value_at(args, i, cfg, opt) is Err,
    decreases args.len() - i, 0nat,
{
    if i + 1 < args.len() && !is_hyphenated(args[i + 1]) {
        match given(cfg, opt, Some(args[i + 1])) {
            Ok(next) => {
                lemma_refused_from(args, bad, i + 2, next);
            },
            Err(_) => {},
        }
    }
}

/// As `lemma_refused_from`, within the cluster of short names that the
/// `i`-th argument is.
proof fn lemma_refused_cluster(args: Seq<Seq<char>>, bad: int, i: int, j: int, cfg: Config)
    requires
        0 <= i <= bad < args.len(),
        names_no_option(args[bad]),
        is_short(args[i]),
        1 <= j,
        i == bad ==> j == 1,
    ensures
        cluster_at(args, i, j, cfg) is Err,
    decreases args.len() - i, args[i].len() - j,
{
    if j >= args[i].len() {
        lemma_refused_from(args, bad, i + 1, cfg);
    } else {
        match by_short(args[i][j]) {
            None => {},
            Some(opt) => {
                if kind_of(opt) is Flag {
                    match given(cfg, opt, None) {
                        Ok(next) => {
                            lemma_refused_cluster(args, bad, i, j + 1, next);
                        },
                        Err(_) => {},
                    }
                } else if j + 1 < args[i].len() {
                    match given(
                        cfg,
                        opt,
                        Some(crate::local::cli::grammar::short_value(args[i].skip(j + 1))),
                    ) {
                        Ok(next) => {
                            lemma_refused_from(args, bad, i + 1, next);
                        },
                        Err(_) => {},
                    }
                } else {
                    lemma_refused_value(args, bad, i, cfg, opt);
                }
            },
        }
    }
}

/// No unknown option is passed over. A command line in which any argument
/// after the program's name looks like an option and names none is refused,
/// wherever the argument stands and whatever stands around it.
pub proof fn law_unknown_option_is_refused(args: Seq<Seq<char>>, bad: int)
    requires
        1 <= bad < args.len(),
        names_no_option(args[bad]),
    ensures
        parsed(args) is Err,
{
    lemma_refused_from(args, bad, 1, initial());
}

/// Every long name names its own option, and none holds a `=`.
pub proof fn lemma_long_names(opt: Opt)
    ensures
        by_long(long_of(opt)) == Some(opt),
        long_of(opt).len() > 0,
        forall|k: int| 0 <= k < long_of(opt).len() ==> long_of(opt)[k] != '=',
{
    reveal_strlit("export-to-opml");
    reveal_strlit("export-to-opml2");
    reveal_strlit("refresh-on-start");
    reveal_strlit("import-from-opml");
    reveal_strlit("url-file");
    reveal_strlit("cache-file");
    reveal_strlit("config-file");
    reveal_strlit("queue-file");
    reveal_strlit("search-history-file");
    reveal_strlit("cmdline-history-file");
    reveal_strlit("vacuum");
    reveal_strlit("execute");
    reveal_strlit("quiet");
    reveal_strlit("version");
    reveal_strlit("log-level");
    reveal_strlit("log-file");
    reveal_strlit("export-to-file");
    reveal_strlit("import-from-file");
    reveal_strlit("help");
    reveal_strlit("cleanup");
    assert("export-to-opml"@.len() == 14 && "export-to-opml"@[0] == 'e');
    assert("export-to-opml2"@.len() == 15 && "export-to-opml2"@[0] == 'e');
    assert("refresh-on-start"@.len() == 16 && "refresh-on-start"@[0] == 'r');
    assert("import-from-opml"@.len() == 16 && "import-from-opml"@[0] == 'i');
    assert("url-file"@.len() == 8 && "url-file"@[0] == 'u');
    assert("cache-file"@.len() == 10 && "cache-file"@[0] == 'c');
    assert("config-file"@.len() == 11 && "config-file"@[0] == 'c');
    assert("queue-file"@.len() == 10 && "queue-file"@[0] == 'q');
    assert("search-history-file"@.len() == 19 && "search-history-file"@[0] == 's');
    assert("cmdline-history-file"@.len() == 20 && "cmdline-history-file"@[0] == 'c');
    assert("vacuum"@.len() == 6 && "vacuum"@[0] == 'v');
    assert("execute"@.len() == 7 && "execute"@[0] == 'e');
    assert("quiet"@.len() == 5 && "quiet"@[0] == 'q');
    assert("version"@.len() == 7 && "version"@[0] == 'v');
    assert("log-level"@.len() == 9 && "log-level"@[0] == 'l');
    assert("log-file"@.len() == 8 && "log-file"@[0] == 'l');
    assert("export-to-file"@.len() == 14 && "export-to-file"@[0] == 'e');
    assert("import-from-file"@.len() == 16 && "import-from-file"@[0] == 'i');
    assert("help"@.len() == 4 && "help"@[0] == 'h');
    assert("cleanup"@.len() == 7 && "cleanup"@[0] == 'c');
    assert("export-to-opml"@[10] == 'o' && "export-to-file"@[10] == 'f');
    assert("import-from-opml"@[12] == 'o' && "import-from-file"@[12] == 'f');
}

/// Long names and options go together: a name names an option exactly if it
/// is that option's long name. So no two options share a name.
pub proof fn law_long_names(opt: Opt, name: Seq<char>)
    ensures
        by_long(name) == Some(opt) <==> long_of(opt) == name,
{
    lemma_long_names(opt);
}

/// The argument `--name`, for the long name of `opt`, names `opt` and
/// carries no value.
pub proof fn lemma_long_token(opt: Opt)
    ensures
        is_long("--"@ + long_of(opt)),
        long_name("--"@ + long_of(opt)) == long_of(opt),
        long_value("--"@ + long_of(opt)) is None,
{
    reveal_strlit("--");
    lemma_long_names(opt);
    let name = long_of(opt);
    let token = "--"@ + name;
    let body = token.skip(2);
    assert(body =~= name);
    lemma_span_walk(body, '=', 0, body.len() as int);
    assert(body.skip(0) =~= body);
    assert(span_before(body.skip(body.len() as int), '=') == 0);
    assert(body.take(body.len() as int) =~= body);
}

/// A path is stored as it was given. For every path-valued option and every
/// text that does not begin like an option, the command line that holds the
/// option by its long name and then the text gives the configuration in
/// which that option is the text, letter for letter, and nothing else is
/// set.
pub proof fn law_path_is_stored_as_given(program: Seq<char>, opt: Opt, path: Seq<char>)
    requires
        kind_of(opt) is Path,
        !is_hyphenated(path),
    ensures
        parsed(seq![program, "--"@ + long_of(opt), path]) matches Ok(cfg) && cfg == with_path(
            initial(),
            opt,
            path,
        ),
{
    lemma_long_token(opt);
    lemma_long_names(opt);
    let args = seq![program, "--"@ + long_of(opt), path];
    let set = with_path(initial(), opt, path);
    assert(!occurs(initial(), opt));
    assert(with_value(initial(), opt, path) == Some(set));
    assert(given(initial(), opt, Some(path)) == Ok::<Config, Fault>(set));
    assert(parse_at(args, 3, set) == Ok::<Config, Fault>(set));
    assert(value_at(args, 1, initial(), opt) == Ok::<Config, Fault>(set));
    assert(is_long(args[1]) && by_long(long_name(args[1])) == Some(opt));
    assert(long_value(args[1]) is None);
    assert(parsed(args) == value_at(args, 1, initial(), opt));
}

/// The log level is taken exactly from 1 to 6. For every number, the command
/// line that holds `--log-level` and then the number, written in the usual
/// way, is accepted if and only if the number lies between 1 and 6, and then
/// the configured level is that number.
pub proof fn law_log_level_is_bounded(program: Seq<char>, n: nat)
    ensures
        parsed(seq![program, "--log-level"@, decimal(n)]) is Ok <==> 1 <= n <= 6,
        1 <= n <= 6 ==> (parsed(seq![program, "--log-level"@, decimal(n)]) matches Ok(cfg)
            && cfg.log_level == Some(n as u8)),
{
    let opt = Opt::LogLevel;
    lemma_long_token(opt);
    lemma_long_names(opt);
    law_log_level_range(n);
    crate::local::cli::level::lemma_decimal_is_read_back(n);
    reveal_strlit("--");
    reveal_strlit("log-level");
    reveal_strlit("--log-level");
    let token = "--log-level"@;
    assert(token =~= "--"@ + long_of(opt));
    let text = decimal(n);
    assert(!is_hyphenated(text)) by {
        assert(crate::local::cli::level::is_digit(text[0]));
    }
    let args = seq![program, token, text];
    assert(!occurs(initial(), opt));
    assert(is_long(args[1]) && by_long(long_name(args[1])) == Some(opt));
    assert(long_value(args[1]) is None);
    assert(parsed(args) == value_at(args, 1, initial(), opt));
    match log_level_of(text) {
        Some(level) => {
            let set = Config { log_level: Some(level), ..initial() };
            assert(with_value(initial(), opt, text) == Some(set));
            assert(given(initial(), opt, Some(text)) == Ok::<Config, Fault>(
                set,
            ));
            assert(parse_at(args, 3, set) == Ok::<Config, Fault>(set));
            assert(value_at(args, 1, initial(), opt) == Ok::<Config, Fault>(
                set,
            ));
        },
        None => {
            assert(with_value(initial(), opt, text) is None);
            assert(given(initial(), opt, Some(text)) is Err);
            assert(value_at(args, 1, initial(), opt) is Err);
        },
    }
}

/// Reading on from a valid configuration ends in a valid configuration.
proof fn lemma_valid_from(args: Seq<Seq<char>>, i: int, cfg: Config)
    requires
        well_formed(cfg),
    ensures
        parse_at(args, i, cfg) matches Ok(end) ==> well_formed(end),
    decreases args.len() - i, args[i].len() + 1,
{
    if 0 <= i < args.len() {
        if is_long(args[i]) {
            match by_long(long_name(args[i])) {
                None => {},
                Some(opt) => {
                    if kind_of(opt) is Flag || long_value(args[i]) is Some {
                        match given(cfg, opt, long_value(args[i])) {
                            Ok(next) => {
                                lemma_valid_from(args, i + 1, next);
                            },
                            Err(_) => {},
                        }
                    } else {
                        lemma_valid_value(args, i, cfg, opt);
                    }
                },
            }
        } else if is_short(args[i]) {
            lemma_valid_cluster(args, i, 1, cfg);
        }
    }
}

/// As `lemma_valid_from`, where the `i`-th argument ended in an option that
/// takes the next argument as its value.
proof fn lemma_valid_value(args: Seq<Seq<char>>, i: int, cfg: Config, opt: Opt)
    requires
        well_formed(cfg),
    ensures
        value_at(args, i, cfg, opt) matches Ok(end) ==> well_formed(end),
    decreases args.len() - i, 0nat,
{
    if 0 <= i && i + 1 < args.len() && !is_hyphenated(args[i + 1]) {
        match given(cfg, opt, Some(args[i + 1])) {
            Ok(next) => {
                lemma_valid_from(args, i + 2, next);
            },
            Err(_) => {},
        }
    }
}

/// As `lemma_valid_from`, within the cluster of short names that the `i`-th
/// argument is.
proof fn lemma_valid_cluster(args: Seq<Seq<char>>, i: int, j: int, cfg: Config)
    requires
        well_formed(cfg),
    ensures
        cluster_at(args, i, j, cfg) matches Ok(end) ==> well_formed(end),
    decreases args.len() - i, args[i].len() - j,
{
    if 0 <= i < args.len() {
        if j < 0 || j >= args[i].len() {
            lemma_valid_from(args, i + 1, cfg);
        } else {
            match by_short(args[i][j]) {
                None => {},
                Some(opt) => {
                    if kind_of(opt) is Flag {
                        match given(cfg, opt, None) {
                            Ok(next) => {
                                lemma_valid_cluster(args, i, j + 1, next);
                            },
                            Err(_) => {},
                        }
                    } else if j + 1 < args[i].len() {
                        match given(
                            cfg,
                            opt,
                            Some(crate::local::cli::grammar::short_value(args[i].skip(j + 1))),
                        ) {
                            Ok(next) => {
                                lemma_valid_from(args, i + 1, next);
                            },
                            Err(_) => {},
                        }
                    } else {
                        lemma_valid_value(args, i, cfg, opt);
                    }
                },
            }
        }
    }
}

/// Every configuration that a command line gives is valid: no command line
/// gives a log level below 1 or above 6.
pub proof fn law_parsed_is_valid(args: Seq<Seq<char>>)
    ensures
        parsed(args) matches Ok(cfg) ==> well_formed(cfg),
{
    lemma_valid_from(args, 1, initial());
}

} // verus!
