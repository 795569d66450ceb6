//! The option table: every option that the command line knows, with its
//! names and with what it takes.

use crate::text::same_text;
use vstd::prelude::*;

verus! {

/// An option of the command line.
#[derive(Debug, Clone, Copy, PartialEq, Eq, Structural)]
pub enum Opt {
    /// `-e`, `--export-to-opml`: export the feeds as OPML.
    ExportToOpml,
    /// `--export-to-opml2`: export the feeds as OPML 2.0, with tags.
    ExportToOpml2,
    /// `-r`, `--refresh-on-start`: refresh the feeds on start.
    RefreshOnStart,
    /// `-i`, `--import-from-opml <file>`: import an OPML file.
    ImportFromOpml,
    /// `-u`, `--url-file <file>`: read the feed URLs from a file.
    UrlFile,
    /// `-c`, `--cache-file <file>`: the cache file.
    CacheFile,
    /// `-C`, `--config-file <file>`: the configuration file.
    ConfigFile,
    /// `--queue-file <file>`: the podcast queue file.
    QueueFile,
    /// `--search-history-file <file>`: where the search history is kept.
    SearchHistoryFile,
    /// `--cmdline-history-file <file>`: where the command-line history is kept.
    CmdlineHistoryFile,
    /// `-X`, `--vacuum`: compact the cache.
    Vacuum,
    /// `-x`, `--execute <command>`: a command to execute; may be given many times.
    Execute,
    /// `-q`, `--quiet`: quiet startup.
    Quiet,
    /// `-v`, `--version`: print the version.
    Version,
    /// `-l`, `--log-level <1-6>`: the log level.
    LogLevel,
    /// `-d`, `--log-file <file>`: the log file.
    LogFile,
    /// `-E`, `--export-to-file <file>`: export the list of read articles.
    ExportToFile,
    /// `-I`, `--import-from-file <file>`: import a list of read articles.
    ImportFromFile,
    /// `-h`, `--help`: print the usage.
    Help,
    /// `--cleanup`: remove unreferenced items from the cache.
    Cleanup,
}

/// What an option takes.
#[derive(Debug, Clone, Copy, PartialEq, Eq, Structural)]
pub enum Kind {
    /// Nothing: the option is set or not.
    Flag,
    /// A path, kept as the text that was given.
    Path,
    /// A log level.
    Level,
    /// A command; the option may be given many times.
    Command,
}

/// What `opt` takes.
pub open spec fn kind_of(opt: Opt) -> Kind {
    match opt {
        Opt::ExportToOpml => Kind::Flag,
        Opt::ExportToOpml2 => Kind::Flag,
        Opt::RefreshOnStart => Kind::Flag,
        Opt::ImportFromOpml => Kind::Path,
        Opt::UrlFile => Kind::Path,
        Opt::CacheFile => Kind::Path,
        Opt::ConfigFile => Kind::Path,
        Opt::QueueFile => Kind::Path,
        Opt::SearchHistoryFile => Kind::Path,
        Opt::CmdlineHistoryFile => Kind::Path,
        Opt::Vacuum => Kind::Flag,
        Opt::Execute => Kind::Command,
        Opt::Quiet => Kind::Flag,
        Opt::Version => Kind::Flag,
        Opt::LogLevel => Kind::Level,
        Opt::LogFile => Kind::Path,
        Opt::ExportToFile => Kind::Path,
        Opt::ImportFromFile => Kind::Path,
        Opt::Help => Kind::Flag,
        Opt::Cleanup => Kind::Flag,
    }
}

/// The long name of `opt`, without the two hyphens.
pub open spec fn long_of(opt: Opt) -> Seq<char> {
    match opt {
        Opt::ExportToOpml => "export-to-opml"@,
        Opt::ExportToOpml2 => "export-to-opml2"@,
        Opt::RefreshOnStart => "refresh-on-start"@,
        Opt::ImportFromOpml => "import-from-opml"@,
        Opt::UrlFile => "url-file"@,
        Opt::CacheFile => "cache-file"@,
        Opt::ConfigFile => "config-file"@,
        Opt::QueueFile => "queue-file"@,
        Opt::SearchHistoryFile => "search-history-file"@,
        Opt::CmdlineHistoryFile => "cmdline-history-file"@,
        Opt::Vacuum => "vacuum"@,
        Opt::Execute => "execute"@,
        Opt::Quiet => "quiet"@,
        Opt::Version => "version"@,
        Opt::LogLevel => "log-level"@,
        Opt::LogFile => "log-file"@,
        Opt::ExportToFile => "export-to-file"@,
        Opt::ImportFromFile => "import-from-file"@,
        Opt::Help => "help"@,
        Opt::Cleanup => "cleanup"@,
    }
}

/// The short name of `opt`, if it has one.
pub open spec fn short_of(opt: Opt) -> Option<char> {
    match opt {
        Opt::ExportToOpml => Some('e'),
        Opt::ExportToOpml2 => None,
        Opt::RefreshOnStart => Some('r'),
        Opt::ImportFromOpml => Some('i'),
        Opt::UrlFile => Some('u'),
        Opt::CacheFile => Some('c'),
        Opt::ConfigFile => Some('C'),
        Opt::QueueFile => None,
        Opt::SearchHistoryFile => None,
        Opt::CmdlineHistoryFile => None,
        Opt::Vacuum => Some('X'),
        Opt::Execute => Some('x'),
        Opt::Quiet => Some('q'),
        Opt::Version => Some('v'),
        Opt::LogLevel => Some('l'),
        Opt::LogFile => Some('d'),
        Opt::ExportToFile => Some('E'),
        Opt::ImportFromFile => Some('I'),
        Opt::Help => Some('h'),
        Opt::Cleanup => None,
    }
}

/// The option with the long name `name`. Names are matched whole and with
/// their case: no abbreviation names an option.
pub open spec fn by_long(name: Seq<char>) -> Option<Opt> {
    if name == "export-to-opml"@ {
        Some(Opt::ExportToOpml)
    } else if name == "export-to-opml2"@ {
        Some(Opt::ExportToOpml2)
    } else if name == "refresh-on-start"@ {
        Some(Opt::RefreshOnStart)
    } else if name == "import-from-opml"@ {
        Some(Opt::ImportFromOpml)
    } else if name == "url-file"@ {
        Some(Opt::UrlFile)
    } else if name == "cache-file"@ {
        Some(Opt::CacheFile)
    } else if name == "config-file"@ {
        Some(Opt::ConfigFile)
    } else if name == "queue-file"@ {
        Some(Opt::QueueFile)
    } else if name == "search-history-file"@ {
        Some(Opt::SearchHistoryFile)
    } else if name == "cmdline-history-file"@ {
        Some(Opt::CmdlineHistoryFile)
    } else if name == "vacuum"@ {
        Some(Opt::Vacuum)
    } else if name == "execute"@ {
        Some(Opt::Execute)
    } else if name == "quiet"@ {
        Some(Opt::Quiet)
    } else if name == "version"@ {
        Some(Opt::Version)
    } else if name == "log-level"@ {
        Some(Opt::LogLevel)
    } else if name == "log-file"@ {
        Some(Opt::LogFile)
    } else if name == "export-to-file"@ {
        Some(Opt::ExportToFile)
    } else if name == "import-from-file"@ {
        Some(Opt::ImportFromFile)
    } else if name == "help"@ {
        Some(Opt::Help)
    } else if name == "cleanup"@ {
        Some(Opt::Cleanup)
    } else {
        None
    }
}

/// The option with the short name `c`.
pub open spec fn by_short(c: char) -> Option<Opt> {
    if c == 'e' {
        Some(Opt::ExportToOpml)
    } else if c == 'r' {
        Some(Opt::RefreshOnStart)
    } else if c == 'i' {
        Some(Opt::ImportFromOpml)
    } else if c == 'u' {
        Some(Opt::UrlFile)
    } else if c == 'c' {
        Some(Opt::CacheFile)
    } else if c == 'C' {
        Some(Opt::ConfigFile)
    } else if c == 'X' {
        Some(Opt::Vacuum)
    } else if c == 'x' {
        Some(Opt::Execute)
    } else if c == 'q' {
        Some(Opt::Quiet)
    } else if c == 'v' {
        Some(Opt::Version)
    } else if c == 'l' {
        Some(Opt::LogLevel)
    } else if c == 'd' {
        Some(Opt::LogFile)
    } else if c == 'E' {
        Some(Opt::ExportToFile)
    } else if c == 'I' {
        Some(Opt::ImportFromFile)
    } else if c == 'h' {
        Some(Opt::Help)
    } else {
        None
    }
}

/// What `opt` does, in the words of the usage.
pub open spec fn help_of(opt: Opt) -> Seq<char> {
    match opt {
        Opt::ExportToOpml => "export OPML feed to stdout"@,
        Opt::ExportToOpml2 => "export OPML 2.0 feed including tags to stdout"@,
        Opt::RefreshOnStart => "refresh feeds on start"@,
        Opt::ImportFromOpml => "import OPML file"@,
        Opt::UrlFile => "read RSS feed URLs from file"@,
        Opt::CacheFile => "use file as cache file"@,
        Opt::ConfigFile => "read configuration from file"@,
        Opt::QueueFile => "use file as podcast queue file"@,
        Opt::SearchHistoryFile => "save search history to file"@,
        Opt::CmdlineHistoryFile => "save command-line history to file"@,
        Opt::Vacuum => "compact the cache"@,
        Opt::Execute => "execute list of commands"@,
        Opt::Quiet => "quiet startup"@,
        Opt::Version => "print version information"@,
        Opt::LogLevel => "write a log with given log level (1-6)"@,
        Opt::LogFile => "use file as output log file"@,
        Opt::ExportToFile => "export list of read articles to file"@,
        Opt::ImportFromFile => "import list of read articles from file"@,
        Opt::Help => "display help message"@,
        Opt::Cleanup => "remove unreferenced items from cache"@,
    }
}

/// The name under which the usage shows the value of `opt`, if it takes one.
pub open spec fn value_name_of(opt: Opt) -> Option<Seq<char>> {
    match kind_of(opt) {
        Kind::Flag => None,
        Kind::Path => Some("file"@),
        Kind::Level => Some("loglevel"@),
        Kind::Command => Some("command"@),
    }
}

/// Every option, in the order of the usage.
pub open spec fn all_options() -> Seq<Opt> {
    seq![
        Opt::ExportToOpml,
        Opt::ExportToOpml2,
        Opt::RefreshOnStart,
        Opt::ImportFromOpml,
        Opt::UrlFile,
        Opt::CacheFile,
        Opt::ConfigFile,
        Opt::QueueFile,
        Opt::SearchHistoryFile,
        Opt::CmdlineHistoryFile,
        Opt::Vacuum,
        Opt::Execute,
        Opt::Quiet,
        Opt::Version,
        Opt::LogLevel,
        Opt::LogFile,
        Opt::ExportToFile,
        Opt::ImportFromFile,
        Opt::Help,
        Opt::Cleanup,
    ]
}

/// The way an option is named in a message: its long name after two hyphens.
pub open spec fn display_of(opt: Opt) -> Seq<char> {
    "--"@ + long_of(opt)
}

impl Opt {
    /// What this option takes.
    pub fn kind(self) -> (kind: Kind)
        ensures
            kind == kind_of(self),
    {
        match self {
            Opt::ExportToOpml => Kind::Flag,
            Opt::ExportToOpml2 => Kind::Flag,
            Opt::RefreshOnStart => Kind::Flag,
            Opt::ImportFromOpml => Kind::Path,
            Opt::UrlFile => Kind::Path,
            Opt::CacheFile => Kind::Path,
            Opt::ConfigFile => Kind::Path,
            Opt::QueueFile => Kind::Path,
            Opt::SearchHistoryFile => Kind::Path,
            Opt::CmdlineHistoryFile => Kind::Path,
            Opt::Vacuum => Kind::Flag,
            Opt::Execute => Kind::Command,
            Opt::Quiet => Kind::Flag,
            Opt::Version => Kind::Flag,
            Opt::LogLevel => Kind::Level,
            Opt::LogFile => Kind::Path,
            Opt::ExportToFile => Kind::Path,
            Opt::ImportFromFile => Kind::Path,
            Opt::Help => Kind::Flag,
            Opt::Cleanup => Kind::Flag,
        }
    }

    /// The long name of this option, without the two hyphens.
    pub fn long(self) -> (name: &'static str)
        ensures
            name@ == long_of(self),
    {
        match self {
            Opt::ExportToOpml => "export-to-opml",
            Opt::ExportToOpml2 => "export-to-opml2",
            Opt::RefreshOnStart => "refresh-on-start",
            Opt::ImportFromOpml => "import-from-opml",
            Opt::UrlFile => "url-file",
            Opt::CacheFile => "cache-file",
            Opt::ConfigFile => "config-file",
            Opt::QueueFile => "queue-file",
            Opt::SearchHistoryFile => "search-history-file",
            Opt::CmdlineHistoryFile => "cmdline-history-file",
            Opt::Vacuum => "vacuum",
            Opt::Execute => "execute",
            Opt::Quiet => "quiet",
            Opt::Version => "version",
            Opt::LogLevel => "log-level",
            Opt::LogFile => "log-file",
            Opt::ExportToFile => "export-to-file",
            Opt::ImportFromFile => "import-from-file",
            Opt::Help => "help",
            Opt::Cleanup => "cleanup",
        }
    }

    /// The short name of this option, if it has one.
    pub fn short(self) -> (name: Option<char>)
        ensures
            name == short_of(self),
    {
        match self {
            Opt::ExportToOpml => Some('e'),
            Opt::ExportToOpml2 => None,
            Opt::RefreshOnStart => Some('r'),
            Opt::ImportFromOpml => Some('i'),
            Opt::UrlFile => Some('u'),
            Opt::CacheFile => Some('c'),
            Opt::ConfigFile => Some('C'),
            Opt::QueueFile => None,
            Opt::SearchHistoryFile => None,
            Opt::CmdlineHistoryFile => None,
            Opt::Vacuum => Some('X'),
            Opt::Execute => Some('x'),
            Opt::Quiet => Some('q'),
            Opt::Version => Some('v'),
            Opt::LogLevel => Some('l'),
            Opt::LogFile => Some('d'),
            Opt::ExportToFile => Some('E'),
            Opt::ImportFromFile => Some('I'),
            Opt::Help => Some('h'),
            Opt::Cleanup => None,
        }
    }

    /// What this option does, in the words of the usage.
    pub fn help(self) -> (text: &'static str)
        ensures
            text@ == help_of(self),
    {
        match self {
            Opt::ExportToOpml => "export OPML feed to stdout",
            Opt::ExportToOpml2 => "export OPML 2.0 feed including tags to stdout",
            Opt::RefreshOnStart => "refresh feeds on start",
            Opt::ImportFromOpml => "import OPML file",
            Opt::UrlFile => "read RSS feed URLs from file",
            Opt::CacheFile => "use file as cache file",
            Opt::ConfigFile => "read configuration from file",
            Opt::QueueFile => "use file as podcast queue file",
            Opt::SearchHistoryFile => "save search history to file",
            Opt::CmdlineHistoryFile => "save command-line history to file",
            Opt::Vacuum => "compact the cache",
            Opt::Execute => "execute list of commands",
            Opt::Quiet => "quiet startup",
            Opt::Version => "print version information",
            Opt::LogLevel => "write a log with given log level (1-6)",
            Opt::LogFile => "use file as output log file",
            Opt::ExportToFile => "export list of read articles to file",
            Opt::ImportFromFile => "import list of read articles from file",
            Opt::Help => "display help message",
            Opt::Cleanup => "remove unreferenced items from cache",
        }
    }

    /// The name under which the usage shows the value of this option, if it
    /// takes one.
    pub fn value_name(self) -> (name: Option<&'static str>)
        ensures
            match name {
                Some(n) => value_name_of(self) == Some(n@),
                None => value_name_of(self) is None,
            },
    {
        match self.kind() {
            Kind::Flag => None,
            Kind::Path => Some("file"),
            Kind::Level => Some("loglevel"),
            Kind::Command => Some("command"),
        }
    }

    /// Every option, in the order of the usage. None is left out.
    pub fn all() -> (opts: Vec<Opt>)
        ensures
            opts@ == all_options(),
            forall|opt: Opt| opts@.contains(opt),
    {
        let opts = vec![
            Opt::ExportToOpml,
            Opt::ExportToOpml2,
            Opt::RefreshOnStart,
            Opt::ImportFromOpml,
            Opt::UrlFile,
            Opt::CacheFile,
            Opt::ConfigFile,
            Opt::QueueFile,
            Opt::SearchHistoryFile,
            Opt::CmdlineHistoryFile,
            Opt::Vacuum,
            Opt::Execute,
            Opt::Quiet,
            Opt::Version,
            Opt::LogLevel,
            Opt::LogFile,
            Opt::ExportToFile,
            Opt::ImportFromFile,
            Opt::Help,
            Opt::Cleanup,
        ];
        assert(opts@ =~= all_options());
        assert forall|opt: Opt| opts@.contains(opt) by {
            match opt {
                Opt::ExportToOpml => assert(opts@[0] == opt),
                Opt::ExportToOpml2 => assert(opts@[1] == opt),
                Opt::RefreshOnStart => assert(opts@[2] == opt),
                Opt::ImportFromOpml => assert(opts@[3] == opt),
                Opt::UrlFile => assert(opts@[4] == opt),
                Opt::CacheFile => assert(opts@[5] == opt),
                Opt::ConfigFile => assert(opts@[6] == opt),
                Opt::QueueFile => assert(opts@[7] == opt),
                Opt::SearchHistoryFile => assert(opts@[8] == opt),
                Opt::CmdlineHistoryFile => assert(opts@[9] == opt),
                Opt::Vacuum => assert(opts@[10] == opt),
                Opt::Execute => assert(opts@[11] == opt),
                Opt::Quiet => assert(opts@[12] == opt),
                Opt::Version => assert(opts@[13] == opt),
                Opt::LogLevel => assert(opts@[14] == opt),
                Opt::LogFile => assert(opts@[15] == opt),
                Opt::ExportToFile => assert(opts@[16] == opt),
                Opt::ImportFromFile => assert(opts@[17] == opt),
                Opt::Help => assert(opts@[18] == opt),
                Opt::Cleanup => assert(opts@[19] == opt),
            }
        }
        opts
    }

    /// The option with the long name `name`.
    pub fn from_long(name: &str) -> (opt: Option<Opt>)
        ensures
            opt == by_long(name@),
    {
        if same_text(name, "export-to-opml") {
            Some(Opt::ExportToOpml)
        } else if same_text(name, "export-to-opml2") {
            Some(Opt::ExportToOpml2)
        } else if same_text(name, "refresh-on-start") {
            Some(Opt::RefreshOnStart)
        } else if same_text(name, "import-from-opml") {
            Some(Opt::ImportFromOpml)
        } else if same_text(name, "url-file") {
            Some(Opt::UrlFile)
        } else if same_text(name, "cache-file") {
            Some(Opt::CacheFile)
        } else if same_text(name, "config-file") {
            Some(Opt::ConfigFile)
        } else if same_text(name, "queue-file") {
            Some(Opt::QueueFile)
        } else if same_text(name, "search-history-file") {
            Some(Opt::SearchHistoryFile)
        } else if same_text(name, "cmdline-history-file") {
            Some(Opt::CmdlineHistoryFile)
        } else if same_text(name, "vacuum") {
            Some(Opt::Vacuum)
        } else if same_text(name, "execute") {
            Some(Opt::Execute)
        } else if same_text(name, "quiet") {
            Some(Opt::Quiet)
        } else if same_text(name, "version") {
            Some(Opt::Version)
        } else if same_text(name, "log-level") {
            Some(Opt::LogLevel)
        } else if same_text(name, "log-file") {
            Some(Opt::LogFile)
        } else if same_text(name, "export-to-file") {
            Some(Opt::ExportToFile)
        } else if same_text(name, "import-from-file") {
            Some(Opt::ImportFromFile)
        } else if same_text(name, "help") {
            Some(Opt::Help)
        } else if same_text(name, "cleanup") {
            Some(Opt::Cleanup)
        } else {
            None
        }
    }

    /// The option with the short name `c`.
    pub fn from_short(c: char) -> (opt: Option<Opt>)
        ensures
            opt == by_short(c),
    {
        if c == 'e' {
            Some(Opt::ExportToOpml)
        } else if c == 'r' {
            Some(Opt::RefreshOnStart)
        } else if c == 'i' {
            Some(Opt::ImportFromOpml)
        } else if c == 'u' {
            Some(Opt::UrlFile)
        } else if c == 'c' {
            Some(Opt::CacheFile)
        } else if c == 'C' {
            Some(Opt::ConfigFile)
        } else if c == 'X' {
            Some(Opt::Vacuum)
        } else if c == 'x' {
            Some(Opt::Execute)
        } else if c == 'q' {
            Some(Opt::Quiet)
        } else if c == 'v' {
            Some(Opt::Version)
        } else if c == 'l' {
            Some(Opt::LogLevel)
        } else if c == 'd' {
            Some(Opt::LogFile)
        } else if c == 'E' {
            Some(Opt::ExportToFile)
        } else if c == 'I' {
            Some(Opt::ImportFromFile)
        } else if c == 'h' {
            Some(Opt::Help)
        } else {
            None
        }
    }
}

/// Short names and options go together: a letter names an option exactly
/// if it is that option's short name. So no two options share a letter, and
/// an option without a short name is named by no letter.
pub proof fn law_short_names(opt: Opt, c: char)
    ensures
        by_short(c) == Some(opt) <==> short_of(opt) == Some(c),
{
}

} // verus!
