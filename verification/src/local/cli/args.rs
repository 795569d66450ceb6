//! The command-line argument model: the configuration record and its
//! mathematical view.

use vstd::prelude::*;

verus! {

/// The configuration of one run, as given on the command line.
///
/// Path-valued settings hold the text that was given; nothing is checked
/// against the file system. `log_level`, when a parser of this crate produced
/// the value, lies between 1 and 6.
#[derive(Debug, Clone, PartialEq, Eq)]
pub struct CliArgs {
    pub export_to_opml: bool,
    pub export_to_opml2: bool,
    pub refresh_on_start: bool,
    pub import_from_opml: Option<String>,
    pub url_file: Option<String>,
    pub cache_file: Option<String>,
    pub config_file: Option<String>,
    pub queue_file: Option<String>,
    pub search_history_file: Option<String>,
    pub cmdline_history_file: Option<String>,
    pub vacuum: bool,
    pub execute: Vec<String>,
    pub quiet: bool,
    pub version: bool,
    pub log_level: Option<u8>,
    pub log_file: Option<String>,
    pub export_to_file: Option<String>,
    pub import_from_file: Option<String>,
    pub help: bool,
    pub cleanup: bool,
}

/// What a `CliArgs` value says, with every text as a sequence of characters.
pub ghost struct Config {
    pub export_to_opml: bool,
    pub export_to_opml2: bool,
    pub refresh_on_start: bool,
    pub import_from_opml: Option<Seq<char>>,
    pub url_file: Option<Seq<char>>,
    pub cache_file: Option<Seq<char>>,
    pub config_file: Option<Seq<char>>,
    pub queue_file: Option<Seq<char>>,
    pub search_history_file: Option<Seq<char>>,
    pub cmdline_history_file: Option<Seq<char>>,
    pub vacuum: bool,
    pub execute: Seq<Seq<char>>,
    pub quiet: bool,
    pub version: bool,
    pub log_level: Option<u8>,
    pub log_file: Option<Seq<char>>,
    pub export_to_file: Option<Seq<char>>,
    pub import_from_file: Option<Seq<char>>,
    pub help: bool,
    pub cleanup: bool,
}

/// The characters of an optional text.
pub open spec fn text_of(s: Option<String>) -> Option<Seq<char>> {
    match s {
        Some(t) => Some(t@),
        None => None,
    }
}

/// The characters of each text of a list.
pub open spec fn texts_of(v: Seq<String>) -> Seq<Seq<char>> {
    v.map_values(|s: String| s@)
}

impl View for CliArgs {
    type V = Config;

    open spec fn view(&self) -> Config {
        Config {
            export_to_opml: self.export_to_opml,
            export_to_opml2: self.export_to_opml2,
            refresh_on_start: self.refresh_on_start,
            import_from_opml: text_of(self.import_from_opml),
            url_file: text_of(self.url_file),
            cache_file: text_of(self.cache_file),
            config_file: text_of(self.config_file),
            queue_file: text_of(self.queue_file),
            search_history_file: text_of(self.search_history_file),
            cmdline_history_file: text_of(self.cmdline_history_file),
            vacuum: self.vacuum,
            execute: texts_of(self.execute@),
            quiet: self.quiet,
            version: self.version,
            log_level: self.log_level,
            log_file: text_of(self.log_file),
            export_to_file: text_of(self.export_to_file),
            import_from_file: text_of(self.import_from_file),
            help: self.help,
            cleanup: self.cleanup,
        }
    }
}

} // verus!
