use irontide::failure::IngestError;
use irontide::local::cli::args::CliArgs;
use irontide::logging::{default_filter, format_line, Colour, Level, LevelFilter, Record};
use irontide::startup::{
    exit_code, init, setup_logging, startup, version_line, Startup, EXIT_FAILURE, EXIT_OK,
    EXIT_USAGE,
};
use irontide::text::{chars_of, is_space_char, same_text, scan_to, trim_bounds};

#[test]
fn help_and_version_come_before_ingestion() {
    let args = CliArgs::try_parse_from(&["irontide", "-h", "-u", "urls.txt"]).unwrap();
    assert_eq!(startup(&args), Startup::Help);
    let args = CliArgs::try_parse_from(&["irontide", "-u", "urls.txt", "-v"]).unwrap();
    assert_eq!(startup(&args), Startup::Version);
    let args = CliArgs::try_parse_from(&["irontide", "-v", "-h"]).unwrap();
    assert_eq!(startup(&args), Startup::Help);
}

#[test]
fn url_file_drives_the_run() {
    let args = CliArgs::try_parse_from(&["irontide", "-u", "urls.txt", "-q"]).unwrap();
    assert_eq!(startup(&args), Startup::Run { url_file: Some(String::from("urls.txt")) });
    let args = CliArgs::try_parse_from(&["irontide", "-q"]).unwrap();
    assert_eq!(startup(&args), Startup::Run { url_file: None });
}

#[test]
fn version_line_names_program_and_version() {
    assert_eq!(version_line(), "irontide 0.1.0");
}

#[test]
fn log_level_selects_the_filter() {
    for silent in [true, false] {
        assert_eq!(setup_logging(Some(6), silent), Some(LevelFilter::Debug));
        assert_eq!(setup_logging(Some(5), silent), Some(LevelFilter::Info));
        assert_eq!(setup_logging(Some(4), silent), Some(LevelFilter::Warn));
        assert_eq!(setup_logging(Some(3), silent), Some(LevelFilter::Error));
        assert_eq!(setup_logging(Some(2), silent), Some(LevelFilter::Error));
        assert_eq!(setup_logging(Some(1), silent), Some(LevelFilter::Error));
    }
    assert_eq!(LevelFilter::from_log_level(0), LevelFilter::Error);
    assert_eq!(LevelFilter::from_log_level(7), LevelFilter::Error);
    assert_eq!(LevelFilter::from_log_level(255), LevelFilter::Error);
}

#[test]
fn without_a_log_level_the_default_is_info() {
    assert_eq!(default_filter(), LevelFilter::Info);
    assert_eq!(setup_logging(None, true), Some(LevelFilter::Info));
    assert_eq!(init(&CliArgs::new(), true).filter, Some(LevelFilter::Info));
}

#[test]
fn filters_named_by_the_environment_stand() {
    assert_eq!(setup_logging(None, false), None);
    assert_eq!(init(&CliArgs::new(), false).filter, None);
}

#[test]
fn filter_lets_through_what_is_at_least_as_severe() {
    let levels = [Level::Error, Level::Warn, Level::Info, Level::Debug, Level::Trace];
    let filters = [LevelFilter::Error, LevelFilter::Warn, LevelFilter::Info, LevelFilter::Debug];
    for (f, filter) in filters.iter().enumerate() {
        for (l, level) in levels.iter().enumerate() {
            assert_eq!(filter.allows(*level), l <= f, "{:?} {:?}", filter, level);
        }
    }
}

#[test]
fn session_announces_start_and_stop() {
    let args = CliArgs::try_parse_from(&["irontide", "-l", "6"]).unwrap();
    let session = init(&args, true);
    assert_eq!(session.filter, Some(LevelFilter::Debug));
    assert_eq!(
        session.greeting,
        Record { level: Level::Info, message: String::from("irontide: Hello world") }
    );
    assert_eq!(
        session.farewell,
        Record { level: Level::Info, message: String::from("irontide stopped") }
    );
}

#[test]
fn greeting_is_written_for_no_level_and_for_five_and_six() {
    let written = |level: Option<u8>| {
        let mut args = CliArgs::new();
        args.log_level = level;
        let session = init(&args, true);
        session.filter.unwrap().allows(session.greeting.level)
    };
    assert!(written(None));
    assert!(written(Some(5)));
    assert!(written(Some(6)));
    for n in [1u8, 2, 3, 4] {
        assert!(!written(Some(n)), "{}", n);
    }
}

#[test]
fn levels_have_labels_and_colours() {
    assert_eq!(Level::Error.label(), "ERROR");
    assert_eq!(Level::Warn.label(), "WARN");
    assert_eq!(Level::Info.label(), "INFO");
    assert_eq!(Level::Debug.label(), "DEBUG");
    assert_eq!(Level::Trace.label(), "TRACE");
    assert_eq!(Level::Error.colour(), Colour::Red);
    assert_eq!(Level::Warn.colour(), Colour::Yellow);
    assert_eq!(Level::Info.colour(), Colour::Green);
    assert_eq!(Level::Debug.colour(), Colour::Blue);
    assert_eq!(Level::Trace.colour(), Colour::Cyan);
}

#[test]
fn log_line_layout() {
    assert_eq!(
        format_line("2024-01-02 03:04:05.678", "INFO", "irontide: Hello world"),
        "2024-01-02 03:04:05.678 [INFO] irontide: Hello world"
    );
    assert_eq!(format_line("", "", ""), " [] ");
}

#[test]
fn only_fatal_failures_change_the_exit_code() {
    let s = |t: &str| String::from(t);
    assert_eq!(exit_code(None), 0);
    assert_eq!(exit_code(Some(&IngestError::Fetch { url: s("u"), cause: s("c") })), 0);
    assert_eq!(exit_code(Some(&IngestError::Parse { url: s("u"), cause: s("c") })), 0);
    assert_eq!(exit_code(Some(&IngestError::UrlFile { cause: s("c") })), 1);
    assert_eq!(exit_code(Some(&IngestError::Output { cause: s("c") })), 1);
    assert_eq!((EXIT_OK, EXIT_FAILURE, EXIT_USAGE), (0, 1, 2));
}

#[test]
fn white_space_is_the_unicode_property() {
    for c in [' ', '\t', '\n', '\u{b}', '\u{c}', '\r', '\u{85}', '\u{a0}', '\u{1680}', '\u{2000}',
        '\u{200a}', '\u{2028}', '\u{2029}', '\u{202f}', '\u{205f}', '\u{3000}']
    {
        assert!(is_space_char(c), "{:?}", c);
    }
    for c in ['a', '#', '-', '\u{8}', '\u{e}', '\u{1f}', '\u{200b}', '\u{feff}', '\u{180e}', '\0'] {
        assert!(!is_space_char(c), "{:?}", c);
    }
    for n in 0u32..0x3100 {
        if let Some(c) = char::from_u32(n) {
            assert_eq!(is_space_char(c), c.is_whitespace(), "{:x}", n);
        }
    }
}

#[test]
fn trimming_agrees_with_the_standard_library() {
    for text in ["", " ", "a", "  a b  ", "\t\r\nx\u{a0}", "\u{3000}\u{3000}", " # c ", "ab \u{2003}"] {
        let chars = chars_of(text);
        let (lo, hi) = trim_bounds(&chars, 0, chars.len());
        let got: String = chars[lo..hi].iter().collect();
        assert_eq!(got, text.trim(), "{:?}", text);
    }
    let chars = chars_of(" ab  cd ");
    assert_eq!(trim_bounds(&chars, 3, 7), (5, 7));
    assert_eq!(trim_bounds(&chars, 3, 5), (5, 5));
}

#[test]
fn text_helpers() {
    assert_eq!(chars_of("a\u{e9}z"), vec!['a', '\u{e9}', 'z']);
    assert!(same_text("url-file", "url-file"));
    assert!(!same_text("url-file", "url-fil"));
    assert!(!same_text("url-file", "url-fule"));
    assert!(same_text("", ""));
    let chars = chars_of("--name=value=x");
    assert_eq!(scan_to(&chars, 2, '='), 6);
    assert_eq!(scan_to(&chars, 7, '='), 12);
    assert_eq!(scan_to(&chars, 13, '='), 14);
    assert_eq!(scan_to(&chars, 14, '='), 14);
}
