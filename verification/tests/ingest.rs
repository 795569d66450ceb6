use irontide::failure::IngestError;
use irontide::feed::{Entry, Feed};
use irontide::rss::{
    adapt_decoded, announce, decoder_aborted, fetch_feed, print_feed, process_urls_file,
    response_of, Attempt, Ingestion, Report,
};
use irontide::text::decimal_string;
use irontide::urls::read_urls;

const RSS: &str = "<?xml version=\"1.0\"?>\n<rss version=\"2.0\"><channel>\
<title>Example Feed</title><link>https://b.example/</link>\
<item><title>One</title><link>https://b.example/1</link></item>\
<item><link>https://b.example/2</link><description>no title</description></item>\
<item><title>Three</title><link>https://b.example/3</link></item>\
</channel></rss>";

const ATOM: &str = "<?xml version=\"1.0\" encoding=\"utf-8\"?>\
<feed xmlns=\"http://www.w3.org/2005/Atom\"><title>Atom Feed</title><id>urn:feed</id>\
<updated>2005-07-31T12:29:29Z</updated>\
<entry><title>First</title><id>urn:1</id><updated>2005-07-31T12:29:29Z</updated></entry>\
<entry><title>Second</title><id>urn:2</id><updated>2005-07-31T12:29:29Z</updated></entry>\
</feed>";

fn titled(title: &str) -> Entry {
    Entry { title: Some(String::from(title)) }
}

fn decode(bytes: &[u8]) -> Result<Feed, String> {
    match feed_rs::parser::parse(bytes) {
        Ok(feed) => Ok(Feed {
            title: feed.title.map(|t| t.content),
            entries: feed
                .entries
                .into_iter()
                .map(|e| Entry { title: e.title.map(|t| t.content) })
                .collect(),
        }),
        Err(e) => Err(e.to_string()),
    }
}

fn ok(text: &str) -> Result<Result<Feed, String>, String> {
    Ok(decode(text.as_bytes()))
}

fn answered(status: u16, text: &str) -> Result<Result<Feed, String>, String> {
    response_of(status, text.as_bytes().to_vec()).map(|body| decode(&body))
}

#[test]
fn url_file_with_comment_and_empty_line_names_two_urls() {
    let contents = "# comment\n\nhttps://a.example/feed.xml\nhttps://b.example/feed.xml";
    assert_eq!(read_urls(contents), vec!["https://a.example/feed.xml", "https://b.example/feed.xml"]);
    let with_newline = "# comment\n\nhttps://a.example/feed.xml\nhttps://b.example/feed.xml\n";
    assert_eq!(
        read_urls(with_newline),
        vec!["https://a.example/feed.xml", "https://b.example/feed.xml"]
    );
}

#[test]
fn url_lines_are_trimmed() {
    assert_eq!(read_urls("  https://a.example/  \t\r\n\thttps://b.example/\r\n"), vec![
        "https://a.example/",
        "https://b.example/"
    ]);
    assert_eq!(read_urls("\u{a0}\u{3000}https://a.example/\u{2003}\u{85}"), vec![
        "https://a.example/"
    ]);
}

#[test]
fn comment_lines_may_be_indented() {
    assert_eq!(read_urls("   # indented comment\n \t \nhttps://a.example/"), vec![
        "https://a.example/"
    ]);
    assert_eq!(read_urls("https://a.example/#fragment\nhttps://b.example/ # kept"), vec![
        "https://a.example/#fragment",
        "https://b.example/ # kept"
    ]);
}

#[test]
fn url_list_is_not_deduplicated() {
    assert_eq!(read_urls("u\nu\nv\nu"), vec!["u", "u", "v", "u"]);
}

#[test]
fn url_file_without_urls() {
    assert!(read_urls("").is_empty());
    assert!(read_urls("\n\n\n").is_empty());
    assert!(read_urls("#a\n  #b\n\r\n   ").is_empty());
}

#[test]
fn inner_white_space_and_carriage_return_stay() {
    assert_eq!(read_urls("a b\nc\rd\n"), vec!["a b", "c\rd"]);
}

#[test]
fn summary_of_titled_feed_with_untitled_entry() {
    let feed = Feed {
        title: Some(String::from("Example Feed")),
        entries: vec![titled("One"), Entry { title: None }],
    };
    assert_eq!(print_feed(&feed), vec!["# Example Feed", "- One"]);
}

#[test]
fn summary_keeps_the_order_of_the_entries() {
    let feed = Feed {
        title: None,
        entries: vec![titled("b"), Entry { title: None }, titled("a"), titled("b"), titled("")],
    };
    assert_eq!(print_feed(&feed), vec!["- b", "- a", "- b", "- "]);
}

#[test]
fn summary_of_empty_feed() {
    assert!(print_feed(&Feed { title: None, entries: vec![] }).is_empty());
    assert_eq!(print_feed(&Feed { title: Some(String::new()), entries: vec![] }), vec!["# "]);
}

#[test]
fn rss_document_becomes_a_feed() {
    let feed = fetch_feed("https://b.example/feed.xml", ok(RSS)).unwrap();
    assert_eq!(feed.title, Some(String::from("Example Feed")));
    assert_eq!(feed.entries, vec![titled("One"), Entry { title: None }, titled("Three")]);
    assert_eq!(print_feed(&feed), vec!["# Example Feed", "- One", "- Three"]);
}

#[test]
fn atom_document_becomes_a_feed() {
    let feed = fetch_feed("https://c.example/atom", ok(ATOM)).unwrap();
    assert_eq!(feed.title, Some(String::from("Atom Feed")));
    assert_eq!(feed.entries, vec![titled("First"), titled("Second")]);
}

#[test]
fn json_document_becomes_a_feed() {
    let json = "{\"version\":\"https://jsonfeed.org/version/1\",\"title\":\"J\",\
\"items\":[{\"id\":\"1\",\"title\":\"Item\"},{\"id\":\"2\",\"content_text\":\"x\"}]}";
    let feed = fetch_feed("https://j.example/feed.json", ok(json)).unwrap();
    assert_eq!(feed.title, Some(String::from("J")));
    assert_eq!(feed.entries, vec![titled("Item"), Entry { title: None }]);
}

#[test]
fn document_that_is_no_feed_is_a_parse_failure() {
    for text in ["", "not a feed", "<html><body>hello</body></html>", "<rss version=\"2.0\"><channel>"] {
        match fetch_feed("https://a.example/feed.xml", ok(text)) {
            Err(IngestError::Parse { url, cause }) => {
                assert_eq!(url, "https://a.example/feed.xml");
                assert!(!cause.is_empty());
            }
            other => panic!("{:?} gave {:?}", text, other),
        }
    }
}

#[test]
fn transport_failure_is_a_fetch_failure() {
    let outcome = fetch_feed("https://a.example/feed.xml", Err(String::from("connection refused")));
    assert_eq!(
        outcome,
        Err(IngestError::Fetch {
            url: String::from("https://a.example/feed.xml"),
            cause: String::from("connection refused"),
        })
    );
}

#[test]
fn decoded_document_is_adapted() {
    let feed = Feed { title: None, entries: vec![titled("x")] };
    assert_eq!(adapt_decoded("u", Ok(feed.clone())), Ok(feed));
    assert_eq!(
        adapt_decoded("u", Err(String::from("no root element"))),
        Err(IngestError::Parse { url: String::from("u"), cause: String::from("no root element") })
    );
}

#[test]
fn unreadable_url_file_is_fatal() {
    let e = process_urls_file(Err(String::from("No such file or directory"))).unwrap_err();
    assert_eq!(e, IngestError::UrlFile { cause: String::from("No such file or directory") });
    assert!(e.is_fatal());
    assert_eq!(e.message(), "Error processing URLs file: No such file or directory");
}

#[test]
fn ingestion_begins_with_the_urls_pending() {
    let run = process_urls_file(Ok(String::from("# c\n\nhttps://a.example/feed.xml\nhttps://b.example/feed.xml\n")))
        .unwrap();
    assert_eq!(run.pending, vec!["https://a.example/feed.xml", "https://b.example/feed.xml"]);
    assert!(run.attempts.is_empty());
    assert_eq!(run.next_url(), Some(&String::from("https://a.example/feed.xml")));
}

#[test]
fn two_fetches_in_file_order() {
    let contents = "# comment\n\nhttps://a.example/feed.xml\nhttps://b.example/feed.xml";
    let mut run = process_urls_file(Ok(String::from(contents))).unwrap();
    let mut fetched: Vec<String> = Vec::new();
    while let Some(url) = run.next_url() {
        fetched.push(url.clone());
        run.record(ok(RSS)).unwrap();
    }
    assert_eq!(fetched, vec!["https://a.example/feed.xml", "https://b.example/feed.xml"]);
    assert_eq!(run.attempts.len(), 2);
    assert!(run.pending.is_empty());
    assert_eq!(run.next_url(), None);
}

#[test]
fn failed_fetch_does_not_end_the_batch() {
    let contents = "https://a.example/feed.xml\nhttps://b.example/feed.xml\n";
    let mut run = process_urls_file(Ok(String::from(contents))).unwrap();

    let first = run.record(Err(String::from("connection refused"))).unwrap();
    assert_eq!(
        first,
        Report {
            output: vec![],
            error: Some(String::from(
                "Error fetching https://a.example/feed.xml: connection refused"
            )),
        }
    );
    assert_eq!(run.next_url(), Some(&String::from("https://b.example/feed.xml")));

    let second = run.record(ok(RSS)).unwrap();
    assert_eq!(
        second,
        Report {
            output: vec![
                String::from("# Example Feed"),
                String::from("- One"),
                String::from("- Three")
            ],
            error: None,
        }
    );
    assert_eq!(run.next_url(), None);
    assert_eq!(run.attempts.len(), 2);
    assert_eq!(run.attempts[0].url, "https://a.example/feed.xml");
    assert!(matches!(run.attempts[0].outcome, Err(IngestError::Fetch { .. })));
    assert_eq!(run.attempts[1].url, "https://b.example/feed.xml");
    assert!(run.attempts[1].outcome.is_ok());
}

#[test]
fn failed_parse_does_not_end_the_batch() {
    let mut run = process_urls_file(Ok(String::from("a\nb\nc"))).unwrap();
    let first = run.record(ok("garbage")).unwrap();
    assert!(first.output.is_empty());
    assert!(first.error.unwrap().starts_with("Error parsing a: "));
    let second = run.record(ok(ATOM)).unwrap();
    assert_eq!(second.output, vec!["# Atom Feed", "- First", "- Second"]);
    assert_eq!(second.error, None);
    let third = run.record(Err(String::from("timeout"))).unwrap();
    assert_eq!(third.error, Some(String::from("Error fetching c: timeout")));
    assert!(matches!(run.attempts[0].outcome, Err(IngestError::Parse { .. })));
    assert!(!run.attempts[0].outcome.as_ref().unwrap_err().is_fatal());
}

#[test]
fn response_without_pending_url_changes_nothing() {
    let mut run = process_urls_file(Ok(String::from("# nothing\n"))).unwrap();
    assert_eq!(run.next_url(), None);
    assert_eq!(run.record(ok(RSS)), None);
    assert_eq!(run, Ingestion { pending: vec![], attempts: vec![] });
    let mut run = Ingestion {
        pending: vec![],
        attempts: vec![Attempt { url: String::from("u"), outcome: Err(IngestError::Output { cause: String::new() }) }],
    };
    assert_eq!(run.record(Err(String::from("x"))), None);
    assert_eq!(run.attempts.len(), 1);
}

#[test]
fn settled_outcome_is_recorded_as_given() {
    let mut run = process_urls_file(Ok(String::from("a\nb"))).unwrap();
    let aborted = IngestError::Parse { url: String::from("a"), cause: String::from("aborted") };
    let report = run.settle(Err(aborted.clone())).unwrap();
    assert_eq!(report, Report { output: vec![], error: Some(String::from("Error parsing a: aborted")) });
    let feed = Feed { title: Some(String::from("T")), entries: vec![titled("e")] };
    let report = run.settle(Ok(feed.clone())).unwrap();
    assert_eq!(report.output, vec!["# T", "- e"]);
    assert_eq!(report.error, None);
    assert_eq!(run.attempts, vec![
        Attempt { url: String::from("a"), outcome: Err(aborted) },
        Attempt { url: String::from("b"), outcome: Ok(feed.clone()) },
    ]);
    assert_eq!(run.settle(Ok(feed)), None);
    assert_eq!(run.attempts.len(), 2);
}

#[test]
fn status_from_200_to_299_hands_out_the_body() {
    for status in [200u16, 201, 204, 250, 299] {
        assert_eq!(response_of(status, vec![1, 2, 3]), Ok(vec![1, 2, 3]));
    }
    assert_eq!(response_of(200, vec![]), Ok(vec![]));
}

#[test]
fn status_outside_200_to_299_is_a_failure() {
    for status in [0u16, 100, 101, 199, 300, 301, 304, 399, 400, 404, 500, 503, 999, 65535] {
        assert_eq!(
            response_of(status, RSS.as_bytes().to_vec()),
            Err(format!("unexpected HTTP status {}", status))
        );
    }
}

#[test]
fn body_of_a_refused_status_is_not_parsed() {
    let outcome = fetch_feed("https://b.example/feed.xml", answered(404, RSS));
    assert_eq!(
        outcome,
        Err(IngestError::Fetch {
            url: String::from("https://b.example/feed.xml"),
            cause: String::from("unexpected HTTP status 404"),
        })
    );
    let outcome = fetch_feed("https://b.example/feed.xml", answered(301, RSS));
    assert!(matches!(outcome, Err(IngestError::Fetch { .. })));
    let feed = fetch_feed("https://b.example/feed.xml", answered(200, RSS)).unwrap();
    assert_eq!(feed.title, Some(String::from("Example Feed")));
}

#[test]
fn refused_status_does_not_end_the_batch() {
    let mut run = process_urls_file(Ok(String::from("a\nb"))).unwrap();
    let first = run.record(answered(500, RSS)).unwrap();
    assert_eq!(first.error, Some(String::from("Error fetching a: unexpected HTTP status 500")));
    assert!(first.output.is_empty());
    let second = run.record(answered(200, RSS)).unwrap();
    assert_eq!(second.output, vec!["# Example Feed", "- One", "- Three"]);
}

#[test]
fn aborted_decoder_is_a_parse_failure() {
    assert_eq!(decoder_aborted(), Err(String::from("the decoder gave no answer")));
    let outcome = fetch_feed("u", Ok(decoder_aborted()));
    assert_eq!(
        outcome,
        Err(IngestError::Parse {
            url: String::from("u"),
            cause: String::from("the decoder gave no answer"),
        })
    );
    let mut run = process_urls_file(Ok(String::from("u\nv"))).unwrap();
    let report = run.record(Ok(decoder_aborted())).unwrap();
    assert_eq!(report.error, Some(String::from("Error parsing u: the decoder gave no answer")));
    assert_eq!(run.next_url(), Some(&String::from("v")));
}

#[test]
fn numbers_are_written_in_base_ten() {
    for n in [0u16, 1, 9, 10, 11, 99, 100, 101, 404, 1000, 9999, 10000, 65535] {
        assert_eq!(decimal_string(n), n.to_string());
    }
}

#[test]
fn failures_say_whether_they_are_fatal() {
    let s = |t: &str| String::from(t);
    assert!(IngestError::UrlFile { cause: s("c") }.is_fatal());
    assert!(IngestError::Output { cause: s("c") }.is_fatal());
    assert!(!IngestError::Fetch { url: s("u"), cause: s("c") }.is_fatal());
    assert!(!IngestError::Parse { url: s("u"), cause: s("c") }.is_fatal());
    assert_eq!(IngestError::Output { cause: s("broken pipe") }.message(), "Error writing output: broken pipe");
    assert_eq!(IngestError::Parse { url: s("u"), cause: s("c") }.message(), "Error parsing u: c");
    assert_eq!(IngestError::Fetch { url: s("u"), cause: s("c") }.message(), "Error fetching u: c");
}

#[test]
fn retrieval_is_announced() {
    assert_eq!(announce("https://a.example/feed.xml"), "Fetching https://a.example/feed.xml...");
}
