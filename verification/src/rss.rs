//! Feed ingestion: which URLs are fetched and in what order, what a
//! server's answer and a decoder's answer mean for a URL, and what is
//! reported of each.

use crate::failure::{Failure, IngestError};
use crate::feed::{bullet, entry_line, heading_lines, summary, EntryView, Feed, FeedView};
use crate::text::{decimal, decimal_string};
use vstd::prelude::*;
use vstd::string::*;

verus! {

/// The least status with which a server hands out a document.
pub const STATUS_OK_FIRST: u16 = 200;

/// The greatest status with which a server hands out a document.
pub const STATUS_OK_LAST: u16 = 299;

/// What a decoder answers for one document, as mathematics: the feed, or the
/// cause for which the document is no feed.
pub open spec fn decoding_view(decoded: Result<Feed, String>) -> Result<FeedView, Seq<char>> {
    match decoded {
        Ok(feed) => Ok(feed@),
        Err(cause) => Err(cause@),
    }
}

/// What came back for one URL, as mathematics: the decoder's answer for the
/// document, or the cause for which no document came.
pub open spec fn response_view(response: Result<Result<Feed, String>, String>) -> Result<
    Result<FeedView, Seq<char>>,
    Seq<char>,
> {
    match response {
        Ok(decoded) => Ok(decoding_view(decoded)),
        Err(cause) => Err(cause@),
    }
}

/// What became of one URL, as mathematics: its feed, or the failure.
pub open spec fn outcome_view(outcome: Result<Feed, IngestError>) -> Result<FeedView, Failure> {
    match outcome {
        Ok(feed) => Ok(feed@),
        Err(e) => Err(e@),
    }
}

/// Whether a server that answers with `status` hands out a document: the
/// statuses from 200 to 299 do, no other does.
pub open spec fn hands_out(status: u16) -> bool {
    STATUS_OK_FIRST <= status <= STATUS_OK_LAST
}

/// The cause of the failure that a status outside 200 to 299 is.
pub open spec fn status_cause(status: u16) -> Seq<char> {
    "unexpected HTTP status "@ + decimal(status as nat)
}

/// The cause of the failure that a decoder is which gave no answer.
pub open spec fn aborted_cause() -> Seq<char> {
    "the decoder gave no answer"@
}

/// The outcome for `url` once its document was decoded: the feed, or a parse
/// failure that names the URL and carries the decoder's cause.
pub open spec fn decoded_outcome(url: Seq<char>, decoded: Result<FeedView, Seq<char>>) -> Result<
    FeedView,
    Failure,
> {
    match decoded {
        Ok(feed) => Ok(feed),
        Err(cause) => Err(Failure::Parse { url, cause }),
    }
}

/// The outcome that `response` means for `url`. Where no document came it is
/// a fetch failure with the cause given; where one came it is what the
/// decoder's answer means.
pub open spec fn outcome_of(
    url: Seq<char>,
    response: Result<Result<FeedView, Seq<char>>, Seq<char>>,
) -> Result<FeedView, Failure> {
    match response {
        Err(cause) => Err(Failure::Fetch { url, cause }),
        Ok(decoded) => decoded_outcome(url, decoded),
    }
}

/// Decides what a server's answer is worth. With a status from 200 to 299
/// the body is the document, untouched. With any other status no document
/// came, whatever the body holds, and the cause names the status.
pub fn response_of(status: u16, body: Vec<u8>) -> (r: Result<Vec<u8>, String>)
    ensures
        hands_out(status) ==> r == Ok::<Vec<u8>, String>(body),
        !hands_out(status) ==> (r matches Err(cause) && cause@ == status_cause(status)),
{
    if STATUS_OK_FIRST <= status && status <= STATUS_OK_LAST {
        Ok(body)
    } else {
        let mut cause = String::from_str("unexpected HTTP status ");
        cause.append(decimal_string(status).as_str());
        Err(cause)
    }
}

/// The answer that stands for a decoder which gave none, because it aborted
/// on the document: the document is no feed.
pub fn decoder_aborted() -> (decoded: Result<Feed, String>)
    ensures
        decoding_view(decoded) == Err::<FeedView, Seq<char>>(aborted_cause()),
{
    Err(String::from_str("the decoder gave no answer"))
}

/// Turns the decoder's answer for the document behind `url` into the outcome
/// for that URL.
pub fn adapt_decoded(url: &str, decoded: Result<Feed, String>) -> (outcome: Result<
    Feed,
    IngestError,
>)
    ensures
        outcome_view(outcome) == decoded_outcome(url@, decoding_view(decoded)),
{
    match decoded {
        Ok(feed) => Ok(feed),
        Err(cause) => Err(IngestError::Parse { url: url.to_owned(), cause }),
    }
}

/// Turns what came back for `url` into a feed or a failure.
///
/// Retrieving and decoding are the caller's: one attempt per URL, handed
/// over as `response`. Where no document came the result is a fetch failure,
/// where the document is no feed it is a parse failure, and both name the
/// URL. Nothing is retried here.
pub fn fetch_feed(url: &str, response: Result<Result<Feed, String>, String>) -> (outcome: Result<
    Feed,
    IngestError,
>)
    ensures
        outcome_view(outcome) == outcome_of(url@, response_view(response)),
{
    match response {
        Err(cause) => Err(IngestError::Fetch { url: url.to_owned(), cause }),
        Ok(decoded) => adapt_decoded(url, decoded),
    }
}

/// Renders the summary of a feed: the heading line if the feed has a title,
/// then one bulleted line for each entry that has a title, in the feed's
/// order. The caller writes the lines to its output.
pub fn print_feed(feed: &Feed) -> (out: Vec<String>)
    ensures
        out@.map_values(|l: String| l@) == summary(feed@),
{
    let mut out: Vec<String> = Vec::new();
    if let Some(title) = &feed.title {
        let mut line = String::from_str("# ");
        line.append(title.as_str());
        out.push(line);
    }
    let ghost head = out@.map_values(|l: String| l@);
    let ghost f = |e: EntryView| entry_line(e);
    assert(head =~= heading_lines(feed@.title));
    assert(feed@.entries.take(0).filter_map(f) =~= Seq::empty());
    let mut i: usize = 0;
    while i < feed.entries.len()
        invariant
            i <= feed.entries.len(),
            head == heading_lines(feed@.title),
            f == (|e: EntryView| entry_line(e)),
            out@.map_values(|l: String| l@) == head + feed@.entries.take(i as int).filter_map(f),
        decreases feed.entries.len() - i,
    {
        let ghost before = out@.map_values(|l: String| l@);
        proof {
            feed@.entries.lemma_filter_map_take_succ(f, i as int);
        }
        if let Some(title) = &feed.entries[i].title {
            let mut line = String::from_str("- ");
            line.append(title.as_str());
            out.push(line);
            assert(out@.map_values(|l: String| l@) =~= before + seq![bullet(title@)]);
        }
        i += 1;
    }
    assert(feed@.entries.take(i as int) =~= feed@.entries);
    out
}

/// One URL of the url-file with what became of it.
#[derive(Debug, PartialEq, Eq)]
pub struct Attempt {
    pub url: String,
    pub outcome: Result<Feed, IngestError>,
}

/// What is to be written after one attempt: the lines of the feed's summary
/// for the output, or the line that reports the failure for the error
/// stream.
#[derive(Debug, Clone, PartialEq, Eq)]
pub struct Report {
    pub output: Vec<String>,
    pub error: Option<String>,
}

/// The state of one ingestion: the URLs still to be fetched, in the order of
/// the url-file, and the attempts made so far, oldest first.
#[derive(Debug, PartialEq, Eq)]
pub struct Ingestion {
    pub pending: Vec<String>,
    pub attempts: Vec<Attempt>,
}

/// What an `Attempt` says.
pub ghost struct AttemptView {
    pub url: Seq<char>,
    pub outcome: Result<FeedView, Failure>,
}

/// What a `Report` says.
pub ghost struct ReportView {
    pub output: Seq<Seq<char>>,
    pub error: Option<Seq<char>>,
}

/// What an `Ingestion` says.
pub ghost struct Run {
    pub pending: Seq<Seq<char>>,
    pub attempts: Seq<AttemptView>,
}

impl View for Attempt {
    type V = AttemptView;

    open spec fn view(&self) -> AttemptView {
        AttemptView { url: self.url@, outcome: outcome_view(self.outcome) }
    }
}

impl View for Report {
    type V = ReportView;

    open spec fn view(&self) -> ReportView {
        ReportView {
            output: self.output@.map_values(|l: String| l@),
            error: match self.error {
                Some(l) => Some(l@),
                None => None,
            },
        }
    }
}

impl View for Ingestion {
    type V = Run;

    open spec fn view(&self) -> Run {
        Run {
            pending: self.pending@.map_values(|u: String| u@),
            attempts: self.attempts@.map_values(|a: Attempt| a@),
        }
    }
}

/// The run that begins on a url-file with the contents `contents`: every URL
/// of the file is pending, none was attempted.
pub open spec fn started(contents: Seq<char>) -> Run {
    Run { pending: crate::urls::url_list(contents), attempts: Seq::empty() }
}

/// The report of one outcome: a feed's summary goes to the output, a failure
/// goes to the error stream as one line.
pub open spec fn report_of(outcome: Result<FeedView, Failure>) -> ReportView {
    match outcome {
        Ok(feed) => ReportView { output: summary(feed), error: None },
        Err(failure) => ReportView {
            output: Seq::empty(),
            error: Some(crate::failure::report_line(failure)),
        },
    }
}

/// Whether `after` is the run `before` once its first pending URL was
/// settled with `outcome`: that URL has left the pending ones and stands
/// last among the attempts, with that outcome. Everything else is as before.
pub open spec fn is_settled(before: Run, outcome: Result<FeedView, Failure>, after: Run) -> bool {
    &&& before.pending.len() > 0
    &&& after.pending == before.pending.drop_first()
    &&& after.attempts.len() == before.attempts.len() + 1
    &&& after.attempts.drop_last() == before.attempts
    &&& after.attempts.last().url == before.pending.first()
    &&& after.attempts.last().outcome == outcome
}

/// Whether `after` is the run `before` once `response` came back for its
/// first pending URL: that URL was settled with the outcome that the
/// response means for it.
pub open spec fn is_step(
    before: Run,
    response: Result<Result<FeedView, Seq<char>>, Seq<char>>,
    after: Run,
) -> bool {
    is_settled(before, outcome_of(before.pending.first(), response), after)
}

/// The line that announces the retrieval of `url`.
pub open spec fn announcement(url: Seq<char>) -> Seq<char> {
    "Fetching "@ + url + "..."@
}

/// Begins the ingestion of a url-file. `file` is what reading the file gave:
/// its contents, or the cause for which it could not be read.
///
/// A file that could not be read is a failure of the whole ingestion.
/// Otherwise the run begins with the file's URLs pending.
pub fn process_urls_file(file: Result<String, String>) -> (r: Result<Ingestion, IngestError>)
    ensures
        match file {
            Ok(contents) => r matches Ok(run) && run@ == started(contents@),
            Err(cause) => r matches Err(e) && e@ == (Failure::UrlFile { cause: cause@ }),
        },
{
    match file {
        Err(cause) => Err(IngestError::UrlFile { cause }),
        Ok(contents) => {
            let pending = crate::urls::read_urls(contents.as_str());
            let run = Ingestion { pending, attempts: Vec::new() };
            assert(run@.attempts =~= Seq::empty());
            Ok(run)
        },
    }
}

/// The line that announces the retrieval of `url`.
pub fn announce(url: &str) -> (line: String)
    ensures
        line@ == announcement(url@),
{
    let mut line = String::from_str("Fetching ");
    line.append(url);
    line.append("...");
    line
}

impl Ingestion {
    /// The URL to fetch next: the first pending one, or `None` when every
    /// URL of the file was attempted.
    pub fn next_url(&self) -> (next: Option<&String>)
        ensures
            match next {
                Some(url) => self@.pending.len() > 0 && url@ == self@.pending.first(),
                None => self@.pending.len() == 0,
            },
    {
        if self.pending.len() == 0 {
            None
        } else {
            Some(&self.pending[0])
        }
    }

    /// Settles the URL that `next_url` names with `outcome`, and says what
    /// is to be written: the feed's summary, or the line that reports the
    /// failure.
    ///
    /// A failure never ends the run: the attempt is recorded with it and the
    /// next URL becomes the first pending one. With no URL pending nothing
    /// changes and `None` is returned.
    pub fn settle(&mut self, outcome: Result<Feed, IngestError>) -> (report: Option<Report>)
        ensures
            old(self)@.pending.len() == 0 ==> report is None && final(self)@ == old(self)@,
            old(self)@.pending.len() > 0 ==> {
                &&& is_settled(old(self)@, outcome_view(outcome), final(self)@)
                &&& report matches Some(r)
                &&& r@ == report_of(outcome_view(outcome))
            },
    {
        if self.pending.len() == 0 {
            return None;
        }
        let ghost before = self@;
        let report = match &outcome {
            Ok(feed) => Report { output: print_feed(feed), error: None },
            Err(e) => Report { output: Vec::new(), error: Some(e.message()) },
        };
        assert(report@.output =~= report_of(outcome_view(outcome)).output);
        let url = self.pending.remove(0);
        assert(self@.pending =~= before.pending.drop_first());
        self.attempts.push(Attempt { url, outcome });
        assert(self@.attempts =~= before.attempts.push(self@.attempts.last()));
        assert(self@.attempts.drop_last() =~= before.attempts);
        Some(report)
    }

    /// Takes what came back for the URL that `next_url` names, settles the
    /// URL with what that means, and says what is to be written.
    ///
    /// With no URL pending nothing changes and `None` is returned.
    pub fn record(&mut self, response: Result<Result<Feed, String>, String>) -> (report: Option<
        Report,
    >)
        ensures
            old(self)@.pending.len() == 0 ==> report is None && final(self)@ == old(self)@,
            old(self)@.pending.len() > 0 ==> {
                &&& is_step(old(self)@, response_view(response), final(self)@)
                &&& report matches Some(r)
                &&& r@ == report_of(final(self)@.attempts.last().outcome)
            },
    {
        if self.pending.len() == 0 {
            return None;
        }
        let outcome = fetch_feed(self.pending[0].as_str(), response);
        self.settle(outcome)
    }
}

/// Whether `runs` is the history of one ingestion: each run arises from the
/// one before it by the response of the same position.
pub open spec fn is_history(runs: Seq<Run>, responses: Seq<Result<Result<FeedView, Seq<char>>, Seq<char>>>) -> bool {
    &&& runs.len() == responses.len() + 1
    &&& forall|k: int|
        0 <= k < responses.len() ==> is_step(#[trigger] runs[k], responses[k], runs[k + 1])
}

/// The fetches follow the url-file. In every history that begins on a
/// url-file, the run after `k` responses has made `k` attempts and holds the
/// file's URLs from the `k`-th on as pending: so the `k`-th fetch is for the
/// `k`-th URL of the file, no URL is fetched twice or skipped, and no more
/// responses are taken than the file has URLs.
pub proof fn law_fetches_follow_file(
    contents: Seq<char>,
    runs: Seq<Run>,
    responses: Seq<Result<Result<FeedView, Seq<char>>, Seq<char>>>,
)
    requires
        is_history(runs, responses),
        runs[0] == started(contents),
    ensures
        responses.len() <= crate::urls::url_list(contents).len(),
        forall|k: int|
            0 <= k <= responses.len() ==> (#[trigger] runs[k]).pending
                == crate::urls::url_list(contents).skip(k) && runs[k].attempts.len() == k,
    decreases responses.len(),
{
    let urls = crate::urls::url_list(contents);
    if responses.len() == 0 {
        assert(urls.skip(0) =~= urls);
    } else {
        let n = responses.len() as int;
        let shorter = runs.drop_last();
        let fewer = responses.drop_last();
        assert(is_history(shorter, fewer)) by {
            assert forall|k: int| 0 <= k < fewer.len() implies is_step(
                #[trigger] shorter[k],
                fewer[k],
                shorter[k + 1],
            ) by {
                assert(is_step(runs[k], responses[k], runs[k + 1]));
            }
        }
        law_fetches_follow_file(contents, shorter, fewer);
        assert(shorter[n - 1] == runs[n - 1]);
        assert(is_step(runs[n - 1], responses[n - 1], runs[n]));
        assert(runs[n - 1].pending == urls.skip(n - 1));
        assert(urls.skip(n - 1).drop_first() =~= urls.skip(n));
        assert forall|k: int| 0 <= k <= responses.len() implies (#[trigger] runs[k]).pending
            == urls.skip(k) && runs[k].attempts.len() == k by {
            if k < n {
                assert(shorter[k] == runs[k]);
            }
        }
    }
}

/// One feed's failure never touches another feed. In every history that
/// begins on a url-file, the `j`-th attempt of the last run is for the
/// `j`-th URL of the file and has the outcome that the `j`-th response
/// means for that URL, whatever the other responses were.
pub proof fn law_failures_are_isolated(
    contents: Seq<char>,
    runs: Seq<Run>,
    responses: Seq<Result<Result<FeedView, Seq<char>>, Seq<char>>>,
)
    requires
        is_history(runs, responses),
        runs[0] == started(contents),
    ensures
        runs.last().attempts.len() == responses.len(),
        forall|j: int|
            0 <= j < responses.len() ==> {
                let attempt = #[trigger] runs.last().attempts[j];
                &&& attempt.url == crate::urls::url_list(contents)[j]
                &&& attempt.outcome == outcome_of(attempt.url, responses[j])
            },
    decreases responses.len(),
{
    let urls = crate::urls::url_list(contents);
    law_fetches_follow_file(contents, runs, responses);
    if responses.len() > 0 {
        let n = responses.len() as int;
        let shorter = runs.drop_last();
        let fewer = responses.drop_last();
        assert(is_history(shorter, fewer)) by {
            assert forall|k: int| 0 <= k < fewer.len() implies is_step(
                #[trigger] shorter[k],
                fewer[k],
                shorter[k + 1],
            ) by {
                assert(is_step(runs[k], responses[k], runs[k + 1]));
            }
        }
        law_failures_are_isolated(contents, shorter, fewer);
        assert(shorter.last() == runs[n - 1]);
        assert(runs.last() == runs[n]);
        assert(is_step(runs[n - 1], responses[n - 1], runs[n]));
        assert(runs[n - 1].pending == urls.skip(n - 1));
        assert forall|j: int| 0 <= j < responses.len() implies ({
            let attempt = #[trigger] runs.last().attempts[j];
            &&& attempt.url == urls[j]
            &&& attempt.outcome == outcome_of(attempt.url, responses[j])
        }) by {
            if j < n - 1 {
                assert(runs[n].attempts.drop_last()[j] == runs[n].attempts[j]);
                assert(shorter.last().attempts[j] == runs[n].attempts[j]);
                assert(fewer[j] == responses[j]);
            } else {
                assert(runs[n].attempts[j] == runs[n].attempts.last());
            }
        }
    }
}

} // verus!
