//! What can go wrong while feeds are ingested, and which failures end a run.

use vstd::prelude::*;
use vstd::string::*;

verus! {

/// A failure of feed ingestion.
#[derive(Debug, Clone, PartialEq, Eq)]
pub enum IngestError {
    /// The url-file could not be opened or read.
    UrlFile { cause: String },
    /// The document behind `url` could not be retrieved.
    Fetch { url: String, cause: String },
    /// The document behind `url` was retrieved but is no feed.
    Parse { url: String, cause: String },
    /// A summary could not be written to the output.
    Output { cause: String },
}

/// What an `IngestError` says.
pub ghost enum Failure {
    UrlFile { cause: Seq<char> },
    Fetch { url: Seq<char>, cause: Seq<char> },
    Parse { url: Seq<char>, cause: Seq<char> },
    Output { cause: Seq<char> },
}

impl View for IngestError {
    type V = Failure;

    open spec fn view(&self) -> Failure {
        match self {
            IngestError::UrlFile { cause } => Failure::UrlFile { cause: cause@ },
            IngestError::Fetch { url, cause } => Failure::Fetch { url: url@, cause: cause@ },
            IngestError::Parse { url, cause } => Failure::Parse { url: url@, cause: cause@ },
            IngestError::Output { cause } => Failure::Output { cause: cause@ },
        }
    }
}

/// Whether a failure ends the run: a url-file that cannot be read and an
/// output that cannot be written do, a feed that cannot be fetched or parsed
/// does not.
pub open spec fn fatal(failure: Failure) -> bool {
    failure is UrlFile || failure is Output
}

/// The line that reports a failure to the user. A failure of one feed names
/// the feed's URL.
pub open spec fn report_line(failure: Failure) -> Seq<char> {
    match failure {
        Failure::UrlFile { cause } => "Error processing URLs file: "@ + cause,
        Failure::Fetch { url, cause } => "Error fetching "@ + url + ": "@ + cause,
        Failure::Parse { url, cause } => "Error parsing "@ + url + ": "@ + cause,
        Failure::Output { cause } => "Error writing output: "@ + cause,
    }
}

impl IngestError {
    /// Whether this failure ends the run.
    pub fn is_fatal(&self) -> (yes: bool)
        ensures
            yes == fatal(self@),
    {
        match self {
            IngestError::UrlFile { .. } => true,
            IngestError::Fetch { .. } => false,
            IngestError::Parse { .. } => false,
            IngestError::Output { .. } => true,
        }
    }

    /// The line that reports this failure to the user.
    pub fn message(&self) -> (line: String)
        ensures
            line@ == report_line(self@),
    {
        match self {
            IngestError::UrlFile { cause } => {
                let mut line = String::from_str("Error processing URLs file: ");
                line.append(cause.as_str());
                line
            },
            IngestError::Fetch { url, cause } => {
                let mut line = String::from_str("Error fetching ");
                line.append(url.as_str());
                line.append(": ");
                line.append(cause.as_str());
                line
            },
            IngestError::Parse { url, cause } => {
                let mut line = String::from_str("Error parsing ");
                line.append(url.as_str());
                line.append(": ");
                line.append(cause.as_str());
                line
            },
            IngestError::Output { cause } => {
                let mut line = String::from_str("Error writing output: ");
                line.append(cause.as_str());
                line
            },
        }
    }
}

} // verus!
