//! The feed model: a title and the entries in document order.

use vstd::prelude::*;

verus! {

/// One item of a feed.
#[derive(Debug, Clone, PartialEq, Eq)]
pub struct Entry {
    /// The item's title; a feed may hold untitled items.
    pub title: Option<String>,
}

/// A parsed syndication document.
#[derive(Debug, Clone, PartialEq, Eq)]
pub struct Feed {
    /// The feed's title; a feed may be untitled.
    pub title: Option<String>,
    /// The items, in the order of the document.
    pub entries: Vec<Entry>,
}

/// What an `Entry` says.
pub ghost struct EntryView {
    pub title: Option<Seq<char>>,
}

/// What a `Feed` says.
pub ghost struct FeedView {
    pub title: Option<Seq<char>>,
    pub entries: Seq<EntryView>,
}

impl View for Entry {
    type V = EntryView;

    open spec fn view(&self) -> EntryView {
        EntryView {
            title: match self.title {
                Some(t) => Some(t@),
                None => None,
            },
        }
    }
}

impl View for Feed {
    type V = FeedView;

    open spec fn view(&self) -> FeedView {
        FeedView {
            title: match self.title {
                Some(t) => Some(t@),
                None => None,
            },
            entries: self.entries@.map_values(|e: Entry| e@),
        }
    }
}

/// The heading line of a feed titled `title`.
pub open spec fn heading(title: Seq<char>) -> Seq<char> {
    "# "@ + title
}

/// The bulleted line of an entry titled `title`.
pub open spec fn bullet(title: Seq<char>) -> Seq<char> {
    "- "@ + title
}

/// The line that an entry contributes to a summary: a bullet if it has a
/// title, nothing if it has none.
pub open spec fn entry_line(entry: EntryView) -> Option<Seq<char>> {
    match entry.title {
        Some(t) => Some(bullet(t)),
        None => None,
    }
}

/// The lines that a feed's title contributes: one heading, or nothing.
pub open spec fn heading_lines(title: Option<Seq<char>>) -> Seq<Seq<char>> {
    match title {
        Some(t) => seq![heading(t)],
        None => Seq::empty(),
    }
}

/// The summary of a feed, line by line: the heading if the feed has a title,
/// then one bullet for each titled entry, in the feed's order.
pub open spec fn summary(feed: FeedView) -> Seq<Seq<char>> {
    heading_lines(feed.title) + feed.entries.filter_map(|e: EntryView| entry_line(e))
}

} // verus!
