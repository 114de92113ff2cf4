//! One item of a feed, as the parser delivers it.

use vstd::prelude::*;

use super::date::Timestamp;

verus! {

/// What the library reads of one item of a parsed feed.
#[derive(Debug, Clone, PartialEq, Eq, Default)]
pub struct Entry {
    /// The identifier of the item within its feed.
    pub id: String,
    /// The title, which may hold markup.
    pub title: Option<String>,
    /// The names of the authors, in the order of the feed.
    pub authors: Vec<String>,
    /// The body of the content, which may hold markup.
    pub content: Option<String>,
    /// The summary, which may hold markup.
    pub summary: Option<String>,
    /// The addresses that the item links to, in the order of the feed.
    pub links: Vec<String>,
    /// When the item was first published.
    pub published: Option<Timestamp>,
    /// When the item was last changed.
    pub updated: Option<Timestamp>,
}

/// An [`Entry`] as contracts see it.
pub struct EntryView {
    pub id: Seq<char>,
    pub title: Option<Seq<char>>,
    pub authors: Seq<Seq<char>>,
    pub content: Option<Seq<char>>,
    pub summary: Option<Seq<char>>,
    pub links: Seq<Seq<char>>,
    pub published: Option<Timestamp>,
    pub updated: Option<Timestamp>,
}

impl DeepView for Entry {
    type V = EntryView;

    open spec fn deep_view(&self) -> EntryView {
        EntryView {
            id: self.id@,
            title: self.title.deep_view(),
            authors: self.authors.deep_view(),
            content: self.content.deep_view(),
            summary: self.summary.deep_view(),
            links: self.links.deep_view(),
            published: self.published,
            updated: self.updated,
        }
    }
}

impl View for Entry {
    type V = EntryView;

    open spec fn view(&self) -> EntryView {
        self.deep_view()
    }
}

} // verus!
