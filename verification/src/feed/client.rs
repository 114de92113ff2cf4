//! From a parsed feed to its articles.

use feed_rs::model::Feed as RssFeed;
use feed_rs::parser::ParseFeedError;
use vstd::prelude::*;

use super::date::Timestamp;
use super::entry::{Entry, EntryView};
use super::result::{FeedError, FeedResult};
use super::{articles_of, is_stable_sort_of, Feed};

verus! {

/// A feed as the `feed-rs` crate parses it.
#[verifier::external_type_specification]
#[verifier::external_body]
pub struct ExRssFeed(RssFeed);

/// What a parsed feed holds: of each of its items, in the order of the
/// feed, what the library reads of it.
pub uninterp spec fn parsed_entries(feed: RssFeed) -> Seq<EntryView>;

/// Copies out of a `feed_rs::model::Feed` what the library reads of each of
/// its `entries`, field by field and in their order: the identifier, the
/// text of the title, of the content and of the summary, the names of the
/// authors, the addresses of the links, and the two dates as seconds and
/// nanoseconds since the start of 1970.
#[verifier::external_body]
fn read_entries(feed: RssFeed) -> (entries: Vec<Entry>)
    ensures
        entries.deep_view() == parsed_entries(feed),
{
    feed.entries.into_iter().map(
        |entry|
            Entry {
                id: entry.id,
                title: entry.title.map(|text| text.content),
                authors: entry.authors.into_iter().map(|person| person.name).collect(),
                content: entry.content.and_then(|content| content.body),
                summary: entry.summary.map(|text| text.content),
                links: entry.links.into_iter().map(|link| link.href).collect(),
                published: entry.published.map(|t| Timestamp::new(t.timestamp(), t.timestamp_subsec_nanos())),
                updated: entry.updated.map(|t| Timestamp::new(t.timestamp(), t.timestamp_subsec_nanos())),
            },
    ).collect()
}

/// Feed client: turns what a source delivered into a [`Feed`].
#[derive(Debug, Default)]
pub struct Client;

impl Client {
    /// Makes the feed named `name` of what the parser of the `feed-rs`
    /// crate made of the bytes that the source delivered: the feed of the
    /// entries that it found, or its error as a parse error. The parser
    /// itself is called by whoever read the bytes: on some feeds it unwinds,
    /// which this library never does.
    pub fn feed_of(&self, name: &str, parsed: Result<RssFeed, ParseFeedError>) -> (result:
        FeedResult<Feed>)
        ensures
            match (result, parsed) {
                (Ok(feed), Ok(found)) => feed@.name == name@ && is_stable_sort_of(
                    feed@.articles,
                    articles_of(parsed_entries(found)),
                ),
                (Err(error), Err(_)) => error is Parse,
                _ => false,
            },
    {
        match parsed {
            Ok(found) => Ok(Feed::new(name, read_entries(found))),
            Err(error) => Err(FeedError::from(error)),
        }
    }
}

} // verus!
