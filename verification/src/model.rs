//! The state of the reader: the fetches in flight, the state of each feed
//! and the history of read articles, and what each event does to them.
//!
//! The model decides; it neither fetches nor draws. Whoever runs it
//! performs the fetches that it dispatches, hands their outcomes to its
//! pool, and shows what its answers tell.

use vstd::prelude::*;

use crate::client::{
    dispatched, idle_pool, outcome_of, poll_product, polled, FeedClient, Outcome, PoolView,
};
use crate::config::{Config, SourceConfig};
use crate::feed::{error_text, Article, ArticleView, FeedErrorView, FeedSource, FeedView};
use crate::helpers::order::{sort_names, texts_ascending};
use crate::history::{
    all_marked_read, article_is_read, filtered, ids_of, inserted, marked_read, source_is_read,
    source_marked_read, History, Records,
};
use crate::kiosk::{flat_of, FeedState, FeedStateView, FlatFeedState, Kiosk, States};

verus! {

/// The model of the reader.
pub struct Model {
    /// The fetches in flight.
    pub client: FeedClient,
    /// The configuration.
    pub config: Config,
    /// The history of read articles.
    pub history: History,
    /// The state of the feed of each source.
    pub kiosk: Kiosk,
}

/// What a dispatched fetch tells whoever runs it and shows it.
#[derive(Debug, Clone, Copy, PartialEq, Eq)]
pub struct Dispatch {
    /// The ticket under which the outcome is to be handed to the pool.
    pub ticket: u64,
    /// Whether every recorded article of the source is read.
    pub read: bool,
}

/// What a polled outcome changes in what is shown.
#[derive(Debug, PartialEq, Eq)]
pub struct FetchUpdate {
    /// The name of the source.
    pub name: String,
    /// The new state of its feed.
    pub state: FlatFeedState,
    /// Whether every recorded article of the source is read.
    pub read: bool,
    /// The message to show, where the fetch failed.
    pub error: Option<String>,
}

/// What a viewed article changes in what is shown.
#[derive(Debug, Clone, Copy, PartialEq, Eq)]
pub struct ViewUpdate {
    /// Whether the article became read, so that the list of articles is to
    /// be drawn again.
    pub reload: bool,
    /// The state of the feed, where every recorded article of the source
    /// is read now, so that the source is to be shown as read.
    pub read_source: Option<FlatFeedState>,
}

/// `states` with each of `sources` set to loading.
pub open spec fn loading(states: States, sources: Seq<SourceConfig>) -> States
    decreases sources.len(),
{
    if sources.len() == 0 {
        states
    } else {
        loading(states, sources.drop_last()).insert(sources.last().name@, FeedStateView::Loading)
    }
}

/// `pool` after a fetch of each of `sources` was dispatched, in their
/// order.
pub open spec fn dispatched_all(pool: PoolView, sources: Seq<SourceConfig>) -> PoolView
    decreases sources.len(),
{
    if sources.len() == 0 {
        pool
    } else {
        dispatched(
            dispatched_all(pool, sources.drop_last()),
            sources.last().name@,
            sources.last().source@,
        )
    }
}

/// `records` after each of `articles` was seen in `source` at `now`, in
/// their order.
pub open spec fn inserted_all(
    records: Records,
    source: Seq<char>,
    articles: Seq<ArticleView>,
    now: u64,
) -> Records
    decreases articles.len(),
{
    if articles.len() == 0 {
        records
    } else {
        inserted(
            inserted_all(records, source, articles.drop_last(), now),
            source,
            articles.last(),
            now,
        )
    }
}

/// `records` after the feed that was fetched under `name` was taken in:
/// the records of `name` whose article the feed no longer has are dropped,
/// and each article of the feed is recorded under the name of the feed,
/// unless it is recorded already.
pub open spec fn reconciled(records: Records, name: Seq<char>, feed: FeedView, now: u64)
    -> Records {
    inserted_all(filtered(records, name, ids_of(feed.articles)), feed.name, feed.articles, now)
}

/// `records` after the outcome of the fetch under `name` was taken in: a
/// feed is reconciled, a failure changes nothing.
pub open spec fn records_after(records: Records, name: Seq<char>, outcome: Outcome, now: u64)
    -> Records {
    match outcome {
        Ok(feed) => reconciled(records, name, feed, now),
        Err(_) => records,
    }
}

/// The state that an outcome puts a feed in.
pub open spec fn state_of(outcome: Outcome) -> FeedStateView {
    match outcome {
        Ok(feed) => FeedStateView::Success(feed),
        Err(error) => FeedStateView::Error(error),
    }
}

/// The message that tells a failed fetch.
pub open spec fn fetch_error_text(name: Seq<char>, error: FeedErrorView) -> Seq<char> {
    "Could not fetch feed \""@ + name + "\": "@ + error_text(error)
}

/// The message that an outcome shows: none for a feed.
pub open spec fn message_of(name: Seq<char>, outcome: Outcome) -> Option<Seq<char>> {
    match outcome {
        Ok(_) => None,
        Err(error) => Some(fetch_error_text(name, error)),
    }
}

/// The state that is shown for a source: that of its feed, or success for
/// a source that the kiosk does not know.
pub open spec fn shown_state(states: States, name: Seq<char>) -> FlatFeedState {
    if states.contains_key(name) {
        flat_of(states[name])
    } else {
        FlatFeedState::Success
    }
}

/// The article at `index` of the feed of `name`, where the source has a
/// feed and the feed so many articles.
pub open spec fn article_at(states: States, name: Seq<char>, index: int) -> Option<ArticleView> {
    if states.contains_key(name) {
        match states[name] {
            FeedStateView::Success(feed) => if 0 <= index < feed.articles.len() {
                Some(feed.articles[index])
            } else {
                None
            },
            _ => None,
        }
    } else {
        None
    }
}

/// `records` after the article at `index` of the feed of `name` was
/// viewed at `now`: an unread article is marked as read, anything else
/// changes nothing.
pub open spec fn records_after_view(
    records: Records,
    states: States,
    name: Seq<char>,
    index: int,
    now: u64,
) -> Records {
    match article_at(states, name, index) {
        Some(article) => if article_is_read(records, name, article.id) {
            records
        } else {
            marked_read(records, name, article, now)
        },
        None => records,
    }
}

impl Model {
    /// The model of a reader that starts: each configured source is
    /// loading, and no fetch is in flight.
    pub fn new(config: Config, history: History) -> (model: Model)
        ensures
            model.client@ == idle_pool(),
            model.kiosk@ == loading(Map::empty(), config.sources@),
            model.config == config,
            model.history == history,
    {
        let mut kiosk = Kiosk::default();
        let mut i: usize = 0;
        assert(config.sources@.take(0) =~= Seq::<SourceConfig>::empty());
        while i < config.sources.len()
            invariant
                i <= config.sources.len(),
                kiosk@ == loading(Map::empty(), config.sources@.take(i as int)),
            decreases config.sources.len() - i,
        {
            kiosk.insert_feed(config.sources[i].name.as_str(), FeedState::Loading);
            assert(config.sources@.take(i + 1).drop_last() =~= config.sources@.take(i as int));
            i += 1;
        }
        assert(config.sources@.take(i as int) =~= config.sources@);
        Model { client: FeedClient::default(), config, history, kiosk }
    }

    /// Dispatches a fetch of `source` under `name`, and sets the source to
    /// loading.
    pub fn fetch_source(&mut self, name: &str, source: &FeedSource) -> (order: Dispatch)
        requires
            old(self).client@.next_ticket < u64::MAX,
        ensures
            final(self).client@ == dispatched(old(self).client@, name@, source@),
            final(self).kiosk@ == old(self).kiosk@.insert(name@, FeedStateView::Loading),
            final(self).history == old(self).history,
            final(self).config == old(self).config,
            order.ticket == old(self).client@.next_ticket,
            order.read == source_is_read(old(self).history@, name@),
    {
        let ticket = self.client.fetch(name, source);
        self.kiosk.insert_feed(name, FeedState::Loading);
        Dispatch { ticket, read: self.history.is_source_read(name) }
    }

    /// Dispatches a fetch of each configured source, in the order of the
    /// configuration, and sets each to loading. Returns the ticket of each
    /// fetch, in that order.
    pub fn fetch_all_sources(&mut self) -> (tickets: Vec<u64>)
        requires
            old(self).client@.next_ticket + old(self).config.sources@.len() <= u64::MAX,
        ensures
            final(self).client@ == dispatched_all(old(self).client@, old(self).config.sources@),
            final(self).kiosk@ == loading(old(self).kiosk@, old(self).config.sources@),
            final(self).history == old(self).history,
            final(self).config == old(self).config,
            tickets@.len() == old(self).config.sources@.len(),
            forall|i: int|
                0 <= i < tickets@.len() ==> #[trigger] tickets@[i] == old(self).client@.next_ticket
                    + i,
    {
        let mut tickets: Vec<u64> = Vec::new();
        let ghost sources = self.config.sources@;
        let ghost first = self.client@.next_ticket;
        let mut i: usize = 0;
        assert(sources.take(0) =~= Seq::<SourceConfig>::empty());
        while i < self.config.sources.len()
            invariant
                i <= self.config.sources.len(),
                self.config == old(self).config,
                self.history == old(self).history,
                sources == self.config.sources@,
                first == old(self).client@.next_ticket,
                first + sources.len() <= u64::MAX,
                self.client@ == dispatched_all(old(self).client@, sources.take(i as int)),
                self.client@.next_ticket == first + i,
                self.kiosk@ == loading(old(self).kiosk@, sources.take(i as int)),
                tickets@.len() == i,
                forall|k: int| 0 <= k < i ==> #[trigger] tickets@[k] == first + k,
            decreases self.config.sources.len() - i,
        {
            let ticket = self.client.fetch(
                self.config.sources[i].name.as_str(),
                &self.config.sources[i].source,
            );
            self.kiosk.insert_feed(self.config.sources[i].name.as_str(), FeedState::Loading);
            tickets.push(ticket);
            assert(sources.take(i + 1).drop_last() =~= sources.take(i as int));
            i += 1;
        }
        assert(sources.take(i as int) =~= sources);
        tickets
    }

    /// Takes in the articles of a feed that was fetched under `name`.
    fn reconcile(&mut self, name: &str, articles: &Vec<Article>, feed_name: &str, now: u64)
        ensures
            final(self).history@ == inserted_all(
                filtered(old(self).history@, name@, ids_of(articles.deep_view())),
                feed_name@,
                articles.deep_view(),
                now,
            ),
            final(self).history.file() == old(self).history.file(),
            final(self).client == old(self).client,
            final(self).kiosk == old(self).kiosk,
            final(self).config == old(self).config,
    {
        let mut refs: Vec<&Article> = Vec::new();
        let mut i: usize = 0;
        while i < articles.len()
            invariant
                i <= articles.len(),
                refs.deep_view() == articles.deep_view().take(i as int),
            decreases articles.len() - i,
        {
            let ghost before = refs.deep_view();
            refs.push(&articles[i]);
            assert(refs.deep_view() =~= before.push(articles@[i as int].deep_view()));
            assert(refs.deep_view() =~= articles.deep_view().take(i + 1));
            i += 1;
        }
        assert(articles.deep_view().take(i as int) =~= articles.deep_view());
        let listed = refs.as_slice();
        assert(listed.deep_view() =~= refs.deep_view());
        self.history.filter_articles(name, listed);
        let ghost kept = self.history@;
        let ghost views = articles.deep_view();
        let mut j: usize = 0;
        assert(views.take(0) =~= Seq::<ArticleView>::empty());
        while j < articles.len()
            invariant
                j <= articles.len(),
                views == articles.deep_view(),
                self.history@ == inserted_all(kept, feed_name@, views.take(j as int), now),
                self.history.file() == old(self).history.file(),
                self.client == old(self).client,
                self.kiosk == old(self).kiosk,
                self.config == old(self).config,
            decreases articles.len() - j,
        {
            self.history.insert_at(feed_name, &articles[j], now);
            assert(views.take(j + 1).drop_last() =~= views.take(j as int));
            j += 1;
        }
        assert(views.take(j as int) =~= views);
    }

    /// Polls the pool. Where a fetch has ended, its outcome becomes the
    /// state of its source; a feed is taken into the history first: the
    /// records of articles that it no longer has are dropped, and its
    /// articles are recorded as seen at `now`. Returns what is to be shown,
    /// or nothing where no fetch has ended.
    pub fn poll_fetched_sources(&mut self, now: u64) -> (update: Option<FetchUpdate>)
        ensures
            final(self).client@ == polled(old(self).client@),
            final(self).config == old(self).config,
            final(self).history.file() == old(self).history.file(),
            match poll_product(old(self).client@) {
                Some((name, outcome)) => {
                    &&& final(self).history@ == records_after(old(self).history@, name, outcome, now)
                    &&& final(self).kiosk@ == old(self).kiosk@.insert(name, state_of(outcome))
                    &&& update matches Some(shown)
                    &&& shown.name@ == name
                    &&& shown.state == flat_of(state_of(outcome))
                    &&& shown.read == source_is_read(final(self).history@, name)
                    &&& shown.error.deep_view() == message_of(name, outcome)
                },
                None => {
                    &&& update is None
                    &&& final(self).history@ == old(self).history@
                    &&& final(self).kiosk@ == old(self).kiosk@
                },
            },
    {
        match self.client.poll() {
            Some((name, result)) => {
                let ghost outcome = outcome_of(result);
                let (state, error) = match result {
                    Ok(feed) => {
                        self.reconcile(
                            name.as_str(),
                            feed.articles(),
                            feed.name().as_str(),
                            now,
                        );
                        (FeedState::Success(feed), None)
                    },
                    Err(error) => {
                        let mut message = String::from_str("Could not fetch feed \"");
                        message.append(name.as_str());
                        message.append("\": ");
                        message.append(error.to_string().as_str());
                        (FeedState::Error(error), Some(message))
                    },
                };
                let flat = FlatFeedState::from(&state);
                self.kiosk.insert_feed(name.as_str(), state);
                let read = self.history.is_source_read(name.as_str());
                Some(FetchUpdate { name, state: flat, read, error })
            },
            None => None,
        }
    }

    /// Marks the article at `index` of the feed of `name` as viewed at
    /// `now`, unless it is read already. Nothing happens where the source
    /// has no feed, or the feed no such article.
    pub fn mark_viewed_article(&mut self, name: &str, index: usize, now: u64) -> (update: ViewUpdate)
        ensures
            final(self).history@ == records_after_view(
                old(self).history@,
                old(self).kiosk@,
                name@,
                index as int,
                now,
            ),
            final(self).history.file() == old(self).history.file(),
            final(self).client == old(self).client,
            final(self).kiosk == old(self).kiosk,
            final(self).config == old(self).config,
            match article_at(old(self).kiosk@, name@, index as int) {
                Some(article) => {
                    &&& update.reload == !article_is_read(old(self).history@, name@, article.id)
                    &&& update.read_source == if source_is_read(final(self).history@, name@) {
                        Some(shown_state(old(self).kiosk@, name@))
                    } else {
                        None
                    }
                },
                None => !update.reload && update.read_source is None,
            },
    {
        let article = match self.kiosk.get_feed(name) {
            Some(feed) => {
                if index < feed.articles().len() {
                    feed.articles()[index].clone()
                } else {
                    return ViewUpdate { reload: false, read_source: None };
                }
            },
            None => {
                return ViewUpdate { reload: false, read_source: None };
            },
        };
        let was_read = self.history.is_article_read(name, &article);
        if !was_read {
            self.history.read_at(name, &article, now);
        }
        let read_source = if self.history.is_source_read(name) {
            Some(self.shown_state_of(name))
        } else {
            None
        };
        ViewUpdate { reload: !was_read, read_source }
    }

    /// The state that is shown for a source: that of its feed, or success
    /// for a source that the kiosk does not know.
    pub fn shown_state_of(&self, name: &str) -> (state: FlatFeedState)
        ensures
            state == shown_state(self.kiosk@, name@),
    {
        match self.kiosk.get_feed_state(name) {
            Some(state) => FlatFeedState::from(state),
            None => FlatFeedState::Success,
        }
    }

    /// Marks every recorded article of the source as viewed at `now`, and
    /// returns the state to show for the source.
    pub fn mark_source_as_read(&mut self, name: &str, now: u64) -> (state: FlatFeedState)
        ensures
            final(self).history@ == source_marked_read(old(self).history@, name@, now),
            final(self).history.file() == old(self).history.file(),
            final(self).client == old(self).client,
            final(self).kiosk == old(self).kiosk,
            final(self).config == old(self).config,
            state == shown_state(old(self).kiosk@, name@),
    {
        self.history.read_source_at(name, now);
        self.shown_state_of(name)
    }

    /// Marks every recorded article as viewed at `now`, and returns each
    /// source of the kiosk with the state to show for it.
    pub fn mark_all_sources_as_read(&mut self, now: u64) -> (states: Vec<(String, FlatFeedState)>)
        ensures
            final(self).history@ == all_marked_read(old(self).history@, now),
            final(self).history.file() == old(self).history.file(),
            final(self).client == old(self).client,
            final(self).kiosk == old(self).kiosk,
            final(self).config == old(self).config,
            states.len() == old(self).kiosk@.len(),
            forall|i: int|
                0 <= i < states.len() ==> old(self).kiosk@.contains_key((#[trigger] states@[i]).0@)
                    && states@[i].1 == flat_of(old(self).kiosk@[states@[i].0@]),
            forall|i: int, j: int|
                0 <= i < j < states.len() ==> (#[trigger] states@[i]).0@ != (
                #[trigger] states@[j]).0@,
    {
        self.history.read_all_at(now);
        self.kiosk.get_state()
    }

    /// Returns the names of the sources of the kiosk, each once, in the
    /// order of dictionaries.
    pub fn sorted_sources(&self) -> (names: Vec<&String>)
        ensures
            names.len() == self.kiosk@.len(),
            texts_ascending(names.deep_view()),
            forall|i: int|
                0 <= i < names.len() ==> self.kiosk@.contains_key(#[trigger] names.deep_view()[i]),
            names.deep_view().no_duplicates(),
    {
        let sources = self.kiosk.sources();
        let names = sort_names(sources);
        proof {
            let given = sources.deep_view();
            let sorted = names.deep_view();
            assert(given.no_duplicates()) by {
                assert forall|i: int, j: int|
                    0 <= i < given.len() && 0 <= j < given.len() && i != j implies given[i]
                    != given[j] by {
                    if i < j {
                        assert(sources@[i]@ != sources@[j]@);
                    } else {
                        assert(sources@[j]@ != sources@[i]@);
                    }
                }
            }
            given.lemma_multiset_has_no_duplicates();
            sorted.lemma_multiset_has_no_duplicates_conv();
            given.to_multiset_ensures();
            sorted.to_multiset_ensures();
            assert forall|i: int| 0 <= i < names.len() implies self.kiosk@.contains_key(
                #[trigger] sorted[i],
            ) by {
                assert(sorted.contains(sorted[i]));
                assert(sorted.to_multiset().count(sorted[i]) > 0);
                assert(given.to_multiset().count(sorted[i]) > 0);
                assert(given.contains(sorted[i]));
                let k = choose|k: int| 0 <= k < given.len() && given[k] == sorted[i];
                assert(sources@[k]@ == given[k]);
            }
        }
        names
    }
}

/// Recording articles keeps every record that there was, as it was, and
/// adds none but for the source and the articles that are recorded.
pub proof fn lemma_inserted_all_keeps_records(
    records: Records,
    source: Seq<char>,
    articles: Seq<ArticleView>,
    now: u64,
    key: (Seq<char>, Seq<char>),
)
    ensures
        records.contains_key(key) ==> inserted_all(records, source, articles, now).contains_key(
            key,
        ) && inserted_all(records, source, articles, now)[key] == records[key],
        inserted_all(records, source, articles, now).contains_key(key) ==> records.contains_key(
            key,
        ) || (key.0 == source && ids_of(articles).contains(key.1)),
    decreases articles.len(),
{
    if articles.len() > 0 {
        lemma_inserted_all_keeps_records(records, source, articles.drop_last(), now, key);
        let earlier = inserted_all(records, source, articles.drop_last(), now);
        if earlier.contains_key(key) && !records.contains_key(key) {
            let i = choose|i: int|
                0 <= i < articles.drop_last().len() && (#[trigger] articles.drop_last()[i]).id
                    == key.1;
            assert(articles[i].id == key.1);
        }
        if key == (source, articles.last().id) {
            assert(articles[articles.len() - 1].id == key.1);
        }
    }
}

/// Once a feed is taken in, each of its articles is recorded under the name
/// of the feed.
pub proof fn lemma_reconciled_records_every_article(
    records: Records,
    name: Seq<char>,
    feed: FeedView,
    now: u64,
    index: int,
)
    requires
        0 <= index < feed.articles.len(),
    ensures
        reconciled(records, name, feed, now).contains_key((feed.name, feed.articles[index].id)),
{
    let kept = filtered(records, name, ids_of(feed.articles));
    lemma_inserted_all_records(kept, feed.name, feed.articles, now, index);
}

proof fn lemma_inserted_all_records(
    records: Records,
    source: Seq<char>,
    articles: Seq<ArticleView>,
    now: u64,
    index: int,
)
    requires
        0 <= index < articles.len(),
    ensures
        inserted_all(records, source, articles, now).contains_key((source, articles[index].id)),
    decreases articles.len(),
{
    if index < articles.len() - 1 {
        lemma_inserted_all_records(records, source, articles.drop_last(), now, index);
    }
}

/// Taking a feed in touches the records of no other source: a record that
/// belongs neither to the name under which the feed was fetched nor to the
/// name of the feed is there afterwards exactly if it was there before, and
/// is the same.
pub proof fn lemma_reconciled_leaves_other_sources(
    records: Records,
    name: Seq<char>,
    feed: FeedView,
    now: u64,
    key: (Seq<char>, Seq<char>),
)
    requires
        key.0 != name,
        key.0 != feed.name,
    ensures
        reconciled(records, name, feed, now).contains_key(key) == records.contains_key(key),
        records.contains_key(key) ==> reconciled(records, name, feed, now)[key] == records[key],
{
    let kept = filtered(records, name, ids_of(feed.articles));
    lemma_inserted_all_keeps_records(kept, feed.name, feed.articles, now, key);
}

/// Taking a feed in keeps what is known of the articles that the feed still
/// has: a record of the source whose article is among those of the feed
/// stays as it is, and so does the reading of that article.
pub proof fn lemma_reconciled_keeps_known_articles(
    records: Records,
    name: Seq<char>,
    feed: FeedView,
    now: u64,
    id: Seq<char>,
)
    requires
        records.contains_key((name, id)),
        ids_of(feed.articles).contains(id),
    ensures
        reconciled(records, name, feed, now).contains_key((name, id)),
        reconciled(records, name, feed, now)[(name, id)] == records[(name, id)],
{
    let kept = filtered(records, name, ids_of(feed.articles));
    lemma_inserted_all_keeps_records(kept, feed.name, feed.articles, now, (name, id));
}

/// Taking in a feed that was fetched under its own name drops the records
/// of the articles that the feed no longer has.
pub proof fn lemma_reconciled_drops_vanished_articles(
    records: Records,
    feed: FeedView,
    now: u64,
    id: Seq<char>,
)
    requires
        !ids_of(feed.articles).contains(id),
    ensures
        !reconciled(records, feed.name, feed, now).contains_key((feed.name, id)),
{
    let kept = filtered(records, feed.name, ids_of(feed.articles));
    lemma_inserted_all_keeps_records(kept, feed.name, feed.articles, now, (feed.name, id));
}

} // verus!
