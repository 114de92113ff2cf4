//! The history of read articles.
//!
//! For each article that a source has shown, the history keeps when the
//! article appeared and when the user last viewed it. An article is read
//! once it was viewed at or after the time it appeared.

use std::path::PathBuf;
use std::time::SystemTime;
use vstd::prelude::*;

use crate::feed::{Article, ArticleView};

verus! {

/// `std::path::PathBuf`, carried through as it is.
#[verifier::external_type_specification]
#[verifier::external_body]
pub struct ExPathBuf(PathBuf);

/// What the history keeps of one article, in seconds since the start of
/// 1970.
#[derive(Debug, Clone, Copy, PartialEq, Eq, Structural)]
pub struct ArticleHistory {
    /// When the article was published or, where it bears no date, first
    /// seen.
    pub timestamp: u64,
    /// When the article was last viewed, if it ever was.
    pub last_viewed: Option<u64>,
}

impl ArticleHistory {
    /// Whether the article has been read: it was viewed, and not before it
    /// appeared.
    pub open spec fn read(self) -> bool {
        match self.last_viewed {
            Some(viewed) => viewed >= self.timestamp,
            None => false,
        }
    }

    /// The same article, viewed at `now`.
    pub open spec fn viewed_at(self, now: u64) -> ArticleHistory {
        ArticleHistory { timestamp: self.timestamp, last_viewed: Some(now) }
    }

    /// Returns whether the article has been read.
    pub fn is_read(&self) -> (r: bool)
        ensures
            r == self.read(),
    {
        match self.last_viewed {
            Some(viewed) => viewed >= self.timestamp,
            None => false,
        }
    }
}

/// One record of the history: an article of a source, and what is kept of
/// it.
#[derive(Debug, PartialEq, Eq)]
pub struct HistoryRecord {
    /// The name of the source.
    pub source: String,
    /// The identifier of the article within the source.
    pub id: String,
    /// What is kept of the article.
    pub state: ArticleHistory,
}

/// A [`HistoryRecord`] as contracts see it.
pub struct HistoryRecordView {
    pub source: Seq<char>,
    pub id: Seq<char>,
    pub state: ArticleHistory,
}

impl DeepView for HistoryRecord {
    type V = HistoryRecordView;

    open spec fn deep_view(&self) -> HistoryRecordView {
        HistoryRecordView { source: self.source@, id: self.id@, state: self.state }
    }
}

impl View for HistoryRecord {
    type V = HistoryRecordView;

    open spec fn view(&self) -> HistoryRecordView {
        self.deep_view()
    }
}

impl Clone for HistoryRecord {
    fn clone(&self) -> (copy: HistoryRecord)
        ensures
            copy@ == self@,
    {
        HistoryRecord { source: self.source.clone(), id: self.id.clone(), state: self.state }
    }
}

/// What a record is found by: the name of its source and the identifier of
/// its article.
pub type RecordKey = (Seq<char>, Seq<char>);

/// The records of a history, each under its key.
pub type Records = Map<RecordKey, ArticleHistory>;

/// The key of a record.
pub open spec fn key_of(record: HistoryRecordView) -> RecordKey {
    (record.source, record.id)
}

/// The time under which a new article is recorded: its date in whole
/// seconds since the start of 1970, which is 0 for a date before that, or
/// `now` where the article bears no date.
pub open spec fn article_time(article: ArticleView, now: u64) -> u64 {
    match article.date {
        Some(date) => match date.whole_seconds() {
            Some(seconds) => seconds,
            None => 0,
        },
        None => now,
    }
}

/// `records` after `article` of `source` was seen at `now`: a record that
/// exists stays as it is, a new one is unread.
pub open spec fn inserted(records: Records, source: Seq<char>, article: ArticleView, now: u64)
    -> Records {
    if records.contains_key((source, article.id)) {
        records
    } else {
        records.insert(
            (source, article.id),
            ArticleHistory { timestamp: article_time(article, now), last_viewed: None },
        )
    }
}

/// `records` after `article` of `source` was viewed at `now`.
pub open spec fn marked_read(records: Records, source: Seq<char>, article: ArticleView, now: u64)
    -> Records {
    let with = inserted(records, source, article, now);
    with.insert((source, article.id), with[(source, article.id)].viewed_at(now))
}

/// `records` after every recorded article of `source` was viewed at `now`.
pub open spec fn source_marked_read(records: Records, source: Seq<char>, now: u64) -> Records {
    Map::new(
        |key: RecordKey| records.contains_key(key),
        |key: RecordKey|
            if key.0 == source {
                records[key].viewed_at(now)
            } else {
                records[key]
            },
    )
}

/// `records` after every recorded article was viewed at `now`.
pub open spec fn all_marked_read(records: Records, now: u64) -> Records {
    Map::new(
        |key: RecordKey| records.contains_key(key),
        |key: RecordKey| records[key].viewed_at(now),
    )
}

/// `records` without the records of `source` whose article is not among
/// `ids`.
pub open spec fn filtered(records: Records, source: Seq<char>, ids: Set<Seq<char>>) -> Records {
    records.restrict(Set::new(|key: RecordKey| key.0 != source || ids.contains(key.1)))
}

/// Whether the article `id` of `source` is recorded and read.
pub open spec fn article_is_read(records: Records, source: Seq<char>, id: Seq<char>) -> bool {
    records.contains_key((source, id)) && records[(source, id)].read()
}

/// Whether every recorded article of `source` is read.
pub open spec fn source_is_read(records: Records, source: Seq<char>) -> bool {
    forall|id: Seq<char>| #[trigger]
        records.contains_key((source, id)) ==> records[(source, id)].read()
}

/// The identifiers of `articles`.
pub open spec fn ids_of(articles: Seq<ArticleView>) -> Set<Seq<char>> {
    Set::new(
        |id: Seq<char>| exists|i: int| 0 <= i < articles.len() && (#[trigger] articles[i]).id == id,
    )
}

/// What a list of records amounts to: each record stands under its key, a
/// later one for the same key in place of an earlier one.
pub open spec fn imported(records: Seq<HistoryRecordView>) -> Records
    decreases records.len(),
{
    if records.len() == 0 {
        Map::empty()
    } else {
        imported(records.drop_last()).insert(key_of(records.last()), records.last().state)
    }
}

/// Whether no two of `records` have one key.
pub open spec fn distinct_keys(records: Seq<HistoryRecordView>) -> bool {
    forall|i: int, j: int|
        0 <= i < j < records.len() ==> key_of(#[trigger] records[i]) != key_of(
            #[trigger] records[j],
        )
}

spec fn has_key(records: Seq<HistoryRecordView>, key: RecordKey) -> bool {
    exists|i: int| 0 <= i < records.len() && key_of(#[trigger] records[i]) == key
}

spec fn index_of(records: Seq<HistoryRecordView>, key: RecordKey) -> int {
    choose|i: int| 0 <= i < records.len() && key_of(#[trigger] records[i]) == key
}

spec fn records_map(records: Seq<HistoryRecordView>) -> Records {
    Map::new(
        |key: RecordKey| has_key(records, key),
        |key: RecordKey| records[index_of(records, key)].state,
    )
}

proof fn lemma_record_at(records: Seq<HistoryRecordView>, i: int)
    requires
        distinct_keys(records),
        0 <= i < records.len(),
    ensures
        records_map(records).contains_key(key_of(records[i])),
        records_map(records)[key_of(records[i])] == records[i].state,
        index_of(records, key_of(records[i])) == i,
{
    let key = key_of(records[i]);
    assert(has_key(records, key));
    let j = index_of(records, key);
    assert(0 <= j < records.len() && key_of(records[j]) == key);
    if j < i {
        assert(key_of(records[j]) != key_of(records[i]));
    } else if i < j {
        assert(key_of(records[i]) != key_of(records[j]));
    }
}

proof fn lemma_push_record(records: Seq<HistoryRecordView>, record: HistoryRecordView)
    requires
        distinct_keys(records),
        !has_key(records, key_of(record)),
    ensures
        distinct_keys(records.push(record)),
        records_map(records.push(record)) == records_map(records).insert(
            key_of(record),
            record.state,
        ),
{
    let more = records.push(record);
    assert forall|i: int, j: int| 0 <= i < j < more.len() implies key_of(#[trigger] more[i])
        != key_of(#[trigger] more[j]) by {
        if j == records.len() {
            assert(more[i] == records[i]);
            if key_of(records[i]) == key_of(record) {
                assert(has_key(records, key_of(record)));
            }
        } else {
            assert(more[i] == records[i] && more[j] == records[j]);
        }
    }
    assert forall|key: RecordKey| has_key(more, key) <==> (has_key(records, key) || key == key_of(
        record,
    )) by {
        if has_key(more, key) {
            let i = index_of(more, key);
            if i < records.len() {
                assert(key_of(records[i]) == key);
            }
        }
        if has_key(records, key) {
            let i = index_of(records, key);
            assert(key_of(more[i]) == key);
        }
        if key == key_of(record) {
            assert(key_of(more[records.len() as int]) == key);
        }
    }
    assert forall|key: RecordKey| has_key(more, key) implies records_map(more)[key]
        == records_map(records).insert(key_of(record), record.state)[key] by {
        if key == key_of(record) {
            lemma_record_at(more, records.len() as int);
        } else {
            let i = index_of(records, key);
            assert(more[i] == records[i]);
            lemma_record_at(more, i);
        }
    }
    assert(records_map(more) =~= records_map(records).insert(key_of(record), record.state));
}

proof fn lemma_update_record(records: Seq<HistoryRecordView>, i: int, state: ArticleHistory)
    requires
        distinct_keys(records),
        0 <= i < records.len(),
    ensures
        distinct_keys(
            records.update(
                i,
                HistoryRecordView { source: records[i].source, id: records[i].id, state },
            ),
        ),
        records_map(
            records.update(
                i,
                HistoryRecordView { source: records[i].source, id: records[i].id, state },
            ),
        ) == records_map(records).insert(key_of(records[i]), state),
{
    let changed = records.update(
        i,
        HistoryRecordView { source: records[i].source, id: records[i].id, state },
    );
    assert forall|j: int| 0 <= j < records.len() implies key_of(#[trigger] changed[j]) == key_of(
        records[j],
    ) by {}
    assert forall|a: int, b: int| 0 <= a < b < changed.len() implies key_of(#[trigger] changed[a])
        != key_of(#[trigger] changed[b]) by {
        assert(key_of(records[a]) != key_of(records[b]));
    }
    assert forall|key: RecordKey| has_key(changed, key) <==> has_key(records, key) by {
        if has_key(changed, key) {
            let j = index_of(changed, key);
            assert(key_of(records[j]) == key);
        }
        if has_key(records, key) {
            let j = index_of(records, key);
            assert(key_of(changed[j]) == key);
        }
    }
    lemma_record_at(records, i);
    assert forall|key: RecordKey| has_key(changed, key) implies records_map(changed)[key]
        == records_map(records).insert(key_of(records[i]), state)[key] by {
        let j = index_of(records, key);
        assert(key_of(changed[j]) == key);
        lemma_record_at(changed, j);
        lemma_record_at(records, j);
    }
    assert(records_map(changed) =~= records_map(records).insert(key_of(records[i]), state));
}

/// Whether `after` holds the records of `before` with the same keys, each
/// viewed at `now` where its source is `source`, or where `source` is none.
spec fn marked(
    before: Seq<HistoryRecordView>,
    after: Seq<HistoryRecordView>,
    upto: int,
    source: Option<Seq<char>>,
    now: u64,
) -> bool {
    &&& after.len() == before.len()
    &&& forall|j: int|
        0 <= j < before.len() ==> key_of(#[trigger] after[j]) == key_of(before[j])
    &&& forall|j: int|
        0 <= j < before.len() ==> (#[trigger] after[j]).state == if j < upto && (source is None
            || source == Some(before[j].source)) {
            before[j].state.viewed_at(now)
        } else {
            before[j].state
        }
}

proof fn lemma_same_keys(before: Seq<HistoryRecordView>, after: Seq<HistoryRecordView>)
    requires
        distinct_keys(before),
        after.len() == before.len(),
        forall|j: int| 0 <= j < before.len() ==> key_of(#[trigger] after[j]) == key_of(before[j]),
    ensures
        distinct_keys(after),
        forall|key: RecordKey| has_key(after, key) == has_key(before, key),
        forall|key: RecordKey| #[trigger]
            has_key(before, key) ==> index_of(after, key) == index_of(before, key),
{
    assert forall|a: int, b: int| 0 <= a < b < after.len() implies key_of(#[trigger] after[a])
        != key_of(#[trigger] after[b]) by {
        assert(key_of(before[a]) != key_of(before[b]));
    }
    assert forall|key: RecordKey| has_key(after, key) == has_key(before, key) by {
        if has_key(after, key) {
            let j = index_of(after, key);
            assert(key_of(before[j]) == key);
        }
        if has_key(before, key) {
            let j = index_of(before, key);
            assert(key_of(after[j]) == key);
        }
    }
    assert forall|key: RecordKey| #[trigger] has_key(before, key) implies index_of(after, key)
        == index_of(before, key) by {
        let j = index_of(before, key);
        assert(key_of(after[j]) == key);
        lemma_record_at(after, j);
    }
}

proof fn lemma_marked_source(
    before: Seq<HistoryRecordView>,
    after: Seq<HistoryRecordView>,
    source: Seq<char>,
    now: u64,
)
    requires
        distinct_keys(before),
        marked(before, after, before.len() as int, Some(source), now),
    ensures
        distinct_keys(after),
        records_map(after) == source_marked_read(records_map(before), source, now),
{
    lemma_same_keys(before, after);
    assert forall|key: RecordKey| has_key(before, key) implies records_map(after)[key]
        == source_marked_read(records_map(before), source, now)[key] by {
        let j = index_of(before, key);
        assert(key_of(before[j]) == key);
    }
    assert(records_map(after) =~= source_marked_read(records_map(before), source, now));
}

proof fn lemma_marked_all(before: Seq<HistoryRecordView>, after: Seq<HistoryRecordView>, now: u64)
    requires
        distinct_keys(before),
        marked(before, after, before.len() as int, None, now),
    ensures
        distinct_keys(after),
        records_map(after) == all_marked_read(records_map(before), now),
{
    lemma_same_keys(before, after);
    assert(records_map(after) =~= all_marked_read(records_map(before), now));
}

proof fn lemma_imported(records: Seq<HistoryRecordView>)
    requires
        distinct_keys(records),
    ensures
        imported(records) == records_map(records),
    decreases records.len(),
{
    if records.len() == 0 {
        assert(records_map(records) =~= Map::<RecordKey, ArticleHistory>::empty());
    } else {
        let head = records.drop_last();
        lemma_imported(head);
        if has_key(head, key_of(records.last())) {
            let j = index_of(head, key_of(records.last()));
            assert(key_of(records[j]) == key_of(records[records.len() - 1]));
        }
        lemma_push_record(head, records.last());
        assert(head.push(records.last()) =~= records);
    }
}

/// Marks as viewed at `now` the records of `source` or, where `source` is
/// none, all of them.
fn mark_viewed(records: &mut Vec<HistoryRecord>, source: Option<&str>, now: u64)
    ensures
        marked(
            old(records).deep_view(),
            final(records).deep_view(),
            old(records).len() as int,
            match source {
                Some(name) => Some(name@),
                None => None,
            },
            now,
        ),
{
    let ghost before = records.deep_view();
    let ghost wanted: Option<Seq<char>> = match source {
        Some(name) => Some(name@),
        None => None,
    };
    let mut i: usize = 0;
    while i < records.len()
        invariant
            i <= records.len(),
            wanted == match source {
                Some(name) => Some(name@),
                None => None,
            },
            marked(before, records.deep_view(), i as int, wanted, now),
        decreases records.len() - i,
    {
        let matches = match source {
            Some(name) => *records[i].source.as_str() == *name,
            None => true,
        };
        if matches {
            let ghost earlier = records.deep_view();
            records[i].state.last_viewed = Some(now);
            assert(records.deep_view() =~= earlier.update(
                i as int,
                HistoryRecordView {
                    source: earlier[i as int].source,
                    id: earlier[i as int].id,
                    state: earlier[i as int].state.viewed_at(now),
                },
            ));
        }
        i += 1;
    }
}

/// Whether one of `articles` has the identifier `id`.
fn has_id(articles: &[&Article], id: &str) -> (r: bool)
    ensures
        r == ids_of(articles.deep_view()).contains(id@),
{
    let mut i: usize = 0;
    while i < articles.len()
        invariant
            i <= articles.len(),
            forall|k: int| 0 <= k < i ==> (#[trigger] articles.deep_view()[k]).id != id@,
        decreases articles.len() - i,
    {
        if *articles[i].id.as_str() == *id {
            assert(articles.deep_view()[i as int].id == id@);
            return true;
        }
        i += 1;
    }
    false
}

/// The index of the record of the article `id` of `source`, if there is one.
fn find_record(records: &Vec<HistoryRecord>, source: &str, id: &str) -> (found: Option<usize>)
    ensures
        match found {
            Some(i) => i < records.len() && key_of(records.deep_view()[i as int]) == (source@, id@),
            None => !has_key(records.deep_view(), (source@, id@)),
        },
{
    let mut i: usize = 0;
    while i < records.len()
        invariant
            i <= records.len(),
            forall|k: int| 0 <= k < i ==> key_of(#[trigger] records.deep_view()[k]) != (source@, id@),
        decreases records.len() - i,
    {
        let record = &records[i];
        if *record.source.as_str() == *source && *record.id.as_str() == *id {
            return Some(i);
        }
        i += 1;
    }
    None
}

proof fn lemma_count(records: Seq<HistoryRecordView>)
    requires
        distinct_keys(records),
    ensures
        records_map(records).dom().finite(),
        records_map(records).len() == records.len(),
    decreases records.len(),
{
    if records.len() == 0 {
        assert(records_map(records) =~= Map::<RecordKey, ArticleHistory>::empty());
    } else {
        let head = records.drop_last();
        lemma_count(head);
        if has_key(head, key_of(records.last())) {
            let j = index_of(head, key_of(records.last()));
            assert(key_of(records[j]) == key_of(records[records.len() - 1]));
        }
        lemma_push_record(head, records.last());
        assert(head.push(records.last()) =~= records);
    }
}

/// `SystemTime::now` of the standard library, measured from the start of
/// 1970 by `duration_since`: the whole seconds that the system clock counts
/// since then, or nothing where the clock is set before 1970. Nothing is
/// claimed of the number.
#[verifier::external_body]
fn clock_seconds() -> Option<u64> {
    SystemTime::now().duration_since(SystemTime::UNIX_EPOCH).ok().map(|elapsed| elapsed.as_secs())
}

/// The time by the system clock, in seconds since the start of 1970. A
/// clock that is set before 1970 reads as 0. Nothing is promised of the
/// number: it is whatever the clock says, and `seconds_of` says what is
/// made of each reading.
pub fn now() -> u64 {
    seconds_of(clock_seconds())
}

/// The seconds that a reading of the clock counts: those that it gives, or
/// none at all where the clock is set before 1970 and gives nothing.
pub open spec fn reading_seconds(reading: Option<u64>) -> u64 {
    match reading {
        Some(seconds) => seconds,
        None => 0,
    }
}

/// The time that a reading of the clock stands for, in seconds since the
/// start of 1970: a clock that is set before 1970 reads as 0.
pub fn seconds_of(reading: Option<u64>) -> (seconds: u64)
    ensures
        seconds == reading_seconds(reading),
{
    match reading {
        Some(seconds) => seconds,
        None => 0,
    }
}

/// History of read articles.
#[derive(Debug)]
pub struct History {
    path: PathBuf,
    records: Vec<HistoryRecord>,
}

impl View for History {
    type V = Records;

    closed spec fn view(&self) -> Records {
        records_map(self.records.deep_view())
    }
}

impl History {
    #[verifier::type_invariant]
    spec fn one_record_per_article(self) -> bool {
        distinct_keys(self.records.deep_view())
    }

    /// The file that the history belongs to.
    pub closed spec fn file(&self) -> PathBuf {
        self.path
    }

    /// An empty history that belongs to the file at `path`.
    pub fn new(path: PathBuf) -> (history: History)
        ensures
            history@ == Map::<RecordKey, ArticleHistory>::empty(),
            history.file() == path,
    {
        let history = History { path, records: Vec::new() };
        assert(history@ =~= Map::<RecordKey, ArticleHistory>::empty());
        history
    }

    /// The file that the history belongs to.
    pub fn path(&self) -> (path: &PathBuf)
        ensures
            *path == self.file(),
    {
        &self.path
    }

    fn find(&self, source: &str, id: &str) -> (found: Option<usize>)
        ensures
            match found {
                Some(i) => i < self.records.len() && key_of(self.records.deep_view()[i as int]) == (
                    source@,
                    id@,
                ),
                None => !self@.contains_key((source@, id@)),
            },
    {
        find_record(&self.records, source, id)
    }

    /// Records `article` of `source`, seen at `now`, unless the history
    /// knows it already: a record that exists keeps its times.
    pub fn insert_at(&mut self, source: &str, article: &Article, now: u64)
        ensures
            final(self)@ == inserted(old(self)@, source@, article@, now),
            final(self).file() == old(self).file(),
    {
        proof {
            use_type_invariant(&*self);
        }
        match self.find(source, article.id.as_str()) {
            Some(i) => {
                proof {
                    lemma_record_at(self.records.deep_view(), i as int);
                }
            },
            None => {
                let timestamp = match &article.date {
                    Some(date) => match date.epoch_seconds() {
                        Some(seconds) => seconds,
                        None => 0,
                    },
                    None => now,
                };
                let record = HistoryRecord {
                    source: String::from_str(source),
                    id: article.id.clone(),
                    state: ArticleHistory { timestamp, last_viewed: None },
                };
                proof {
                    lemma_push_record(self.records.deep_view(), record.deep_view());
                }
                let mut records: Vec<HistoryRecord> = Vec::new();
                core::mem::swap(&mut self.records, &mut records);
                records.push(record);
                assert(records.deep_view() =~= old(self).records.deep_view().push(
                    record.deep_view(),
                ));
                self.records = records;
            },
        }
    }

    /// Inserts an article into the history, seen now by the system clock,
    /// unless the history knows it already.
    pub fn insert(&mut self, source: &str, article: &Article)
        ensures
            exists|now: u64| final(self)@ == inserted(old(self)@, source@, article@, now),
            final(self).file() == old(self).file(),
    {
        let time = now();
        self.insert_at(source, article, time);
    }

    /// Sets an article as read, viewed now by the system clock.
    pub fn read(&mut self, source: &str, article: &Article)
        ensures
            exists|now: u64| final(self)@ == marked_read(old(self)@, source@, article@, now),
            final(self).file() == old(self).file(),
    {
        let time = now();
        self.read_at(source, article, time);
    }

    /// Sets all recorded articles of a source as read, viewed now by the
    /// system clock.
    pub fn read_source(&mut self, source: &str)
        ensures
            exists|now: u64| final(self)@ == source_marked_read(old(self)@, source@, now),
            final(self).file() == old(self).file(),
    {
        let time = now();
        self.read_source_at(source, time);
    }

    /// Sets all recorded articles as read, viewed now by the system clock.
    pub fn read_all(&mut self)
        ensures
            exists|now: u64| final(self)@ == all_marked_read(old(self)@, now),
            final(self).file() == old(self).file(),
    {
        let time = now();
        self.read_all_at(time);
    }

    /// Marks `article` of `source` as viewed at `now`, recording it first
    /// where the history does not know it.
    pub fn read_at(&mut self, source: &str, article: &Article, now: u64)
        ensures
            final(self)@ == marked_read(old(self)@, source@, article@, now),
            final(self).file() == old(self).file(),
    {
        self.insert_at(source, article, now);
        proof {
            use_type_invariant(&*self);
        }
        match self.find(source, article.id.as_str()) {
            Some(i) => {
                let ghost before = self.records.deep_view();
                proof {
                    lemma_record_at(before, i as int);
                    lemma_update_record(before, i as int, before[i as int].state.viewed_at(now));
                }
                let mut records: Vec<HistoryRecord> = Vec::new();
                core::mem::swap(&mut self.records, &mut records);
                records[i].state.last_viewed = Some(now);
                assert(records.deep_view() =~= before.update(
                    i as int,
                    HistoryRecordView {
                        source: before[i as int].source,
                        id: before[i as int].id,
                        state: before[i as int].state.viewed_at(now),
                    },
                ));
                self.records = records;
            },
            None => {},
        }
    }

    /// Marks every recorded article of `source` as viewed at `now`. No
    /// record is made for an article that the history does not know.
    pub fn read_source_at(&mut self, source: &str, now: u64)
        ensures
            final(self)@ == source_marked_read(old(self)@, source@, now),
            final(self).file() == old(self).file(),
    {
        proof {
            use_type_invariant(&*self);
        }
        let mut records: Vec<HistoryRecord> = Vec::new();
        core::mem::swap(&mut self.records, &mut records);
        let ghost before = records.deep_view();
        mark_viewed(&mut records, Some(source), now);
        proof {
            lemma_marked_source(before, records.deep_view(), source@, now);
        }
        self.records = records;
    }

    /// Marks every recorded article as viewed at `now`.
    pub fn read_all_at(&mut self, now: u64)
        ensures
            final(self)@ == all_marked_read(old(self)@, now),
            final(self).file() == old(self).file(),
    {
        proof {
            use_type_invariant(&*self);
        }
        let mut records: Vec<HistoryRecord> = Vec::new();
        core::mem::swap(&mut self.records, &mut records);
        let ghost before = records.deep_view();
        mark_viewed(&mut records, None, now);
        proof {
            lemma_marked_all(before, records.deep_view(), now);
        }
        self.records = records;
    }

    /// Removes from the history the records of `source` whose article is
    /// not among `articles`. The records of other sources stay.
    pub fn filter_articles(&mut self, source: &str, articles: &[&Article])
        ensures
            final(self)@ == filtered(old(self)@, source@, ids_of(articles.deep_view())),
            final(self).file() == old(self).file(),
    {
        proof {
            use_type_invariant(&*self);
        }
        let mut records: Vec<HistoryRecord> = Vec::new();
        core::mem::swap(&mut self.records, &mut records);
        let ghost before = records.deep_view();
        let ghost ids = ids_of(articles.deep_view());
        let mut kept: Vec<HistoryRecord> = Vec::new();
        proof {
            assert(records_map(kept.deep_view()) =~= filtered(
                records_map(before.take(0)),
                source@,
                ids,
            ));
        }
        for record in it: records
            invariant
                before == records.deep_view(),
                it.seq() == records@,
                ids == ids_of(articles.deep_view()),
                distinct_keys(before),
                distinct_keys(kept.deep_view()),
                records_map(kept.deep_view()) == filtered(
                    records_map(before.take(it.index() as int)),
                    source@,
                    ids,
                ),
        {
            let ghost seen = before.take(it.index() as int);
            let ghost held = kept.deep_view();
            let ghost view = record.deep_view();
            proof {
                assert(view == before[it.index() as int]);
                assert(before.take(it.index() + 1) =~= seen.push(view));
                if has_key(seen, key_of(view)) {
                    let j = index_of(seen, key_of(view));
                    assert(key_of(before[j]) == key_of(before[it.index() as int]));
                }
                lemma_push_record(seen, view);
                if has_key(held, key_of(view)) {
                    assert(records_map(held).contains_key(key_of(view)));
                }
            }
            if *record.source.as_str() != *source || has_id(articles, record.id.as_str()) {
                proof {
                    lemma_push_record(held, view);
                }
                kept.push(record);
                assert(kept.deep_view() =~= held.push(view));
                assert(records_map(kept.deep_view()) =~= filtered(
                    records_map(seen.push(view)),
                    source@,
                    ids,
                ));
            } else {
                assert(records_map(kept.deep_view()) =~= filtered(
                    records_map(seen.push(view)),
                    source@,
                    ids,
                ));
            }
        }
        assert(before.take(before.len() as int) =~= before);
        self.records = kept;
    }

    /// Returns whether the article has been read. An article that the
    /// history does not know is unread.
    pub fn is_article_read(&self, source: &str, article: &Article) -> (r: bool)
        ensures
            r == article_is_read(self@, source@, article@.id),
    {
        proof {
            use_type_invariant(self);
        }
        match self.find(source, article.id.as_str()) {
            Some(i) => {
                proof {
                    lemma_record_at(self.records.deep_view(), i as int);
                }
                self.records[i].state.is_read()
            },
            None => false,
        }
    }
    /// Returns whether all recorded articles of a source have been read.
    /// A source of which the history knows no article counts as read.
    pub fn is_source_read(&self, source: &str) -> (r: bool)
        ensures
            r == source_is_read(self@, source@),
    {
        proof {
            use_type_invariant(self);
        }
        let ghost records = self.records.deep_view();
        let mut i: usize = 0;
        while i < self.records.len()
            invariant
                i <= self.records.len(),
                records == self.records.deep_view(),
                distinct_keys(records),
                forall|k: int|
                    0 <= k < i && (#[trigger] records[k]).source == source@
                        ==> records[k].state.read(),
            decreases self.records.len() - i,
        {
            let record = &self.records[i];
            if *record.source.as_str() == *source && !record.state.is_read() {
                proof {
                    lemma_record_at(records, i as int);
                    assert(self@.contains_key((source@, records[i as int].id)));
                }
                return false;
            }
            i += 1;
        }
        proof {
            assert forall|id: Seq<char>| #[trigger]
                self@.contains_key((source@, id)) implies self@[(source@, id)].read() by {
                let k = index_of(records, (source@, id));
                assert(key_of(records[k]) == (source@, id));
            }
        }
        true
    }

    /// The records of the history, one for each article that it knows: no
    /// two of them have one key.
    pub fn to_records(&self) -> (records: Vec<HistoryRecord>)
        ensures
            imported(records.deep_view()) == self@,
            distinct_keys(records.deep_view()),
            records.len() == self@.len(),
    {
        proof {
            use_type_invariant(self);
            lemma_imported(self.records.deep_view());
            lemma_count(self.records.deep_view());
        }
        let mut records: Vec<HistoryRecord> = Vec::new();
        let mut i: usize = 0;
        while i < self.records.len()
            invariant
                i <= self.records.len(),
                records.deep_view() == self.records.deep_view().take(i as int),
            decreases self.records.len() - i,
        {
            let copy = self.records[i].clone();
            let ghost before = records.deep_view();
            records.push(copy);
            assert(records.deep_view() =~= before.push(copy.deep_view()));
            assert(records.deep_view() =~= self.records.deep_view().take(i + 1));
            i += 1;
        }
        assert(self.records.deep_view().take(i as int) =~= self.records.deep_view());
        records
    }

    /// The history that belongs to the file at `path` and holds `records`.
    /// Where two records have one key, the later one counts.
    pub fn from_records(path: PathBuf, records: Vec<HistoryRecord>) -> (history: History)
        ensures
            history@ == imported(records.deep_view()),
            history.file() == path,
    {
        let ghost given = records.deep_view();
        let mut held: Vec<HistoryRecord> = Vec::new();
        proof {
            assert(records_map(held.deep_view()) =~= imported(given.take(0)));
        }
        for record in it: records
            invariant
                given == records.deep_view(),
                it.seq() == records@,
                distinct_keys(held.deep_view()),
                records_map(held.deep_view()) == imported(given.take(it.index() as int)),
        {
            let ghost before = held.deep_view();
            let ghost view = record.deep_view();
            proof {
                assert(view == given[it.index() as int]);
                assert(given.take(it.index() + 1).drop_last() =~= given.take(it.index() as int));
            }
            match find_record(&held, record.source.as_str(), record.id.as_str()) {
                Some(i) => {
                    proof {
                        lemma_update_record(before, i as int, view.state);
                    }
                    held[i].state = record.state;
                    assert(held.deep_view() =~= before.update(
                        i as int,
                        HistoryRecordView {
                            source: before[i as int].source,
                            id: before[i as int].id,
                            state: view.state,
                        },
                    ));
                },
                None => {
                    proof {
                        lemma_push_record(before, view);
                    }
                    held.push(record);
                    assert(held.deep_view() =~= before.push(view));
                },
            }
        }
        assert(given.take(given.len() as int) =~= given);
        History { path, records: held }
    }
}

/// An article that is unread, or unknown, is unread after it was inserted.
pub proof fn lemma_insert_keeps_unread(
    records: Records,
    source: Seq<char>,
    article: ArticleView,
    now: u64,
)
    requires
        !article_is_read(records, source, article.id),
    ensures
        !article_is_read(inserted(records, source, article, now), source, article.id),
{
}

/// An article is read after it was marked as read, provided that the time of
/// the viewing is not earlier than the time under which the article is
/// recorded.
pub proof fn lemma_read_marks_read(
    records: Records,
    source: Seq<char>,
    article: ArticleView,
    now: u64,
)
    requires
        inserted(records, source, article, now)[(source, article.id)].timestamp <= now,
    ensures
        article_is_read(marked_read(records, source, article, now), source, article.id),
{
}

/// A source of which no article is recorded counts as read.
pub proof fn lemma_source_without_records_is_read(records: Records, source: Seq<char>)
    requires
        forall|id: Seq<char>| !records.contains_key((source, id)),
    ensures
        source_is_read(records, source),
{
}

/// After every article of a source was marked as read at a time that is not
/// earlier than any of their recorded times, the source is read, and each of
/// its recorded articles is.
pub proof fn lemma_read_source_marks_source_read(records: Records, source: Seq<char>, now: u64)
    requires
        forall|id: Seq<char>| #[trigger]
            records.contains_key((source, id)) ==> records[(source, id)].timestamp <= now,
    ensures
        source_is_read(source_marked_read(records, source, now), source),
        forall|id: Seq<char>| #[trigger]
            records.contains_key((source, id)) ==> article_is_read(
                source_marked_read(records, source, now),
                source,
                id,
            ),
{
    let after = source_marked_read(records, source, now);
    assert forall|id: Seq<char>| #[trigger] after.contains_key((source, id)) implies after[(
        source,
        id,
    )].read() by {
        assert(records.contains_key((source, id)));
    }
}

/// Marking one source as read changes no record of another source.
pub proof fn lemma_read_source_leaves_other_sources(
    records: Records,
    source: Seq<char>,
    now: u64,
    key: RecordKey,
)
    requires
        key.0 != source,
    ensures
        source_marked_read(records, source, now).contains_key(key) == records.contains_key(key),
        records.contains_key(key) ==> source_marked_read(records, source, now)[key]
            == records[key],
{
}

/// Filtering removes exactly the records of the source whose article is not
/// among the given ones: every other record stays, unchanged, and no record
/// is added.
pub proof fn lemma_filter_removes_exactly(
    records: Records,
    source: Seq<char>,
    ids: Set<Seq<char>>,
    key: RecordKey,
)
    ensures
        filtered(records, source, ids).contains_key(key) == (records.contains_key(key) && (key.0
            != source || ids.contains(key.1))),
        filtered(records, source, ids).contains_key(key) ==> filtered(records, source, ids)[key]
            == records[key],
{
}

/// No operation on one article or one source turns a read article of the
/// history into an unread one, as long as time does not run backwards: the
/// viewing is not earlier than the time under which the article is recorded.
pub proof fn lemma_read_status_is_kept(
    records: Records,
    source: Seq<char>,
    article: ArticleView,
    now: u64,
    key: RecordKey,
)
    requires
        article_is_read(records, key.0, key.1),
        records[key].timestamp <= now,
    ensures
        article_is_read(inserted(records, source, article, now), key.0, key.1),
        article_is_read(marked_read(records, source, article, now), key.0, key.1),
        article_is_read(source_marked_read(records, source, now), key.0, key.1),
        article_is_read(all_marked_read(records, now), key.0, key.1),
{
}

/// Records of which no two have one key amount to the same whatever their
/// order: a list that holds the same records, each as often, gives the same
/// history.
pub proof fn lemma_imported_in_any_order(
    first: Seq<HistoryRecordView>,
    second: Seq<HistoryRecordView>,
)
    requires
        distinct_keys(first),
        first.to_multiset() == second.to_multiset(),
    ensures
        distinct_keys(second),
        imported(first) == imported(second),
{
    first.to_multiset_ensures();
    second.to_multiset_ensures();
    assert(first.no_duplicates()) by {
        assert forall|i: int, j: int|
            0 <= i < first.len() && 0 <= j < first.len() && i != j implies first[i]
            != first[j] by {
            if i < j {
                assert(key_of(first[i]) != key_of(first[j]));
            } else {
                assert(key_of(first[j]) != key_of(first[i]));
            }
        }
    }
    first.lemma_multiset_has_no_duplicates();
    second.lemma_multiset_has_no_duplicates_conv();
    assert forall|i: int, j: int| 0 <= i < j < second.len() implies key_of(#[trigger] second[i])
        != key_of(#[trigger] second[j]) by {
        assert(second.contains(second[i]) && second.contains(second[j]));
        assert(second.to_multiset().count(second[i]) > 0);
        assert(second.to_multiset().count(second[j]) > 0);
        assert(first.contains(second[i]) && first.contains(second[j]));
        let a = choose|a: int| 0 <= a < first.len() && first[a] == second[i];
        let b = choose|b: int| 0 <= b < first.len() && first[b] == second[j];
        if key_of(second[i]) == key_of(second[j]) {
            if a < b {
                assert(key_of(first[a]) != key_of(first[b]));
            } else if b < a {
                assert(key_of(first[b]) != key_of(first[a]));
            }
            assert(second[i] == second[j]);
        }
    }
    lemma_imported(first);
    lemma_imported(second);
    assert forall|key: RecordKey| has_key(first, key) == has_key(second, key) by {
        if has_key(first, key) {
            let i = index_of(first, key);
            assert(first.contains(first[i]));
            assert(first.to_multiset().count(first[i]) > 0);
            assert(second.contains(first[i]));
            let j = choose|j: int| 0 <= j < second.len() && second[j] == first[i];
            assert(key_of(second[j]) == key);
        }
        if has_key(second, key) {
            let j = index_of(second, key);
            assert(second.contains(second[j]));
            assert(second.to_multiset().count(second[j]) > 0);
            assert(first.contains(second[j]));
            let i = choose|i: int| 0 <= i < first.len() && first[i] == second[j];
            assert(key_of(first[i]) == key);
        }
    }
    assert forall|key: RecordKey| has_key(first, key) implies records_map(first)[key]
        == records_map(second)[key] by {
        let i = index_of(first, key);
        assert(first.contains(first[i]));
        assert(first.to_multiset().count(first[i]) > 0);
        assert(second.contains(first[i]));
        let j = choose|j: int| 0 <= j < second.len() && second[j] == first[i];
        lemma_record_at(first, i);
        lemma_record_at(second, j);
    }
    assert(records_map(first) =~= records_map(second));
}

} // verus!
