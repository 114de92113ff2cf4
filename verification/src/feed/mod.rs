//! Feed sources, parsed feeds and their articles.

pub mod client;
pub mod date;
pub mod entry;
pub mod result;
pub mod source;

use vstd::prelude::*;

pub use self::date::{
    date_earlier, is_date_earlier, lemma_date_order_total, lemma_date_order_transitive, Timestamp,
};
pub use self::client::Client;
pub use self::entry::{Entry, EntryView};
pub use self::result::{error_text, FeedError, FeedErrorView, FeedResult};
pub use self::source::{
    file_prefix, is_absolute_path, is_valid_source, is_web_address, lemma_source_round_trip,
    parse_source, source_text, tells, FeedSource, FeedSourceView, SourceError,
};
use crate::helpers::strings::{html_stripped, strip_html};
use crate::helpers::text::{is_blank, is_blank_text};

verus! {

/// One article of a feed.
#[derive(Debug, PartialEq, Eq)]
pub struct Article {
    /// The identifier of the article within its feed.
    pub id: String,
    /// The title, free of markup.
    pub title: Option<String>,
    /// The names of the authors.
    pub authors: Vec<String>,
    /// The text of the article, free of markup.
    pub summary: String,
    /// The address of the article.
    pub url: String,
    /// When the article was published, or last changed.
    pub date: Option<Timestamp>,
}

/// An [`Article`] as contracts see it.
pub struct ArticleView {
    pub id: Seq<char>,
    pub title: Option<Seq<char>>,
    pub authors: Seq<Seq<char>>,
    pub summary: Seq<char>,
    pub url: Seq<char>,
    pub date: Option<Timestamp>,
}

impl DeepView for Article {
    type V = ArticleView;

    open spec fn deep_view(&self) -> ArticleView {
        ArticleView {
            id: self.id@,
            title: self.title.deep_view(),
            authors: self.authors.deep_view(),
            summary: self.summary@,
            url: self.url@,
            date: self.date,
        }
    }
}

impl View for Article {
    type V = ArticleView;

    open spec fn view(&self) -> ArticleView {
        self.deep_view()
    }
}

impl Clone for Article {
    fn clone(&self) -> (copy: Article)
        ensures
            copy@ == self@,
    {
        let title = match &self.title {
            Some(title) => Some(title.clone()),
            None => None,
        };
        let authors = self.authors.clone();
        proof {
            assert forall|i: int| 0 <= i < authors.len() implies authors@[i]
                == self.authors@[i] by {
                assert(cloned::<String>(self.authors@[i], authors@[i]));
            }
            assert(authors@ =~= self.authors@);
        }
        Article {
            id: self.id.clone(),
            title,
            authors,
            summary: self.summary.clone(),
            url: self.url.clone(),
            date: self.date,
        }
    }
}

/// The text of an article: the content of its entry without markup or,
/// where that is missing or blank, the summary without markup.
pub open spec fn content_or_summary_of(entry: EntryView) -> Seq<char> {
    let content = match entry.content {
        Some(body) => html_stripped(body),
        None => Seq::empty(),
    };
    if is_blank(content) {
        match entry.summary {
            Some(summary) => html_stripped(summary),
            None => Seq::empty(),
        }
    } else {
        content
    }
}

/// The article that an entry becomes.
pub open spec fn article_of(entry: EntryView) -> ArticleView {
    ArticleView {
        id: if entry.id.len() == 0 && entry.links.len() > 0 {
            entry.links[0]
        } else {
            entry.id
        },
        title: match entry.title {
            Some(title) => Some(html_stripped(title)),
            None => None,
        },
        authors: entry.authors,
        summary: content_or_summary_of(entry),
        url: if entry.links.len() > 0 {
            entry.links[0]
        } else {
            entry.id
        },
        date: match entry.published {
            Some(date) => Some(date),
            None => entry.updated,
        },
    }
}

/// The content of the entry, when there is any, else its summary. The
/// content is mostly the whole article, but some feeds leave it empty.
fn content_or_summary(entry: &Entry) -> (text: String)
    ensures
        text@ == content_or_summary_of(entry.deep_view()),
{
    let content = match &entry.content {
        Some(body) => strip_html(body.as_str()),
        None => String::new(),
    };
    if is_blank_text(content.as_str()) {
        match &entry.summary {
            Some(summary) => strip_html(summary.as_str()),
            None => String::new(),
        }
    } else {
        content
    }
}

impl Article {
    /// Makes the article of an entry: title and text lose their markup, the
    /// address is the first link or else the identifier, the identifier is
    /// that of the entry or, where the entry has none, the first link, and
    /// the date is that of publication or else of the last change.
    pub fn from(entry: Entry) -> (article: Article)
        ensures
            article.deep_view() == article_of(entry.deep_view()),
    {
        let summary = content_or_summary(&entry);
        let title = match &entry.title {
            Some(title) => Some(strip_html(title.as_str())),
            None => None,
        };
        let url = if entry.links.len() > 0 {
            entry.links[0].clone()
        } else {
            entry.id.clone()
        };
        let date = match entry.published {
            Some(date) => Some(date),
            None => entry.updated,
        };
        let id = if entry.id.as_str().is_empty() && entry.links.len() > 0 {
            entry.links[0].clone()
        } else {
            entry.id
        };
        Article { id, title, authors: entry.authors, summary, url, date }
    }
}

/// Contains, for a feed source, the list of its articles, the newest first.
#[derive(Debug, PartialEq, Eq)]
pub struct Feed {
    name: String,
    articles: Vec<Article>,
}

/// A [`Feed`] as contracts see it.
pub struct FeedView {
    pub name: Seq<char>,
    pub articles: Seq<ArticleView>,
}

impl View for Feed {
    type V = FeedView;

    closed spec fn view(&self) -> FeedView {
        FeedView { name: self.name@, articles: self.articles.deep_view() }
    }
}

/// The articles that the entries become, in the order of the entries.
pub open spec fn articles_of(entries: Seq<EntryView>) -> Seq<ArticleView> {
    entries.map_values(|entry: EntryView| article_of(entry))
}

/// Whether no article stands before one of a later date. An article without
/// a date counts as older than every dated one.
pub open spec fn dates_descending(articles: Seq<ArticleView>) -> bool {
    forall|i: int, j: int|
        0 <= i < j < articles.len() ==> !date_earlier(
            #[trigger] articles[i].date,
            #[trigger] articles[j].date,
        )
}

/// The test that picks the articles of one date.
pub open spec fn dated(date: Option<Timestamp>) -> spec_fn(ArticleView) -> bool {
    |article: ArticleView| article.date == date
}

/// Whether `sorted` is `given` sorted by date, the newest first, with the
/// articles of one date in the order that they have in `given`.
pub open spec fn is_stable_sort_of(sorted: Seq<ArticleView>, given: Seq<ArticleView>) -> bool {
    &&& dates_descending(sorted)
    &&& forall|date: Option<Timestamp>| #[trigger]
        sorted.filter(dated(date)) == given.filter(dated(date))
}

proof fn lemma_filter_push(s: Seq<ArticleView>, x: ArticleView, date: Option<Timestamp>)
    ensures
        s.push(x).filter(dated(date)) == if x.date == date {
            s.filter(dated(date)).push(x)
        } else {
            s.filter(dated(date))
        },
{
    reveal(Seq::filter);
    assert(s.push(x).drop_last() =~= s);
}

proof fn lemma_filter_none(s: Seq<ArticleView>, date: Option<Timestamp>)
    requires
        forall|i: int| 0 <= i < s.len() ==> (#[trigger] s[i]).date != date,
    ensures
        s.filter(dated(date)) == Seq::<ArticleView>::empty(),
    decreases s.len(),
{
    reveal(Seq::filter);
    if s.len() > 0 {
        lemma_filter_none(s.drop_last(), date);
    }
}

/// Sorted sequences whose articles of each date are the same, in the same
/// order, are the same.
proof fn lemma_sorted_by_groups(a: Seq<ArticleView>, b: Seq<ArticleView>)
    requires
        dates_descending(a),
        dates_descending(b),
        forall|date: Option<Timestamp>| #[trigger]
            a.filter(dated(date)) == b.filter(dated(date)),
    ensures
        a == b,
    decreases a.len() + b.len(),
{
    if a.len() == 0 || b.len() == 0 {
        if a.len() > 0 {
            a.lemma_filter_contains(dated(a[0].date), 0);
            assert(b.filter(dated(a[0].date)).contains(a[0]));
            b.lemma_filter_contains_rev(dated(a[0].date), a[0]);
        }
        if b.len() > 0 {
            b.lemma_filter_contains(dated(b[0].date), 0);
            assert(a.filter(dated(b[0].date)).contains(b[0]));
            a.lemma_filter_contains_rev(dated(b[0].date), b[0]);
        }
        assert(a =~= b);
    } else {
        let x = a.last();
        let y = b.last();
        // the last article of each is among the oldest of the other
        a.lemma_filter_contains(dated(x.date), a.len() - 1);
        assert(b.filter(dated(x.date)).contains(x));
        b.lemma_filter_contains_rev(dated(x.date), x);
        let i = choose|i: int| 0 <= i < b.len() && b[i] == x;
        assert(!date_earlier(x.date, y.date)) by {
            if i < b.len() - 1 {
                assert(!date_earlier(b[i].date, b[b.len() - 1].date));
            }
        }
        b.lemma_filter_contains(dated(y.date), b.len() - 1);
        assert(a.filter(dated(y.date)).contains(y));
        a.lemma_filter_contains_rev(dated(y.date), y);
        let j = choose|j: int| 0 <= j < a.len() && a[j] == y;
        assert(!date_earlier(y.date, x.date)) by {
            if j < a.len() - 1 {
                assert(!date_earlier(a[j].date, a[a.len() - 1].date));
            }
        }
        lemma_date_order_total(x.date, y.date);
        assert(x.date == y.date);
        let head = a.drop_last();
        let rest = b.drop_last();
        assert(a =~= head.push(x));
        assert(b =~= rest.push(y));
        assert forall|date: Option<Timestamp>| #[trigger]
            head.filter(dated(date)) == rest.filter(dated(date)) by {
            lemma_filter_push(head, x, date);
            lemma_filter_push(rest, y, date);
            assert(a.filter(dated(date)) == b.filter(dated(date)));
            if x.date == date {
                let left = head.filter(dated(date));
                let right = rest.filter(dated(date));
                assert(left.push(x) == right.push(y));
                assert(left =~= left.push(x).drop_last());
                assert(right =~= right.push(y).drop_last());
            }
        }
        assert(x == y) by {
            let date = x.date;
            lemma_filter_push(head, x, date);
            lemma_filter_push(rest, y, date);
            assert(a.filter(dated(date)) == b.filter(dated(date)));
            let left = head.filter(dated(date));
            let right = rest.filter(dated(date));
            assert(left.push(x).last() == x);
            assert(right.push(y).last() == y);
        }
        assert(dates_descending(head)) by {
            assert forall|i: int, j: int| 0 <= i < j < head.len() implies !date_earlier(
                #[trigger] head[i].date,
                #[trigger] head[j].date,
            ) by {
                assert(head[i] == a[i] && head[j] == a[j]);
            }
        }
        assert(dates_descending(rest)) by {
            assert forall|i: int, j: int| 0 <= i < j < rest.len() implies !date_earlier(
                #[trigger] rest[i].date,
                #[trigger] rest[j].date,
            ) by {
                assert(rest[i] == b[i] && rest[j] == b[j]);
            }
        }
        lemma_sorted_by_groups(head, rest);
    }
}

/// Sorting by date, the newest first and articles of one date in the order
/// given, has one result only.
pub proof fn lemma_stable_sort_is_unique(
    first: Seq<ArticleView>,
    second: Seq<ArticleView>,
    given: Seq<ArticleView>,
)
    requires
        is_stable_sort_of(first, given),
        is_stable_sort_of(second, given),
    ensures
        first == second,
{
    assert forall|date: Option<Timestamp>| #[trigger]
        first.filter(dated(date)) == second.filter(dated(date)) by {
        assert(first.filter(dated(date)) == given.filter(dated(date)));
        assert(second.filter(dated(date)) == given.filter(dated(date)));
    }
    lemma_sorted_by_groups(first, second);
}

proof fn lemma_count_in_group(s: Seq<ArticleView>, x: ArticleView)
    ensures
        s.to_multiset().count(x) == s.filter(dated(x.date)).to_multiset().count(x),
    decreases s.len(),
{
    broadcast use vstd::multiset::group_multiset_axioms;

    if s.len() == 0 {
        reveal(Seq::filter);
        assert(s.filter(dated(x.date)) =~= s);
    } else {
        let head = s.drop_last();
        let last = s.last();
        lemma_count_in_group(head, x);
        assert(s =~= head.push(last));
        lemma_filter_push(head, last, x.date);
        vstd::seq_lib::to_multiset_build(head, last);
        if last.date == x.date {
            vstd::seq_lib::to_multiset_build(head.filter(dated(x.date)), last);
        }
    }
}

/// A sequence sorted by date holds the articles that were given, each as
/// often as it was given: it has their number, and it is a rearrangement of
/// them.
pub proof fn lemma_stable_sort_is_rearrangement(sorted: Seq<ArticleView>, given: Seq<ArticleView>)
    requires
        is_stable_sort_of(sorted, given),
    ensures
        sorted.to_multiset() == given.to_multiset(),
        sorted.len() == given.len(),
{
    broadcast use vstd::multiset::group_multiset_axioms;

    assert forall|x: ArticleView| sorted.to_multiset().count(x) == given.to_multiset().count(
        x,
    ) by {
        lemma_count_in_group(sorted, x);
        lemma_count_in_group(given, x);
        assert(sorted.filter(dated(x.date)) == given.filter(dated(x.date)));
    }
    assert(sorted.to_multiset() =~= given.to_multiset());
    sorted.to_multiset_ensures();
    given.to_multiset_ensures();
}

/// A sequence sorted by date holds the articles that were given, each as
/// often as it was given.
pub proof fn lemma_stable_sort_keeps_articles(sorted: Seq<ArticleView>, given: Seq<ArticleView>)
    requires
        is_stable_sort_of(sorted, given),
    ensures
        forall|article: ArticleView| sorted.contains(article) == given.contains(article),
{
    assert forall|article: ArticleView| sorted.contains(article) == given.contains(article) by {
        let date = article.date;
        assert(sorted.filter(dated(date)) == given.filter(dated(date)));
        if sorted.contains(article) {
            let i = choose|i: int| 0 <= i < sorted.len() && sorted[i] == article;
            sorted.lemma_filter_contains(dated(date), i);
            given.lemma_filter_contains_rev(dated(date), article);
        }
        if given.contains(article) {
            let i = choose|i: int| 0 <= i < given.len() && given[i] == article;
            given.lemma_filter_contains(dated(date), i);
            sorted.lemma_filter_contains_rev(dated(date), article);
        }
    }
}

/// Putting `x` into the sorted `s` behind the articles that are not older
/// than it, and before the older ones, sorts `s` followed by `x`.
proof fn lemma_insert_keeps_order(s: Seq<ArticleView>, pos: int, x: ArticleView)
    requires
        dates_descending(s),
        0 <= pos <= s.len(),
        forall|i: int| 0 <= i < pos ==> !date_earlier((#[trigger] s[i]).date, x.date),
        forall|i: int| pos <= i < s.len() ==> date_earlier((#[trigger] s[i]).date, x.date),
    ensures
        is_stable_sort_of(s.insert(pos, x), s.push(x)),
{
    let out = s.insert(pos, x);
    let head = s.subrange(0, pos);
    let tail = s.subrange(pos, s.len() as int);
    assert(dates_descending(out)) by {
        assert forall|i: int, j: int| 0 <= i < j < out.len() implies !date_earlier(
            #[trigger] out[i].date,
            #[trigger] out[j].date,
        ) by {
            if i < pos {
                assert(out[i] == s[i]);
            } else if i > pos {
                assert(out[i] == s[i - 1]);
            }
            if j < pos {
                assert(out[j] == s[j]);
            } else if j > pos {
                assert(out[j] == s[j - 1]);
            }
        }
    }
    assert forall|date: Option<Timestamp>| #[trigger]
        out.filter(dated(date)) == s.push(x).filter(dated(date)) by {
        assert(s =~= head + tail);
        Seq::filter_distributes_over_add(head, tail, dated(date));
        Seq::filter_distributes_over_add(head.push(x), tail, dated(date));
        lemma_filter_push(head, x, date);
        lemma_filter_push(s, x, date);
        if x.date == date {
            lemma_filter_none(tail, date);
            assert(head.filter(dated(date)) + Seq::<ArticleView>::empty() =~= head.filter(
                dated(date),
            ));
            assert(head.filter(dated(date)).push(x) + Seq::<ArticleView>::empty()
                =~= head.filter(dated(date)).push(x));
        }
    }
}

/// Puts `article` into the sorted `sorted`, behind the articles of its own
/// date.
fn insert_by_date(sorted: &mut Vec<Article>, article: Article)
    requires
        dates_descending(old(sorted).deep_view()),
    ensures
        is_stable_sort_of(
            final(sorted).deep_view(),
            old(sorted).deep_view().push(article.deep_view()),
        ),
{
    let mut pos: usize = 0;
    while pos < sorted.len() && !is_date_earlier(&sorted[pos].date, &article.date)
        invariant
            pos <= sorted.len(),
            forall|i: int|
                0 <= i < pos ==> !date_earlier(
                    (#[trigger] sorted.deep_view()[i]).date,
                    article.date,
                ),
        decreases sorted.len() - pos,
    {
        pos += 1;
    }
    proof {
        let s = sorted.deep_view();
        assert forall|i: int| pos <= i < s.len() implies date_earlier(
            (#[trigger] s[i]).date,
            article.date,
        ) by {
            assert(date_earlier(s[pos as int].date, article.date));
            if i > pos {
                assert(!date_earlier(s[pos as int].date, s[i].date));
            }
        }
        lemma_insert_keeps_order(s, pos as int, article.deep_view());
    }
    let ghost before = sorted.deep_view();
    let ghost added = article.deep_view();
    sorted.insert(pos, article);
    assert(sorted.deep_view() =~= before.insert(pos as int, added));
}

impl Clone for Feed {
    fn clone(&self) -> (copy: Feed)
        ensures
            copy@ == self@,
    {
        proof {
            use_type_invariant(self);
        }
        let articles = self.articles.clone();
        proof {
            assert forall|i: int| 0 <= i < articles.len() implies articles@[i]@
                == self.articles@[i]@ by {
                assert(cloned::<Article>(self.articles@[i], articles@[i]));
            }
            assert(articles.deep_view() =~= self.articles.deep_view());
        }
        Feed { name: self.name.clone(), articles }
    }
}

impl Feed {
    #[verifier::type_invariant]
    spec fn newest_first(self) -> bool {
        dates_descending(self.articles.deep_view())
    }

    /// Makes the feed named `name` of the entries of a parsed feed: each
    /// entry becomes an article, none is lost and none added, and the
    /// articles are sorted by date, the newest first and those without a
    /// date last. Articles of one date keep the order of their entries.
    pub fn new(name: &str, entries: Vec<Entry>) -> (feed: Feed)
        ensures
            feed@.name == name@,
            is_stable_sort_of(feed@.articles, articles_of(entries.deep_view())),
            feed@.articles.to_multiset() == articles_of(entries.deep_view()).to_multiset(),
            feed@.articles.len() == entries.len(),
    {
        let ghost given = articles_of(entries.deep_view());
        let mut sorted: Vec<Article> = Vec::new();
        proof {
            assert forall|date: Option<Timestamp>| #[trigger]
                sorted.deep_view().filter(dated(date)) == given.take(0).filter(dated(date)) by {
                assert(sorted.deep_view() =~= given.take(0));
            }
        }
        for entry in it: entries
            invariant
                given == articles_of(entries.deep_view()),
                it.seq() == entries@,
                is_stable_sort_of(sorted.deep_view(), given.take(it.index() as int)),
        {
            let ghost before = sorted.deep_view();
            let ghost seen = given.take(it.index() as int);
            let article = Article::from(entry);
            assert(article.deep_view() == given[it.index() as int]);
            insert_by_date(&mut sorted, article);
            proof {
                let next = given.take(it.index() + 1);
                assert(next =~= seen.push(article.deep_view()));
                assert forall|date: Option<Timestamp>| #[trigger]
                    sorted.deep_view().filter(dated(date)) == next.filter(dated(date)) by {
                    lemma_filter_push(before, article.deep_view(), date);
                    lemma_filter_push(seen, article.deep_view(), date);
                    assert(before.filter(dated(date)) == seen.filter(dated(date)));
                }
            }
        }
        assert(given.take(entries@.len() as int) =~= given);
        proof {
            lemma_stable_sort_is_rearrangement(sorted.deep_view(), given);
        }
        Feed { name: String::from_str(name), articles: sorted }
    }

    /// The name of the source that the feed came from.
    pub fn name(&self) -> (name: &String)
        ensures
            name@ == self@.name,
    {
        &self.name
    }

    /// The articles of the feed, the newest first.
    pub fn articles(&self) -> (articles: &Vec<Article>)
        ensures
            articles.deep_view() == self@.articles,
            dates_descending(self@.articles),
    {
        proof {
            use_type_invariant(self);
        }
        &self.articles
    }
}

} // verus!
