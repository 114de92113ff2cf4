//! How the reader words what it shows: the titles in the list of articles,
//! the rows of a summary, the mark beside a source.

use vstd::prelude::*;
use vstd::utf8::encode_utf8;

use crate::config::ArticleTitleConfig;
use crate::feed::{Article, ArticleView};
use crate::helpers::strings::{
    elide_string_at, elided, pattern_source, regex_replaced, replace_multiple_newlines, Pattern,
};
use crate::helpers::text::{chars_of, trim, trimmed};
use crate::kiosk::FlatFeedState;

verus! {

/// What stands before the title of an article in the list: the date, where
/// dates are shown and the article has one, then the first author in
/// brackets, where authors are shown and the article has one.
pub open spec fn title_prefix(
    config: ArticleTitleConfig,
    article: ArticleView,
    date: Option<Seq<char>>,
) -> Seq<char> {
    let dated = match date {
        Some(text) => if config.show_timestamp {
            text + " "@
        } else {
            Seq::empty()
        },
        None => Seq::empty(),
    };
    if config.show_author && article.authors.len() > 0 {
        dated + "("@ + article.authors[0] + ") "@
    } else {
        dated
    }
}

/// The cells that are left for the title once the prefix is written.
pub open spec fn title_room(
    config: ArticleTitleConfig,
    article: ArticleView,
    date: Option<Seq<char>>,
    max_title_len: usize,
) -> nat {
    let used = encode_utf8(title_prefix(config, article, date)).len();
    if max_title_len >= used {
        (max_title_len - used) as nat
    } else {
        0
    }
}

/// The line of an article in the list of articles, where `kept` is what
/// fits of the title in the room that is left for it, with one cell to
/// spare.
pub open spec fn title_in_list(
    config: ArticleTitleConfig,
    article: ArticleView,
    date: Option<Seq<char>>,
    max_title_len: usize,
    kept: Seq<char>,
) -> Seq<char> {
    let prefix = title_prefix(config, article, date);
    match article.title {
        Some(title) => prefix + elided(
            title,
            title_room(config, article, date, max_title_len),
            kept,
        ),
        None => prefix,
    }
}

/// The cells that are left for the title of `article` once the prefix is
/// written.
pub fn title_room_of(
    config: ArticleTitleConfig,
    article: &Article,
    date: Option<&str>,
    max_title_len: usize,
) -> (room: usize)
    ensures
        room == title_room(
            config,
            article@,
            match date {
                Some(text) => Some(text@),
                None => None,
            },
            max_title_len,
        ),
{
    let prefix = title_prefix_of(config, article, date);
    let used = prefix.as_str().as_bytes().len();
    if max_title_len >= used {
        max_title_len - used
    } else {
        0
    }
}

fn title_prefix_of(config: ArticleTitleConfig, article: &Article, date: Option<&str>) -> (prefix:
    String)
    ensures
        prefix@ == title_prefix(
            config,
            article@,
            match date {
                Some(text) => Some(text@),
                None => None,
            },
        ),
{
    let mut line = String::new();
    match date {
        Some(text) => {
            if config.show_timestamp {
                line.append(text);
                line.append(" ");
            }
        },
        None => {},
    }
    if config.show_author && article.authors.len() > 0 {
        line.append("(");
        line.append(article.authors[0].as_str());
        line.append(") ");
    }
    proof {
        let prefix = title_prefix(
            config,
            article@,
            match date {
                Some(text) => Some(text@),
                None => None,
            },
        );
        assert(line@ =~= prefix);
    }
    line
}

/// Formats the title of an article for the list of articles. `date` is the
/// date of the article as it is to be shown, if the article has one. The
/// title is elided to the room that the prefix leaves of `max_title_len`
/// cells, which `title_room_of` tells; `kept` is what is left of the title
/// when it is cut: its beginning that fits in that room less one cell.
pub fn fmt_article_title_in_list(
    config: ArticleTitleConfig,
    article: &Article,
    date: Option<&str>,
    max_title_len: usize,
    kept: &str,
) -> (line: String)
    ensures
        line@ == title_in_list(
            config,
            article@,
            match date {
                Some(text) => Some(text@),
                None => None,
            },
            max_title_len,
            kept@,
        ),
{
    let mut line = title_prefix_of(config, article, date);
    let room = title_room_of(config, article, date, max_title_len);
    match &article.title {
        Some(title) => {
            let shown = elide_string_at(title.as_str(), room, kept);
            line.append(shown.as_str());
        },
        None => {},
    }
    line
}

/// The length to which titles in the list of articles are held on a
/// terminal of `terminal_width` cells: half the terminal, less the margin.
pub fn max_article_name_len(terminal_width: usize) -> (len: usize)
    requires
        terminal_width >= 18,
    ensures
        len == terminal_width / 2 - 9,
{
    terminal_width / 2 - 9
}

/// The share that is left on either side of a box that takes `percent`
/// of a width or a height, in hundredths of it.
pub fn side_margin(percent: u16) -> (margin: u16)
    requires
        percent <= 100,
    ensures
        margin == (100 - percent) / 2,
{
    (100 - percent) / 2
}

/// The mark that stands beside a source in the list of sources.
pub open spec fn state_mark(state: FlatFeedState, loading_step: char) -> Seq<char> {
    match state {
        FlatFeedState::Success => "  "@,
        FlatFeedState::Loading => seq![loading_step, ' '],
        FlatFeedState::Error => "✘ "@,
    }
}

/// The mark that stands beside a source in the list of sources: blank for
/// a loaded feed, the turning mark for one that is loading, a cross for one
/// that failed.
pub fn feed_state_mark(state: FlatFeedState, loading_step: char) -> (mark: String)
    ensures
        mark@ == state_mark(state, loading_step),
{
    match state {
        FlatFeedState::Success => String::from_str("  "),
        FlatFeedState::Loading => {
            let mut mark = String::new();
            mark.push(loading_step);
            mark.push(' ');
            assert(mark@ =~= seq![loading_step, ' ']);
            mark
        },
        FlatFeedState::Error => String::from_str("✘ "),
    }
}

/// `names`, each but the last followed by a comma and a blank.
pub open spec fn joined(names: Seq<Seq<char>>) -> Seq<char>
    decreases names.len(),
{
    if names.len() == 0 {
        Seq::empty()
    } else if names.len() == 1 {
        names[0]
    } else {
        joined(names.drop_last()) + ", "@ + names.last()
    }
}

/// The line that names the authors of an article.
pub fn join_authors(authors: &Vec<String>) -> (line: String)
    ensures
        line@ == joined(authors.deep_view()),
{
    let mut line = String::new();
    let mut i: usize = 0;
    assert(authors.deep_view().take(0) =~= Seq::<Seq<char>>::empty());
    while i < authors.len()
        invariant
            i <= authors.len(),
            line@ == joined(authors.deep_view().take(i as int)),
        decreases authors.len() - i,
    {
        let ghost before = authors.deep_view().take(i as int);
        let ghost now = authors.deep_view().take(i + 1);
        assert(now.drop_last() =~= before);
        assert(now.last() == authors@[i as int]@);
        if i > 0 {
            line.append(", ");
        } else {
            assert(line@ + authors@[i as int]@ =~= authors@[i as int]@);
        }
        line.append(authors[i].as_str());
        i += 1;
    }
    assert(authors.deep_view().take(i as int) =~= authors.deep_view());
    line
}

/// `items` with the state of the first item named `name` set to `state`.
pub open spec fn with_item_state(
    items: Seq<(Seq<char>, FlatFeedState)>,
    name: Seq<char>,
    state: FlatFeedState,
    from: int,
) -> Seq<(Seq<char>, FlatFeedState)>
    decreases items.len() - from,
{
    if from < 0 || from >= items.len() {
        items
    } else if items[from].0 == name {
        items.update(from, (name, state))
    } else {
        with_item_state(items, name, state, from + 1)
    }
}

/// The items of a list of sources as contracts see them.
pub open spec fn items_view(items: Seq<(String, FlatFeedState)>) -> Seq<(Seq<char>, FlatFeedState)> {
    items.map_values(|item: (String, FlatFeedState)| (item.0@, item.1))
}

/// Sets the state of the first item named `name`. A name that is not in
/// the list changes nothing.
pub fn set_item_state(items: &mut Vec<(String, FlatFeedState)>, name: &str, state: FlatFeedState)
    ensures
        items_view(final(items)@) == with_item_state(items_view(old(items)@), name@, state, 0),
{
    let ghost given = items_view(items@);
    let mut i: usize = 0;
    while i < items.len()
        invariant
            i <= items.len(),
            given == items_view(items@),
            *items == *old(items),
            with_item_state(given, name@, state, i as int) == with_item_state(
                given,
                name@,
                state,
                0,
            ),
        decreases items.len() - i,
    {
        assert(given[i as int].0 == items@[i as int].0@);
        if *items[i].0.as_str() == *name {
            items[i].1 = state;
            assert(items_view(items@) =~= given.update(i as int, (name@, state)));
            return ;
        }
        i += 1;
    }
}

/// What a character does to the rows: a line break closes the row that is
/// being filled, any other character goes into it; a row that has reached
/// the width is closed. Gives the rows that were closed and the row that is
/// being filled.
pub open spec fn row_step(filling: Seq<char>, c: char, width: usize) -> (Seq<Seq<char>>, Seq<char>) {
    let (closed, next) = if c == '\n' {
        (seq![filling], Seq::<char>::empty())
    } else {
        (Seq::<Seq<char>>::empty(), filling.push(c))
    };
    if next.len() >= width {
        (closed.push(next), Seq::<char>::empty())
    } else {
        (closed, next)
    }
}

/// The rows that `text` fills from the row `filling` on, in a column of
/// `width` cells. The row that is being filled at the end is a row too.
pub open spec fn rows_from(text: Seq<char>, filling: Seq<char>, width: usize) -> Seq<Seq<char>>
    decreases text.len(),
{
    if text.len() == 0 {
        seq![filling]
    } else {
        let (closed, next) = row_step(filling, text[0], width);
        closed + rows_from(text.skip(1), next, width)
    }
}

/// The rows of a summary in a column of `width` cells: the summary
/// without the white space around it and with each run of repeated line
/// breaks as one, broken at each line break and wherever a row is full.
pub open spec fn summary_rows(summary: Seq<char>, width: usize) -> Seq<Seq<char>> {
    rows_from(
        regex_replaced(pattern_source(Pattern::RepeatedNewlines), trimmed(summary), "\n"@),
        Seq::empty(),
        width,
    )
}

fn row_of(filling: &Vec<char>) -> (row: String)
    ensures
        row@ == filling@,
{
    let mut row = String::new();
    let mut i: usize = 0;
    while i < filling.len()
        invariant
            i <= filling.len(),
            row@ == filling@.take(i as int),
        decreases filling.len() - i,
    {
        row.push(filling[i]);
        assert(row@ =~= filling@.take(i + 1));
        i += 1;
    }
    assert(filling@.take(i as int) =~= filling@);
    row
}

/// Makes the rows of a summary for a column of `width` cells.
pub fn make_summary_rows(summary: &str, width: usize) -> (rows: Vec<String>)
    ensures
        rows.deep_view() == summary_rows(summary@, width),
{
    let text = replace_multiple_newlines(trim(summary), "\n");
    let chars = chars_of(text.as_str());
    let mut rows: Vec<String> = Vec::new();
    let mut filling: Vec<char> = Vec::new();
    let mut i: usize = 0;
    assert(chars@.skip(0) =~= chars@);
    assert(rows.deep_view() + rows_from(chars@, filling@, width) =~= rows_from(
        chars@,
        filling@,
        width,
    ));
    while i < chars.len()
        invariant
            i <= chars.len(),
            rows.deep_view() + rows_from(chars@.skip(i as int), filling@, width) == rows_from(
                chars@,
                Seq::empty(),
                width,
            ),
        decreases chars.len() - i,
    {
        let ghost rest = chars@.skip(i as int);
        let ghost before = rows.deep_view();
        let ghost held = filling@;
        let c = chars[i];
        if c == '\n' {
            let row = row_of(&filling);
            rows.push(row);
            filling.clear();
        } else {
            filling.push(c);
        }
        if filling.len() >= width {
            let row = row_of(&filling);
            rows.push(row);
            filling.clear();
        }
        proof {
            let (closed, next) = row_step(held, c, width);
            assert(rest.skip(1) =~= chars@.skip(i + 1));
            assert(rest[0] == c);
            assert(filling@ =~= next);
            assert(rows.deep_view() =~= before + closed);
            assert(before + closed + rows_from(rest.skip(1), next, width) =~= before + (closed
                + rows_from(rest.skip(1), next, width)));
        }
        i += 1;
    }
    let ghost before = rows.deep_view();
    let row = row_of(&filling);
    rows.push(row);
    proof {
        assert(chars@.skip(i as int).len() == 0);
        assert(rows.deep_view() =~= before + seq![filling@]);
    }
    rows
}

} // verus!
