use tuifeed::config::ArticleTitleConfig;
use tuifeed::display::{
    feed_state_mark, fmt_article_title_in_list, join_authors, make_summary_rows,
    max_article_name_len, set_item_state, side_margin, title_room_of,
};
use tuifeed::helpers::text::{is_blank_text, is_whitespace, trim};
use tuifeed::feed::{Article, Timestamp};
use tuifeed::kiosk::FlatFeedState;
use unicode_truncate::UnicodeTruncateStr;

/// Formats the title, with what the display keeps of it in the room that
/// is left.
fn fmt(config: ArticleTitleConfig, article: &Article, date: Option<&str>, max: usize) -> String {
    let room = title_room_of(config, article, date, max);
    let kept = match article.title.as_deref() {
        Some(title) => title.unicode_truncate(room.saturating_sub(1)).0,
        None => "",
    };
    fmt_article_title_in_list(config, article, date, max, kept)
}

fn article(title: Option<&str>, authors: &[&str]) -> Article {
    Article {
        id: String::from("1"),
        title: title.map(|t| t.to_string()),
        authors: authors.iter().map(|a| a.to_string()).collect(),
        summary: String::new(),
        url: String::new(),
        date: Some(Timestamp::new(0, 0)),
    }
}

#[test]
fn should_format_the_title_of_an_article() {
    let plain = ArticleTitleConfig::default();
    let full = ArticleTitleConfig {
        show_timestamp: true,
        show_author: true,
    };
    let a = article(Some("Lorem ipsum dolores"), &["Ann", "Bob"]);
    let date = Some("1970-01-01T00:00:00+00:00");
    assert_eq!(
        fmt(plain, &a, date, 40),
        "Lorem ipsum dolores"
    );
    assert_eq!(
        fmt(plain, &a, date, 10),
        "Lorem ips…"
    );
    assert_eq!(
        fmt(full, &a, date, 60),
        "1970-01-01T00:00:00+00:00 (Ann) Lorem ipsum dolores"
    );
    // 26 + 6 bytes of prefix leave 8 cells
    assert_eq!(
        fmt(full, &a, date, 40),
        "1970-01-01T00:00:00+00:00 (Ann) Lorem i…"
    );
    assert_eq!(
        fmt(full, &a, None, 40),
        "(Ann) Lorem ipsum dolores"
    );
    let nameless = article(None, &[]);
    assert_eq!(
        fmt(full, &nameless, date, 40),
        "1970-01-01T00:00:00+00:00 "
    );
    // without a title the room does not matter
    assert_eq!(
        fmt(full, &nameless, date, 0),
        "1970-01-01T00:00:00+00:00 "
    );
    let only_author = ArticleTitleConfig {
        show_timestamp: false,
        show_author: true,
    };
    assert_eq!(
        fmt(only_author, &article(Some("t"), &[]), date, 40),
        "t"
    );
}

#[test]
fn should_hold_titles_to_half_the_terminal() {
    assert_eq!(max_article_name_len(18), 0);
    assert_eq!(max_article_name_len(80), 31);
    assert_eq!(max_article_name_len(81), 31);
    assert_eq!(max_article_name_len(65535), 32758);
}

#[test]
fn should_mark_the_state_of_a_feed() {
    assert_eq!(feed_state_mark(FlatFeedState::Success, '⣾'), "  ");
    assert_eq!(feed_state_mark(FlatFeedState::Loading, '⣾'), "⣾ ");
    assert_eq!(feed_state_mark(FlatFeedState::Error, '⣾'), "✘ ");
}

#[test]
fn should_join_authors() {
    assert_eq!(join_authors(&vec![]), "");
    assert_eq!(join_authors(&vec![String::from("Ann")]), "Ann");
    assert_eq!(
        join_authors(&vec![
            String::from("Ann"),
            String::from(""),
            String::from("Bob")
        ]),
        "Ann, , Bob"
    );
}

#[test]
fn should_set_the_state_of_the_first_item_of_that_name() {
    let mut items = vec![
        (String::from("a"), FlatFeedState::Loading),
        (String::from("b"), FlatFeedState::Loading),
        (String::from("a"), FlatFeedState::Loading),
    ];
    set_item_state(&mut items, "a", FlatFeedState::Error);
    set_item_state(&mut items, "c", FlatFeedState::Success);
    assert_eq!(
        items,
        vec![
            (String::from("a"), FlatFeedState::Error),
            (String::from("b"), FlatFeedState::Loading),
            (String::from("a"), FlatFeedState::Loading),
        ]
    );
}

#[test]
fn should_leave_a_margin_on_either_side() {
    assert_eq!(side_margin(30), 35);
    assert_eq!(side_margin(15), 42);
    assert_eq!(side_margin(100), 0);
    assert_eq!(side_margin(0), 50);
}

#[test]
fn should_tell_the_room_that_is_left_for_a_title() {
    let full = ArticleTitleConfig {
        show_timestamp: true,
        show_author: true,
    };
    let a = article(Some("title"), &["Ann"]);
    assert_eq!(title_room_of(full, &a, Some("2020"), 40), 29);
    assert_eq!(title_room_of(full, &a, Some("2020"), 11), 0);
    assert_eq!(title_room_of(full, &a, Some("2020"), 3), 0);
    assert_eq!(title_room_of(full, &a, None, 40), 34);
    assert_eq!(title_room_of(ArticleTitleConfig::default(), &a, None, 40), 40);
}

#[test]
fn should_tell_white_space() {
    for c in [' ', '\t', '\n', '\r', '\u{b}', '\u{c}', '\u{85}', '\u{a0}', '\u{3000}'] {
        assert!(is_whitespace(c));
    }
    for c in ['a', '\u{200b}', '\u{8}', '\u{e}', '0', '\u{feff}'] {
        assert!(!is_whitespace(c));
    }
    // as the standard library tells it, for every character
    for code in 0..=0x10ffff_u32 {
        if let Some(c) = char::from_u32(code) {
            assert_eq!(is_whitespace(c), c.is_whitespace());
        }
    }
    assert!(is_blank_text(""));
    assert!(is_blank_text(" \n\t"));
    assert!(!is_blank_text(" x "));
}

#[test]
fn should_trim_white_space() {
    assert_eq!(trim("  a b \n"), "a b");
    assert_eq!(trim("\n\n\u{a0}\u{3000}x\u{2028}"), "x");
    assert_eq!(trim(" \t\r\n"), "");
    assert_eq!(trim(""), "");
    assert_eq!(trim("x"), "x");
    for text in ["", " ", " a ", "\na\n\n b\u{85}", "\u{200b}a"] {
        assert_eq!(trim(text), text.trim_matches('\n').trim());
    }
}

#[test]
fn should_make_the_rows_of_a_summary() {
    assert_eq!(make_summary_rows("", 10), vec![""]);
    assert_eq!(make_summary_rows("abc", 10), vec!["abc"]);
    assert_eq!(make_summary_rows("abcde", 2), vec!["ab", "cd", "e"]);
    // a row that is full is closed, and a new one begun
    assert_eq!(make_summary_rows("abcd", 2), vec!["ab", "cd", ""]);
    assert_eq!(make_summary_rows("ab\ncd", 3), vec!["ab", "cd"]);
    assert_eq!(make_summary_rows("ab\ncd", 2), vec!["ab", "", "cd", ""]);
    // two line breaks count as one, white space around the text is dropped
    assert_eq!(
        make_summary_rows("\n\n  Hello\n\n\nworld  \n", 80),
        vec!["Hello", "", "world"]
    );
    assert_eq!(make_summary_rows("a\n\nb\nc", 80), vec!["a", "b", "c"]);
    // no width at all: every character closes a row
    assert_eq!(make_summary_rows("ab", 0), vec!["a", "b", ""]);
    assert_eq!(make_summary_rows("a\nb", 0), vec!["a", "", "", "b", ""]);
}
