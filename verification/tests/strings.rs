use tuifeed::helpers::lookup::find_entity;
use tuifeed::helpers::strings::{
    elide_string_at, parse_decimal, replace_multiple_newlines, strip_html, strip_html_tags, Pattern,
};
use tuifeed::helpers::text::{chars_of, replace, starts_with};
use unicode_truncate::UnicodeTruncateStr;

/// Elides `s` at `len` cells, with what the display keeps of it.
fn elide(s: &str, len: usize) -> String {
    elide_string_at(s, len, s.unicode_truncate(len - 1).0)
}

#[test]
fn strings_should_elide_string() {
    assert_eq!(
        elide("Lorem ipsum dolores", 10).as_str(),
        "Lorem ips…"
    );
}

#[test]
fn mod_should_elide_string() {
    assert_eq!(
        elide("Lorem ipsum dolores", 10).as_str(),
        "Lorem ips…"
    );
}

#[test]
fn strings_should_not_elide_string() {
    assert_eq!(elide("Hello world!", 24).as_str(), "Hello world!");
}

#[test]
fn mod_should_not_elide_string() {
    assert_eq!(elide("Hello world!", 24).as_str(), "Hello world!");
}

#[test]
fn strings_should_elide_without_panicking() {
    assert_eq!(
        elide("`Milano, la sfida dei «no pass»: arrivano in piazza Duomo. Le forze dell’ordine bloccano il corteo`", 30).as_str(),
        "`Milano, la sfida dei «no pas…"
    )
}

#[test]
fn mod_should_elide_without_panicking() {
    assert_eq!(
        elide("`Milano, la sfida dei «no pass»: arrivano in piazza Duomo. Le forze dell’ordine bloccano il corteo`", 30).as_str(),
        "`Milano, la sfida dei «no pas…"
    )
}

#[test]
fn should_elide_by_bytes_and_cut_by_width() {
    // as long as the string as the column: cut
    assert_eq!(elide("abc", 3).as_str(), "ab…");
    assert_eq!(elide("abc", 4).as_str(), "abc");
    assert_eq!(elide("abc", 1).as_str(), "…");
    assert_eq!(elide("", 1).as_str(), "");
    // three bytes, one cell
    assert_eq!(elide("…", 3).as_str(), "……");
    // a wide character does not fit in one cell
    assert_eq!(elide("日本語", 2).as_str(), "…");
    assert_eq!(elide("日本語", 4).as_str(), "日…");
}

#[test]
fn should_close_what_is_kept_with_an_ellipsis() {
    // cut: what is kept, then the ellipsis
    assert_eq!(elide_string_at("abcdef", 4, "abc"), "abc…");
    assert_eq!(elide_string_at("abcdef", 6, "abcde"), "abcde…");
    assert_eq!(elide_string_at("abcdef", 0, ""), "…");
    // fewer bytes than cells: not cut, whatever is kept
    assert_eq!(elide_string_at("abcdef", 7, "abc"), "abcdef");
    assert_eq!(elide_string_at("", 1, ""), "");
    // bytes count, not characters
    assert_eq!(elide_string_at("éé", 4, "é"), "é…");
    assert_eq!(elide_string_at("éé", 5, "é"), "éé");
}

#[test]
fn should_strip_html_tags() {
    assert_eq!(
        strip_html_tags(
            r#"<p><img src="https://images2.corriereobjects.it/methode_image/2021/11/09/Cultura/Foto%20Cltura%20-%20Trattate/Il%20salvataggio%20delle%20vacche%20bis-kWoC-U3300981161016RfG-656x492@Corriere-Web-Sezioni.jpg" title="Polesine, novembre 1951,settant’anni fa l’alluvione che travolse il Veneto" alt="Polesine, novembre 1951 />Hello</p> World!"#
        ),
        "Hello World!"
    );
}

#[test]
fn should_resolve_the_five_common_references() {
    assert_eq!(
        strip_html_tags("<a>x</a>&nbsp;&amp;&lt;&gt;&quot;&apos;"),
        "x &<>\"&apos;"
    );
    assert_eq!(strip_html_tags("&amp;lt;"), "<");
}

#[test]
fn should_strip_html() {
    assert_eq!(
        strip_html(
            r#"<p><img src="https://images2.corriereobjects.it/methode_image/2021/11/09/Cultura/Foto%20Cltura%20-%20Trattate/Il%20salvataggio%20delle%20vacche%20bis-kWoC-U3300981161016RfG-656x492@Corriere-Web-Sezioni.jpg" title="Polesine, novembre 1951,settant’anni fa l’alluvione che travolse il Veneto" alt="Polesine, novembre 1951 />Hello</p> World!"#
        ),
        "Hello World!"
    );
    assert_eq!(
        strip_html(r#"Hello, &lt;World&gt;&#33;"#),
        "Hello, <World>!"
    );
}

#[test]
fn should_resolve_character_references() {
    assert_eq!(strip_html("&amp;"), "&");
    // a no-break space becomes a plain space
    assert_eq!(strip_html("a&nbsp;b"), "a b");
    assert_eq!(strip_html("&#65;&#66;"), "AB");
    assert_eq!(strip_html("&euro;5"), "\u{20ac}5");
    // unknown names and codes that are no character give the replacement character
    assert_eq!(strip_html("&nosuchname;"), "\u{fffd}");
    assert_eq!(strip_html("&#55296;"), "\u{fffd}");
    assert_eq!(strip_html("&#1114112;"), "\u{fffd}");
    assert_eq!(strip_html("&#99999999999;"), "\u{fffd}");
    assert_eq!(strip_html("&#1114111;"), "\u{10ffff}");
    // a decimal reference goes before the letters that follow it
    assert_eq!(strip_html("&#33amp;"), "!");
    // neither digits nor letters: left alone
    assert_eq!(strip_html("&;"), "&;");
    // upper case letters are no reference
    assert_eq!(strip_html("&AMP;"), "&AMP;");
    // every occurrence is replaced at the first match
    assert_eq!(strip_html("&lt;&gt;&lt;"), "<><");
    // what a reference gives may itself be resolved by a later one
    assert_eq!(strip_html("&amp;lt; &lt;"), "< <");
}

#[test]
fn strings_should_replace_multiple_newlines() {
    assert_eq!(
        replace_multiple_newlines(
            r"Hello, world!


How are you?
I'm fine,
thanks!",
            "\n"
        )
        .as_str(),
        r"Hello, world!

How are you?
I'm fine,
thanks!"
    );
}

#[test]
fn mod_should_replace_multiple_newlines() {
    assert_eq!(
        replace_multiple_newlines(
            r"Hello, world!


How are you?
I'm fine,
thanks!",
            "\n"
        )
        .as_str(),
        r"Hello, world!

How are you?
I'm fine,
thanks!"
    );
}

#[test]
fn should_replace_line_breaks_of_every_kind() {
    assert_eq!(replace_multiple_newlines("a\r\n\r\nb", "|"), "a|b");
    assert_eq!(replace_multiple_newlines("a\r12\nb", "|"), "a|b");
    assert_eq!(replace_multiple_newlines("a\nb", "|"), "a\nb");
    assert_eq!(replace_multiple_newlines("a\n\n\n\nb", "|"), "a||b");
}

#[test]
fn should_give_the_source_of_each_pattern() {
    assert_eq!(Pattern::HtmlTag.source(), "<[^>]+>");
    assert_eq!(Pattern::HtmlEntity.source(), "&(#([0-9]+))?([a-z]+)?;");
    assert_eq!(
        Pattern::RepeatedNewlines.source(),
        r"(\r?\n|\r)\d*(\r?\n|\r)"
    );
}

#[test]
fn should_parse_decimal_numbers() {
    assert_eq!(parse_decimal("0"), Some(0));
    assert_eq!(parse_decimal("33"), Some(33));
    assert_eq!(parse_decimal("0033"), Some(33));
    assert_eq!(parse_decimal("4294967295"), Some(u32::MAX));
    assert_eq!(parse_decimal("4294967296"), None);
    assert_eq!(parse_decimal("42949672950"), None);
    assert_eq!(parse_decimal(""), None);
    assert_eq!(parse_decimal("12a"), None);
    assert_eq!(parse_decimal("+12"), None);
    assert_eq!(parse_decimal("١٢"), None);
}

#[test]
fn should_find_named_references() {
    assert_eq!(find_entity("amp"), Some("&"));
    assert_eq!(find_entity("AElig"), Some("\u{c6}"));
    assert_eq!(find_entity("zwnj"), Some("\u{200c}"));
    assert_eq!(find_entity("nosuchname"), None);
    assert_eq!(find_entity(""), None);
}

#[test]
fn should_replace_every_occurrence() {
    assert_eq!(replace("a-b-c", "-", "+"), "a+b+c");
    assert_eq!(replace("aaa", "aa", "b"), "ba");
    assert_eq!(replace("abc", "", "-"), "-a-b-c-");
    assert_eq!(replace("", "", "-"), "-");
    assert_eq!(replace("", "a", "-"), "");
    assert_eq!(replace("abc", "abcd", "-"), "abc");
    assert_eq!(replace("héllo wörld", "ö", "oe"), "héllo woerld");
    assert_eq!(replace("abab", "ab", ""), "");
}

#[test]
fn should_agree_with_the_standard_library_on_replace() {
    let texts = ["", "a", "aaaa", "abcabc", "&lt;&lt;", "ünïcödé"];
    let patterns = ["", "a", "aa", "bc", "&lt;", "ï"];
    for text in texts {
        for from in patterns {
            assert_eq!(replace(text, from, "_"), text.replace(from, "_"));
        }
    }
}

#[test]
fn should_tell_prefixes() {
    assert!(starts_with("http://x", "http://"));
    assert!(!starts_with("http:/", "http://"));
    assert!(starts_with("abc", ""));
    assert!(starts_with("", ""));
    assert!(!starts_with("", "a"));
    assert_eq!(chars_of("a…b"), vec!['a', '…', 'b']);
}
