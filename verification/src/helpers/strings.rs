//! Text clean-up for what a feed delivers: markup removal, character
//! references, runs of blank lines and shortening for display.

use regex::Regex;
use vstd::prelude::*;
use vstd::utf8::encode_utf8;

use crate::helpers::lookup::{entity_text, find_entity};
use crate::helpers::text::{chars_of, replace, replaced};

verus! {

/// The regular expressions this module matches with.
#[derive(Debug, Clone, Copy, PartialEq, Eq)]
pub enum Pattern {
    /// One markup tag, from `<` to the next `>`.
    HtmlTag,
    /// One character reference, from `&` to `;`. Its second group holds the
    /// digits of a decimal reference, its third the letters of a named one.
    HtmlEntity,
    /// Two line breaks with nothing but digits between them.
    RepeatedNewlines,
}

/// The source text of a pattern.
pub open spec fn pattern_source(pattern: Pattern) -> Seq<char> {
    match pattern {
        Pattern::HtmlTag => "<[^>]+>"@,
        Pattern::HtmlEntity => "&(#([0-9]+))?([a-z]+)?;"@,
        Pattern::RepeatedNewlines => "(\\r?\\n|\\r)\\d*(\\r?\\n|\\r)"@,
    }
}

impl Pattern {
    /// The source text of the pattern, in the syntax of the `regex` crate.
    pub fn source(&self) -> (source: &'static str)
        ensures
            source@ == pattern_source(*self),
    {
        match self {
            Pattern::HtmlTag => "<[^>]+>",
            Pattern::HtmlEntity => "&(#([0-9]+))?([a-z]+)?;",
            Pattern::RepeatedNewlines => "(\\r?\\n|\\r)\\d*(\\r?\\n|\\r)",
        }
    }
}

/// One character reference found in a text.
pub struct EntityReferenceView {
    /// The whole reference, `&` and `;` included.
    pub whole: Seq<char>,
    /// The digits of a decimal reference.
    pub decimal: Option<Seq<char>>,
    /// The letters of a named reference.
    pub name: Option<Seq<char>>,
}

/// Whether `source` is the source text of one of the patterns of this
/// module.
pub open spec fn is_pattern(source: Seq<char>) -> bool {
    exists|pattern: Pattern| source == #[trigger] pattern_source(pattern)
}

/// What `Regex::replace_all` gives for the pattern compiled from `pattern`,
/// the haystack `text` and the replacement `with`.
pub uninterp spec fn regex_replaced(pattern: Seq<char>, text: Seq<char>, with: Seq<char>) -> Seq<
    char,
>;

/// The matches that `Regex::captures_iter` finds in `text` for the pattern
/// compiled from `pattern`, in the order of the text: for each match the
/// text of each group, the whole match first, or nothing for a group that
/// took no part in the match.
pub uninterp spec fn regex_captured(pattern: Seq<char>, text: Seq<char>) -> Seq<
    Seq<Option<Seq<char>>>,
>;

/// `Regex::new` and `Regex::replace_all` of the `regex` crate: every match
/// of `pattern` in `text`, from left to right and without overlap, is
/// replaced by `with`, in which `$` refers to a group of the match. The
/// pattern must be one of this module, each of which compiles.
#[verifier::external_body]
fn regex_replace_all(pattern: &str, text: &str, with: &str) -> (out: String)
    requires
        is_pattern(pattern@),
    ensures
        out@ == regex_replaced(pattern@, text@, with@),
{
    Regex::new(pattern).unwrap().replace_all(text, with).into_owned()
}

/// `Regex::new` and `Regex::captures_iter` of the `regex` crate: one item
/// for each match of `pattern` in `text`, which holds the text of each group
/// of the match, the whole match first. The pattern must be one of this
/// module, each of which compiles.
#[verifier::external_body]
fn regex_captures(pattern: &str, text: &str) -> (found: Vec<Vec<Option<String>>>)
    requires
        is_pattern(pattern@),
    ensures
        found.deep_view() == regex_captured(pattern@, text@),
{
    Regex::new(pattern).unwrap().captures_iter(text).map(
        |groups| groups.iter().map(|group| group.map(|m| m.as_str().to_string())).collect(),
    ).collect()
}

/// The character that stands where a reference cannot be resolved.
pub open spec fn replacement_char() -> char {
    '\u{FFFD}'
}

/// Whether `c` is one of the ten decimal digits.
pub open spec fn is_digit(c: char) -> bool {
    '0' <= c <= '9'
}

/// The number that the digits of `digits` spell. A character that is no
/// digit counts as zero.
pub open spec fn decimal_number(digits: Seq<char>) -> nat
    decreases digits.len(),
{
    if digits.len() == 0 {
        0
    } else {
        let last = digits.last();
        let units: nat = if is_digit(last) {
            (last as u32 - '0' as u32) as nat
        } else {
            0
        };
        10 * decimal_number(digits.drop_last()) + units
    }
}

/// The number that `digits` spells, where it is a non-empty run of digits
/// whose number fits in 32 bits.
pub open spec fn parsed_decimal(digits: Seq<char>) -> Option<u32> {
    if digits.len() > 0 && (forall|i: int| 0 <= i < digits.len() ==> is_digit(#[trigger] digits[i]))
        && decimal_number(digits) <= u32::MAX {
        Some(decimal_number(digits) as u32)
    } else {
        None
    }
}

/// Whether `code` is a Unicode scalar value.
pub open spec fn is_scalar_value(code: u32) -> bool {
    code < 0xD800 || (0xE000 <= code && code <= 0x10FFFF)
}

/// The character that a decimal reference with the digits `digits` stands
/// for: the one with that code, or the replacement character where there is
/// none.
pub open spec fn decimal_char(digits: Seq<char>) -> char {
    match parsed_decimal(digits) {
        Some(code) => if is_scalar_value(code) {
            code as char
        } else {
            replacement_char()
        },
        None => replacement_char(),
    }
}

/// The text that a named reference stands for: its entry in the table, or
/// the replacement character where it has none.
pub open spec fn named_text(name: Seq<char>) -> Seq<char> {
    match entity_text(name) {
        Some(text) => text,
        None => seq![replacement_char()],
    }
}

/// The text that replaces a reference. A decimal reference goes before a
/// named one; a reference that is neither is left alone.
pub open spec fn reference_text(reference: EntityReferenceView) -> Option<Seq<char>> {
    match reference.decimal {
        Some(digits) => Some(seq![decimal_char(digits)]),
        None => match reference.name {
            Some(name) => Some(named_text(name)),
            None => None,
        },
    }
}

/// `text` after the references of `references` were resolved one after the
/// other: each replaces every occurrence of its whole text.
pub open spec fn expanded(text: Seq<char>, references: Seq<EntityReferenceView>) -> Seq<char>
    decreases references.len(),
{
    if references.len() == 0 {
        text
    } else {
        let before = expanded(text, references.drop_last());
        match reference_text(references.last()) {
            Some(with) => replaced(before, references.last().whole, with),
            None => before,
        }
    }
}

/// The group at `index` of a match; nothing where the match has no such
/// group.
pub open spec fn group(groups: Seq<Option<Seq<char>>>, index: int) -> Option<Seq<char>> {
    if 0 <= index < groups.len() {
        groups[index]
    } else {
        None
    }
}

/// The character reference that a match of the pattern of references
/// found: the whole match, the digits in its second group and the letters
/// in its third.
pub open spec fn reference_of(groups: Seq<Option<Seq<char>>>) -> EntityReferenceView {
    EntityReferenceView {
        whole: match group(groups, 0) {
            Some(whole) => whole,
            None => Seq::empty(),
        },
        decimal: group(groups, 2),
        name: group(groups, 3),
    }
}

/// The character references that the matches found, in their order.
pub open spec fn references_of(matches: Seq<Seq<Option<Seq<char>>>>) -> Seq<EntityReferenceView> {
    Seq::new(matches.len(), |i: int| reference_of(matches[i]))
}

/// `s` without markup tags and with its character references resolved.
pub open spec fn html_stripped(s: Seq<char>) -> Seq<char> {
    let bare = regex_replaced(pattern_source(Pattern::HtmlTag), s, Seq::empty());
    expanded(bare, references_of(regex_captured(pattern_source(Pattern::HtmlEntity), bare)))
}

/// `s` without markup tags and with the five commonest named references
/// resolved.
pub open spec fn html_tags_stripped(s: Seq<char>) -> Seq<char> {
    let bare = regex_replaced(pattern_source(Pattern::HtmlTag), s, Seq::empty());
    let spaced = replaced(bare, "&nbsp;"@, " "@);
    let ampersands = replaced(spaced, "&amp;"@, "&"@);
    let less = replaced(ampersands, "&lt;"@, "<"@);
    let greater = replaced(less, "&gt;"@, ">"@);
    replaced(greater, "&quot;"@, "\""@)
}

/// `s` shortened for a column of `len` cells, where `kept` is what fits of
/// `s` in the column with one cell to spare: `s` unchanged while it takes
/// fewer than `len` bytes, else `kept` closed with an ellipsis.
pub open spec fn elided(s: Seq<char>, len: nat, kept: Seq<char>) -> Seq<char> {
    if encode_utf8(s).len() < len {
        s
    } else {
        kept + "…"@
    }
}

proof fn lemma_decimal_number_grows(digits: Seq<char>, n: int)
    requires
        0 <= n <= digits.len(),
    ensures
        decimal_number(digits.take(n)) <= decimal_number(digits),
    decreases digits.len() - n,
{
    if n < digits.len() {
        lemma_decimal_number_grows(digits, n + 1);
        assert(digits.take(n + 1).drop_last() =~= digits.take(n));
    } else {
        assert(digits.take(n) =~= digits);
    }
}

/// Reads a run of decimal digits as a number of 32 bits.
pub fn parse_decimal(digits: &str) -> (number: Option<u32>)
    ensures
        number == parsed_decimal(digits@),
{
    let chars = chars_of(digits);
    if chars.len() == 0 {
        return None;
    }
    let mut value: u32 = 0;
    let mut i: usize = 0;
    assert(chars@.take(0) =~= Seq::<char>::empty());
    while i < chars.len()
        invariant
            i <= chars.len(),
            chars@ == digits@,
            chars.len() > 0,
            forall|k: int| 0 <= k < i ==> is_digit(#[trigger] chars@[k]),
            value == decimal_number(chars@.take(i as int)),
        decreases chars.len() - i,
    {
        let c = chars[i];
        if c < '0' || c > '9' {
            return None;
        }
        let digit: u32 = c as u32 - '0' as u32;
        proof {
            assert(chars@.take(i + 1).drop_last() =~= chars@.take(i as int));
            assert(chars@.take(i + 1).last() == c);
            lemma_decimal_number_grows(chars@, i + 1);
        }
        if value > (u32::MAX - digit) / 10 {
            return None;
        }
        value = value * 10 + digit;
        i += 1;
    }
    assert(chars@.take(i as int) =~= chars@);
    Some(value)
}

/// `char::from_u32` of the standard library: the character with the code
/// `code`, where `code` is a Unicode scalar value.
pub assume_specification[ char::from_u32 ](code: u32) -> (c: Option<char>)
    ensures
        c is Some <==> is_scalar_value(code),
        c is Some ==> c.unwrap() == code as char,
;

fn decode_decimal(digits: &str) -> (c: char)
    ensures
        c == decimal_char(digits@),
{
    match parse_decimal(digits) {
        Some(code) => match char::from_u32(code) {
            Some(c) => c,
            None => '\u{FFFD}',
        },
        None => '\u{FFFD}',
    }
}

/// Elides `s` at `len` cells and closes it with an ellipsis where it was
/// cut. `kept` is what is left of `s` when it is cut: the beginning of `s`
/// that fits in `len - 1` cells of the display, which the caller measures.
/// Where `s` takes fewer than `len` bytes it is not cut, and `kept` is not
/// looked at.
pub fn elide_string_at(s: &str, len: usize, kept: &str) -> (out: String)
    ensures
        out@ == elided(s@, len as nat, kept@),
        kept@.is_prefix_of(s@) ==> out@ == s@ || (out@.len() > 0 && out@.last() == '…'
            && out@.drop_last().is_prefix_of(s@)),
{
    if s.as_bytes().len() < len {
        String::from_str(s)
    } else {
        let mut out = String::from_str(kept);
        out.append("…");
        proof {
            reveal_strlit("…");
            assert(out@.drop_last() =~= kept@);
        }
        out
    }
}

/// Replaces each run of repeated line breaks in `s` by `with`.
pub fn replace_multiple_newlines(s: &str, with: &str) -> (out: String)
    ensures
        out@ == regex_replaced(pattern_source(Pattern::RepeatedNewlines), s@, with@),
{
    regex_replace_all(Pattern::RepeatedNewlines.source(), s, with)
}

/// Strips the markup tags from `s` and resolves its character references.
pub fn strip_html(s: &str) -> (out: String)
    ensures
        out@ == html_stripped(s@),
{
    let bare = regex_replace_all(Pattern::HtmlTag.source(), s, "");
    proof {
        reveal_strlit("");
        assert(""@ =~= Seq::<char>::empty());
    }
    let matches = regex_captures(Pattern::HtmlEntity.source(), bare.as_str());
    let ghost references = references_of(matches.deep_view());
    let mut escaped = bare.clone();
    let mut i: usize = 0;
    assert(references.take(0) =~= Seq::<EntityReferenceView>::empty());
    while i < matches.len()
        invariant
            i <= matches.len(),
            references == references_of(matches.deep_view()),
            escaped@ == expanded(bare@, references.take(i as int)),
            ""@ == Seq::<char>::empty(),
        decreases matches.len() - i,
    {
        let groups = &matches[i];
        proof {
            let seen = references.take(i + 1);
            assert(seen.drop_last() =~= references.take(i as int));
            assert(seen.last() == reference_of(groups.deep_view()));
        }
        let whole = match group_at(groups, 0) {
            Some(whole) => whole.as_str(),
            None => "",
        };
        match group_at(groups, 2) {
            Some(digits) => {
                let mut with = String::new();
                with.push(decode_decimal(digits.as_str()));
                assert(with@ =~= seq![decimal_char(digits@)]);
                escaped = replace(escaped.as_str(), whole, with.as_str());
            },
            None => match group_at(groups, 3) {
                Some(name) => {
                    let with = match find_entity(name.as_str()) {
                        Some(text) => text,
                        None => "\u{FFFD}",
                    };
                    proof {
                        reveal_strlit("\u{FFFD}");
                        assert("\u{FFFD}"@ =~= seq![replacement_char()]);
                    }
                    escaped = replace(escaped.as_str(), whole, with);
                },
                None => {},
            },
        }
        i += 1;
    }
    assert(references.take(i as int) =~= references);
    escaped
}

/// The group at `index` of a match.
fn group_at(groups: &Vec<Option<String>>, index: usize) -> (found: Option<&String>)
    ensures
        found.deep_view() == group(groups.deep_view(), index as int),
{
    if index < groups.len() {
        groups[index].as_ref()
    } else {
        None
    }
}

/// Strips the markup tags from `s` and resolves the references `&nbsp;`,
/// `&amp;`, `&lt;`, `&gt;` and `&quot;`.
pub fn strip_html_tags(s: &str) -> (out: String)
    ensures
        out@ == html_tags_stripped(s@),
{
    let bare = regex_replace_all(Pattern::HtmlTag.source(), s, "");
    proof {
        reveal_strlit("");
        assert(""@ =~= Seq::<char>::empty());
    }
    let spaced = replace(bare.as_str(), "&nbsp;", " ");
    let ampersands = replace(spaced.as_str(), "&amp;", "&");
    let less = replace(ampersands.as_str(), "&lt;", "<");
    let greater = replace(less.as_str(), "&gt;", ">");
    replace(greater.as_str(), "&quot;", "\"")
}

} // verus!
