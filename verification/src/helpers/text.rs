//! Character-level operations on strings.
//!
//! Every string is read through its view, the sequence of its characters.

use vstd::prelude::*;

verus! {

/// `str::eq` of the standard library: two string slices are equal exactly when
/// they hold the same characters in the same order.
pub assume_specification[ <str as PartialEq>::eq ](a: &str, b: &str) -> (r: bool)
    ensures
        r == (a@ == b@),
;

/// `String::push` of the standard library: appends one character at the end.
pub assume_specification[ String::push ](s: &mut String, c: char)
    ensures
        final(s)@ == old(s)@.push(c),
;

/// `text` with every occurrence of `from` replaced by `to`, found from left
/// to right without overlap. An empty `from` occurs before every character
/// and at the end.
pub open spec fn replaced(text: Seq<char>, from: Seq<char>, to: Seq<char>) -> Seq<char>
    decreases text.len(),
{
    if text.len() == 0 {
        if from.len() == 0 {
            to
        } else {
            text
        }
    } else if from.len() == 0 {
        to + seq![text[0]] + replaced(text.skip(1), from, to)
    } else if from.is_prefix_of(text) {
        to + replaced(text.skip(from.len() as int), from, to)
    } else {
        seq![text[0]] + replaced(text.skip(1), from, to)
    }
}

/// Whether `c` is white space, as Unicode defines it.
pub open spec fn is_white_space(c: char) -> bool {
    ||| '\u{9}' <= c <= '\u{D}'
    ||| c == ' '
    ||| c == '\u{85}'
    ||| c == '\u{A0}'
    ||| c == '\u{1680}'
    ||| '\u{2000}' <= c <= '\u{200A}'
    ||| c == '\u{2028}'
    ||| c == '\u{2029}'
    ||| c == '\u{202F}'
    ||| c == '\u{205F}'
    ||| c == '\u{3000}'
}

/// Whether `s` holds nothing but white space.
pub open spec fn is_blank(s: Seq<char>) -> bool {
    forall|i: int| 0 <= i < s.len() ==> is_white_space(#[trigger] s[i])
}

/// `s` without the white space at its start.
pub open spec fn trimmed_start(s: Seq<char>) -> Seq<char>
    decreases s.len(),
{
    if s.len() > 0 && is_white_space(s[0]) {
        trimmed_start(s.skip(1))
    } else {
        s
    }
}

/// `s` without the white space at its end.
pub open spec fn trimmed_end(s: Seq<char>) -> Seq<char>
    decreases s.len(),
{
    if s.len() > 0 && is_white_space(s.last()) {
        trimmed_end(s.drop_last())
    } else {
        s
    }
}

/// `s` without the white space at its start and at its end.
pub open spec fn trimmed(s: Seq<char>) -> Seq<char> {
    trimmed_end(trimmed_start(s))
}

/// The characters of `s`, in order.
pub fn chars_of(s: &str) -> (chars: Vec<char>)
    ensures
        chars@ == s@,
{
    let mut chars: Vec<char> = Vec::new();
    for c in it: s.chars()
        invariant
            chars@ == it.seq().take(it.index()),
    {
        chars.push(c);
    }
    chars
}

/// Whether `prefix` stands in `text` at index `at`.
pub fn is_prefix_at(text: &Vec<char>, at: usize, prefix: &Vec<char>) -> (r: bool)
    requires
        at <= text.len(),
    ensures
        r == prefix@.is_prefix_of(text@.skip(at as int)),
{
    let rest = text.len() - at;
    if prefix.len() > rest {
        return false;
    }
    let ghost tail = text@.skip(at as int);
    let mut i: usize = 0;
    while i < prefix.len()
        invariant
            at <= text.len(),
            rest == text.len() - at,
            i <= prefix.len() <= rest,
            tail == text@.skip(at as int),
            forall|k: int| 0 <= k < i ==> prefix@[k] == tail[k],
        decreases prefix.len() - i,
    {
        if prefix[i] != text[at + i] {
            assert(!prefix@.is_prefix_of(tail)) by {
                if prefix@.is_prefix_of(tail) {
                    assert(tail.subrange(0, prefix@.len() as int)[i as int] == prefix@[i as int]);
                }
            }
            return false;
        }
        i += 1;
    }
    assert(prefix@ =~= tail.subrange(0, prefix@.len() as int));
    true
}

/// Whether `s` begins with `prefix`.
pub fn starts_with(s: &str, prefix: &str) -> (r: bool)
    ensures
        r == prefix@.is_prefix_of(s@),
{
    let text = chars_of(s);
    let head = chars_of(prefix);
    assert(text@.skip(0) =~= text@);
    is_prefix_at(&text, 0, &head)
}

/// Replaces every occurrence of `from` in `text` by `to`.
pub fn replace(text: &str, from: &str, to: &str) -> (out: String)
    ensures
        out@ == replaced(text@, from@, to@),
{
    let chars = chars_of(text);
    let pattern = chars_of(from);
    let mut out = String::new();
    let mut i: usize = 0;
    assert(chars@.skip(0) =~= text@);
    assert(out@ + replaced(text@, from@, to@) =~= replaced(text@, from@, to@));
    while i < chars.len()
        invariant
            i <= chars.len(),
            chars@ == text@,
            pattern@ == from@,
            out@ + replaced(chars@.skip(i as int), from@, to@) == replaced(text@, from@, to@),
        decreases chars.len() - i,
    {
        let ghost rest = chars@.skip(i as int);
        let ghost before = out@;
        if pattern.len() == 0 {
            out.append(to);
            out.push(chars[i]);
            assert(rest.skip(1) =~= chars@.skip(i + 1));
            assert(out@ =~= before + (to@ + seq![rest[0]]));
            assert(out@ + replaced(rest.skip(1), from@, to@) =~= before + replaced(
                rest,
                from@,
                to@,
            ));
            i += 1;
        } else if is_prefix_at(&chars, i, &pattern) {
            out.append(to);
            assert(rest.skip(pattern@.len() as int) =~= chars@.skip(i + pattern@.len()));
            assert(out@ + replaced(rest.skip(pattern@.len() as int), from@, to@) =~= before
                + replaced(rest, from@, to@));
            i += pattern.len();
        } else {
            out.push(chars[i]);
            assert(rest.skip(1) =~= chars@.skip(i + 1));
            assert(out@ =~= before + seq![rest[0]]);
            assert(out@ + replaced(rest.skip(1), from@, to@) =~= before + replaced(
                rest,
                from@,
                to@,
            ));
            i += 1;
        }
    }
    assert(chars@.skip(i as int).len() == 0);
    if pattern.len() == 0 {
        let ghost before = out@;
        out.append(to);
        assert(out@ =~= before + replaced(chars@.skip(i as int), from@, to@));
    } else {
        assert(out@ =~= out@ + replaced(chars@.skip(i as int), from@, to@));
    }
    out
}

/// Whether `c` is white space.
pub fn is_whitespace(c: char) -> (r: bool)
    ensures
        r == is_white_space(c),
{
    ('\u{9}' <= c && c <= '\u{D}') || c == ' ' || c == '\u{85}' || c == '\u{A0}' || c == '\u{1680}'
        || ('\u{2000}' <= c && c <= '\u{200A}') || c == '\u{2028}' || c == '\u{2029}' || c
        == '\u{202F}' || c == '\u{205F}' || c == '\u{3000}'
}

/// Whether `s` holds nothing but white space.
pub fn is_blank_text(s: &str) -> (r: bool)
    ensures
        r == is_blank(s@),
{
    let chars = chars_of(s);
    let mut i: usize = 0;
    while i < chars.len()
        invariant
            i <= chars.len(),
            chars@ == s@,
            forall|k: int| 0 <= k < i ==> is_white_space(#[trigger] chars@[k]),
        decreases chars.len() - i,
    {
        if !is_whitespace(chars[i]) {
            return false;
        }
        i += 1;
    }
    true
}

proof fn lemma_trimmed_start(s: Seq<char>, i: int)
    requires
        0 <= i <= s.len(),
        forall|k: int| 0 <= k < i ==> is_white_space(#[trigger] s[k]),
        i < s.len() ==> !is_white_space(s[i]),
    ensures
        trimmed_start(s) == s.skip(i),
    decreases s.len(),
{
    if i > 0 {
        let rest = s.skip(1);
        assert forall|k: int| 0 <= k < i - 1 implies is_white_space(#[trigger] rest[k]) by {
            assert(rest[k] == s[k + 1]);
        }
        lemma_trimmed_start(rest, i - 1);
        assert(rest.skip(i - 1) =~= s.skip(i));
    } else {
        assert(s.skip(0) =~= s);
    }
}

proof fn lemma_trimmed_end(s: Seq<char>, j: int)
    requires
        0 <= j <= s.len(),
        forall|k: int| j <= k < s.len() ==> is_white_space(#[trigger] s[k]),
        j > 0 ==> !is_white_space(s[j - 1]),
    ensures
        trimmed_end(s) == s.take(j),
    decreases s.len(),
{
    if j < s.len() {
        let rest = s.drop_last();
        lemma_trimmed_end(rest, j);
        assert(rest.take(j) =~= s.take(j));
    } else {
        assert(s.take(j) =~= s);
    }
}

/// Removes the white space at the start and at the end of `s`.
pub fn trim<'a>(s: &'a str) -> (kept: &'a str)
    ensures
        kept@ == trimmed(s@),
{
    let chars = chars_of(s);
    let mut i: usize = 0;
    while i < chars.len() && is_whitespace(chars[i])
        invariant
            i <= chars.len(),
            forall|k: int| 0 <= k < i ==> is_white_space(#[trigger] chars@[k]),
        decreases chars.len() - i,
    {
        i += 1;
    }
    let mut j: usize = chars.len();
    while j > i && is_whitespace(chars[j - 1])
        invariant
            i <= j <= chars.len(),
            forall|k: int| j <= k < chars.len() ==> is_white_space(#[trigger] chars@[k]),
        decreases j,
    {
        j -= 1;
    }
    proof {
        lemma_trimmed_start(chars@, i as int);
        let rest = chars@.skip(i as int);
        assert forall|k: int| j - i <= k < rest.len() implies is_white_space(#[trigger] rest[k]) by {
            assert(rest[k] == chars@[k + i]);
        }
        if j > i {
            assert(rest[j - i - 1] == chars@[j - 1]);
        }
        lemma_trimmed_end(rest, j - i);
        assert(rest.take(j - i) =~= chars@.subrange(i as int, j as int));
    }
    s.substring_char(i, j)
}

} // verus!
