//! The order of dictionaries on strings, and sorting by it.

use vstd::prelude::*;

use crate::helpers::text::chars_of;

verus! {

/// Whether `a` comes before `b` in the order of dictionaries: at the first
/// place where they differ `a` has the character with the smaller code, or
/// `a` ends there and `b` does not.
pub open spec fn text_before(a: Seq<char>, b: Seq<char>) -> bool
    decreases a.len(),
{
    if b.len() == 0 {
        false
    } else if a.len() == 0 {
        true
    } else if a[0] != b[0] {
        a[0] < b[0]
    } else {
        text_before(a.skip(1), b.skip(1))
    }
}

/// Whether no text of `names` stands before one that comes before it.
pub open spec fn texts_ascending(names: Seq<Seq<char>>) -> bool {
    forall|i: int, j: int|
        0 <= i < j < names.len() ==> !text_before(#[trigger] names[j], #[trigger] names[i])
}

/// No text comes before itself.
pub proof fn lemma_text_order_irreflexive(a: Seq<char>)
    ensures
        !text_before(a, a),
    decreases a.len(),
{
    if a.len() > 0 {
        lemma_text_order_irreflexive(a.skip(1));
    }
}

/// Of two different texts exactly one comes before the other.
pub proof fn lemma_text_order_total(a: Seq<char>, b: Seq<char>)
    ensures
        a != b ==> text_before(a, b) || text_before(b, a),
        !(text_before(a, b) && text_before(b, a)),
    decreases a.len(),
{
    if a.len() > 0 && b.len() > 0 {
        if a[0] == b[0] {
            lemma_text_order_total(a.skip(1), b.skip(1));
            if a.skip(1) == b.skip(1) {
                assert(a =~= seq![a[0]] + a.skip(1));
                assert(b =~= seq![b[0]] + b.skip(1));
            }
        }
    } else if a.len() == 0 && b.len() == 0 {
        assert(a =~= b);
    }
}

/// The order of texts is transitive.
pub proof fn lemma_text_order_transitive(a: Seq<char>, b: Seq<char>, c: Seq<char>)
    requires
        text_before(a, b),
        text_before(b, c),
    ensures
        text_before(a, c),
    decreases a.len(),
{
    if a.len() > 0 && b.len() > 0 && c.len() > 0 {
        if a[0] == b[0] && b[0] == c[0] {
            lemma_text_order_transitive(a.skip(1), b.skip(1), c.skip(1));
        }
    }
}

/// Whether `a` comes before `b` in the order of dictionaries.
pub fn is_text_before(a: &str, b: &str) -> (r: bool)
    ensures
        r == text_before(a@, b@),
{
    let left = chars_of(a);
    let right = chars_of(b);
    let mut i: usize = 0;
    assert(left@.skip(0) =~= left@ && right@.skip(0) =~= right@);
    while i < left.len() && i < right.len()
        invariant
            i <= left.len(),
            i <= right.len(),
            left@ == a@,
            right@ == b@,
            text_before(left@.skip(i as int), right@.skip(i as int)) == text_before(a@, b@),
        decreases left.len() - i,
    {
        if left[i] != right[i] {
            return left[i] < right[i];
        }
        assert(left@.skip(i as int).skip(1) =~= left@.skip(i + 1));
        assert(right@.skip(i as int).skip(1) =~= right@.skip(i + 1));
        i += 1;
    }
    i < right.len()
}

/// Sorts names in the order of dictionaries.
pub fn sort_names<'a>(names: Vec<&'a String>) -> (sorted: Vec<&'a String>)
    ensures
        texts_ascending(sorted.deep_view()),
        sorted.deep_view().to_multiset() == names.deep_view().to_multiset(),
        sorted.len() == names.len(),
{
    let ghost given = names.deep_view();
    let mut sorted: Vec<&'a String> = Vec::new();
    assert(sorted.deep_view() =~= given.take(0));
    for name in it: names
        invariant
            given == names.deep_view(),
            it.seq() == names@,
            texts_ascending(sorted.deep_view()),
            sorted.deep_view().to_multiset() == given.take(it.index() as int).to_multiset(),
            sorted.len() == it.index(),
    {
        let ghost before = sorted.deep_view();
        let mut pos: usize = 0;
        while pos < sorted.len() && !is_text_before(name.as_str(), sorted[pos].as_str())
            invariant
                pos <= sorted.len(),
                before == sorted.deep_view(),
                forall|k: int| 0 <= k < pos ==> !text_before(name@, #[trigger] before[k]),
            decreases sorted.len() - pos,
        {
            pos += 1;
        }
        sorted.insert(pos, name);
        proof {
            let after = sorted.deep_view();
            assert(after =~= before.insert(pos as int, name@));
            assert forall|i: int, j: int| 0 <= i < j < after.len() implies !text_before(
                #[trigger] after[j],
                #[trigger] after[i],
            ) by {
                if j == pos {
                    assert(after[i] == before[i]);
                    lemma_text_order_total(name@, before[i]);
                } else if i == pos {
                    assert(after[j] == before[j - 1]);
                    assert(text_before(name@, before[pos as int]));
                    lemma_text_order_total(name@, before[pos as int]);
                    if j - 1 > pos {
                        assert(!text_before(before[j - 1], before[pos as int]));
                    }
                    if text_before(before[j - 1], name@) {
                        lemma_text_order_transitive(before[j - 1], name@, before[pos as int]);
                    }
                } else {
                    let a = if i < pos {
                        i
                    } else {
                        i - 1
                    };
                    let b = if j < pos {
                        j
                    } else {
                        j - 1
                    };
                    assert(after[i] == before[a] && after[j] == before[b]);
                }
            }
            let seen = given.take(it.index() as int);
            assert(given.take(it.index() + 1) =~= seen.push(name@));
            vstd::seq_lib::to_multiset_insert(before, pos as int, name@);
            vstd::seq_lib::to_multiset_build(seen, name@);
        }
    }
    assert(given.take(names.len() as int) =~= given);
    sorted
}

} // verus!
