//! Argument lists as sequences of character sequences.

use vstd::prelude::*;

verus! {

/// The texts held by a list of strings, in order.
pub open spec fn texts(v: Seq<String>) -> Seq<Seq<char>> {
    Seq::new(v.len(), |i: int| v[i]@)
}

/// The text of an optional string.
pub open spec fn opt_text(s: Option<String>) -> Option<Seq<char>> {
    match s {
        Some(s) => Some(s@),
        None => None,
    }
}

/// How many entries of `s` equal `t`.
pub open spec fn occurrences(s: Seq<Seq<char>>, t: Seq<char>) -> nat
    decreases s.len(),
{
    if s.len() == 0 {
        0
    } else {
        occurrences(s.drop_last(), t) + if s.last() == t {
            1nat
        } else {
            0nat
        }
    }
}

/// Appending one entry appends its text.
pub proof fn lemma_texts_push(v: Seq<String>, s: String)
    ensures
        texts(v.push(s)) == texts(v).push(s@),
{
    assert(texts(v.push(s)) =~= texts(v).push(s@));
}

/// Counting distributes over concatenation.
pub proof fn lemma_occurrences_concat(a: Seq<Seq<char>>, b: Seq<Seq<char>>, t: Seq<char>)
    ensures
        occurrences(a + b, t) == occurrences(a, t) + occurrences(b, t),
    decreases b.len(),
{
    if b.len() == 0 {
        assert(a + b =~= a);
    } else {
        lemma_occurrences_concat(a, b.drop_last(), t);
        assert((a + b).drop_last() =~= a + b.drop_last());
        assert((a + b).last() == b.last());
    }
}

/// Counts in lists of at most two entries.
pub proof fn lemma_occurrences_small(a: Seq<char>, b: Seq<char>, t: Seq<char>)
    ensures
        occurrences(Seq::empty(), t) == 0,
        occurrences(seq![a], t) == if a == t {
            1nat
        } else {
            0nat
        },
        occurrences(seq![a, b], t) == (if a == t {
            1nat
        } else {
            0nat
        }) + (if b == t {
            1nat
        } else {
            0nat
        }),
{
    let one = seq![a];
    let two = seq![a, b];
    assert(one.drop_last() =~= Seq::<Seq<char>>::empty());
    assert(two.drop_last() =~= one);
    assert(one.last() == a);
    assert(two.last() == b);
    assert(occurrences(one.drop_last(), t) == 0);
    assert(occurrences(one, t) == if a == t {
        1nat
    } else {
        0nat
    });
}

/// Appends an owned copy of `s` to `v`.
pub fn push_text(v: &mut Vec<String>, s: &str)
    ensures
        texts(final(v)@) == texts(old(v)@).push(s@),
{
    let owned = String::from_str(s);
    proof {
        lemma_texts_push(v@, owned);
    }
    v.push(owned);
}

/// Appends owned copies of all of `more` to `v`, in order.
pub fn extend_texts(v: &mut Vec<String>, more: &Vec<String>)
    ensures
        texts(final(v)@) == texts(old(v)@) + texts(more@),
{
    let mut i: usize = 0;
    while i < more.len()
        invariant
            i <= more.len(),
            texts(v@) == texts(old(v)@) + texts(more@).subrange(0, i as int),
        decreases more.len() - i,
    {
        let ghost before = texts(v@);
        push_text(v, more[i].as_str());
        assert(texts(v@) =~= texts(old(v)@) + texts(more@).subrange(0, i + 1)) by {
            assert(texts(more@).subrange(0, i + 1) =~= texts(more@).subrange(0, i as int).push(
                more@[i as int]@,
            ));
        }
        i += 1;
    }
    assert(texts(more@).subrange(0, i as int) =~= texts(more@));
}

} // verus!
