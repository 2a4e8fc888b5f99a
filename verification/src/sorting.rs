//! Sorting texts the way strings are ordered: character by character, a
//! text before every text that it is the start of.

use crate::text::chars_of;
use vstd::multiset::Multiset;
use vstd::prelude::*;

verus! {

/// `a` stands before `b` or is equal to it.
pub open spec fn lex_le(a: Seq<char>, b: Seq<char>) -> bool
    decreases a.len(),
{
    if a.len() == 0 {
        true
    } else if b.len() == 0 {
        false
    } else if a[0] != b[0] {
        a[0] < b[0]
    } else {
        lex_le(a.skip(1), b.skip(1))
    }
}

/// Every text stands before the texts that follow it, or is equal to them.
pub open spec fn ordered(list: Seq<String>) -> bool {
    forall|i: int, j: int|
        0 <= i < j < list.len() ==> lex_le((#[trigger] list[i])@, (#[trigger] list[j])@)
}

/// Of two texts, one stands before the other or they are equal.
pub proof fn lex_le_is_total(a: Seq<char>, b: Seq<char>)
    ensures
        lex_le(a, b) || lex_le(b, a),
    decreases a.len(),
{
    if a.len() > 0 && b.len() > 0 && a[0] == b[0] {
        lex_le_is_total(a.skip(1), b.skip(1));
    }
}

/// What stands before a text stands before all that the text stands before.
pub proof fn lex_le_is_transitive(a: Seq<char>, b: Seq<char>, c: Seq<char>)
    requires
        lex_le(a, b),
        lex_le(b, c),
    ensures
        lex_le(a, c),
    decreases a.len(),
{
    if a.len() > 0 && b.len() > 0 && c.len() > 0 {
        if a[0] == b[0] && b[0] == c[0] {
            lex_le_is_transitive(a.skip(1), b.skip(1), c.skip(1));
        }
    }
}

/// Two texts that stand before each other are equal.
pub proof fn lex_le_is_antisymmetric(a: Seq<char>, b: Seq<char>)
    requires
        lex_le(a, b),
        lex_le(b, a),
    ensures
        a == b,
    decreases a.len(),
{
    if a.len() > 0 && b.len() > 0 {
        lex_le_is_antisymmetric(a.skip(1), b.skip(1));
        assert(a =~= seq![a[0]] + a.skip(1));
        assert(b =~= seq![b[0]] + b.skip(1));
    } else {
        assert(a =~= b);
    }
}

/// Whether `a` stands before `b` or is equal to it.
pub fn stands_before(a: &Vec<char>, b: &Vec<char>) -> (before: bool)
    ensures
        before == lex_le(a@, b@),
{
    let mut i: usize = 0;
    proof {
        assert(a@.skip(0) =~= a@);
        assert(b@.skip(0) =~= b@);
    }
    loop
        invariant
            i <= a.len(),
            i <= b.len(),
            lex_le(a@, b@) == lex_le(a@.skip(i as int), b@.skip(i as int)),
        decreases a.len() - i,
    {
        if i == a.len() {
            return true;
        }
        if i == b.len() {
            return false;
        }
        proof {
            assert(a@.skip(i as int)[0] == a@[i as int]);
            assert(b@.skip(i as int)[0] == b@[i as int]);
            assert(a@.skip(i as int).skip(1) =~= a@.skip(i + 1));
            assert(b@.skip(i as int).skip(1) =~= b@.skip(i + 1));
        }
        if a[i] != b[i] {
            return a[i] < b[i];
        }
        i += 1;
    }
}

/// Sorts the texts. The result holds the same texts, each as often as
/// before, in order.
pub fn sort_strings(list: Vec<String>) -> (sorted: Vec<String>)
    ensures
        sorted@.to_multiset() == list@.to_multiset(),
        ordered(sorted@),
{
    let mut rest = list;
    let mut sorted: Vec<String> = Vec::new();
    proof {
        broadcast use vstd::multiset::group_multiset_axioms;

        sorted@.to_multiset_ensures();
        vstd::multiset::lemma_multiset_empty_len(sorted@.to_multiset());
        assert(sorted@.to_multiset() =~= Multiset::<String>::empty());
        assert(sorted@.to_multiset().add(rest@.to_multiset()) =~= list@.to_multiset());
    }
    while rest.len() > 0
        invariant
            sorted@.to_multiset().add(rest@.to_multiset()) == list@.to_multiset(),
            ordered(sorted@),
        decreases rest.len(),
    {
        let ghost held = rest@;
        let ghost placed = sorted@;
        let next = rest.pop().unwrap();
        proof {
            assert(held =~= rest@.push(next));
            vstd::seq_lib::to_multiset_build(rest@, next);
        }
        let next_chars = chars_of(next.as_str());
        let mut at: usize = 0;
        while at < sorted.len() && stands_before(&chars_of(sorted[at].as_str()), &next_chars)
            invariant
                at <= sorted.len(),
                sorted@ == placed,
                next_chars@ == next@,
                forall|k: int| 0 <= k < at ==> lex_le((#[trigger] sorted@[k])@, next@),
            decreases sorted.len() - at,
        {
            at += 1;
        }
        proof {
            assert forall|k: int| at <= k < placed.len() implies lex_le(
                next@,
                (#[trigger] placed[k])@,
            ) by {
                lex_le_is_total(placed[at as int]@, next@);
                if k > at {
                    lex_le_is_transitive(next@, placed[at as int]@, placed[k]@);
                }
            }
            vstd::seq_lib::to_multiset_insert(placed, at as int, next);
        }
        sorted.insert(at, next);
        proof {
            let grown = sorted@;
            assert forall|i: int, j: int| 0 <= i < j < grown.len() implies lex_le(
                (#[trigger] grown[i])@,
                (#[trigger] grown[j])@,
            ) by {
                if j < at {
                    assert(grown[i] == placed[i] && grown[j] == placed[j]);
                } else if j == at {
                    assert(grown[i] == placed[i]);
                } else if i < at {
                    assert(grown[i] == placed[i] && grown[j] == placed[j - 1]);
                } else if i == at {
                    assert(grown[j] == placed[j - 1]);
                } else {
                    assert(grown[i] == placed[i - 1] && grown[j] == placed[j - 1]);
                }
            }
            assert(sorted@.to_multiset().add(rest@.to_multiset()) =~= list@.to_multiset());
        }
    }
    proof {
        broadcast use vstd::multiset::group_multiset_axioms;

        rest@.to_multiset_ensures();
        vstd::multiset::lemma_multiset_empty_len(rest@.to_multiset());
        assert(rest@.to_multiset() =~= Multiset::<String>::empty());
        assert(sorted@.to_multiset() =~= list@.to_multiset());
    }
    sorted
}

} // verus!
