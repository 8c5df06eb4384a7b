//! The worst-case tier of a list of codes.
use vstd::prelude::*;

use crate::level::{label_of, level_of_rank, rank_of, HazardLevel};
use crate::table::{hazard_level, level_of};

verus! {

/// The ordinal of a code's tier.
pub open spec fn code_rank(c: Seq<char>) -> nat {
    rank_of(level_of(c))
}

/// The largest ordinal among the codes' tiers; 0 for no codes.
pub open spec fn max_rank(codes: Seq<Seq<char>>) -> nat
    decreases codes.len(),
{
    if codes.len() == 0 {
        0
    } else {
        let m = max_rank(codes.drop_last());
        let r = code_rank(codes.last());
        if r > m {
            r
        } else {
            m
        }
    }
}

/// The worst-case tier of a list of codes.
pub open spec fn assessment(codes: Seq<Seq<char>>) -> HazardLevel {
    level_of_rank(max_rank(codes))
}

/// The characters of each string.
pub open spec fn texts(codes: Seq<String>) -> Seq<Seq<char>> {
    codes.map_values(|s: String| s@)
}

/// The largest ordinal is at least each code's, and it is 0 or the ordinal
/// of some code.
pub proof fn lemma_max_rank_is_max(codes: Seq<Seq<char>>)
    ensures
        max_rank(codes) <= 3,
        forall|i: int| 0 <= i < codes.len() ==> code_rank(#[trigger] codes[i]) <= max_rank(codes),
        max_rank(codes) == 0 || exists|i: int|
            0 <= i < codes.len() && code_rank(#[trigger] codes[i]) == max_rank(codes),
    decreases codes.len(),
{
    if codes.len() > 0 {
        let init = codes.drop_last();
        lemma_max_rank_is_max(init);
        assert forall|i: int| 0 <= i < codes.len() implies code_rank(
            #[trigger] codes[i],
        ) <= max_rank(codes) by {
            if i < codes.len() - 1 {
                assert(codes[i] == init[i]);
            }
        }
        if max_rank(codes) != 0 {
            if max_rank(codes) == code_rank(codes.last()) {
                assert(code_rank(codes[codes.len() - 1]) == max_rank(codes));
            } else {
                let i = choose|i: int|
                    0 <= i < init.len() && code_rank(#[trigger] init[i]) == max_rank(init);
                assert(codes[i] == init[i]);
            }
        }
    }
}

/// Every code's tier is at most the assessment, and a non-empty list is
/// assessed at the tier of one of its codes or at Unknown.
pub proof fn lemma_assessment_is_worst(codes: Seq<Seq<char>>)
    ensures
        forall|i: int|
            0 <= i < codes.len() ==> rank_of(level_of(#[trigger] codes[i])) <= rank_of(
                assessment(codes),
            ),
        assessment(codes) == HazardLevel::Unknown || exists|i: int|
            0 <= i < codes.len() && level_of(#[trigger] codes[i]) == assessment(codes),
{
    lemma_max_rank_is_max(codes);
    if max_rank(codes) != 0 {
        let i = choose|i: int|
            0 <= i < codes.len() && code_rank(#[trigger] codes[i]) == max_rank(codes);
        crate::level::lemma_rank_round_trip(level_of(codes[i]));
    }
}

/// No codes are assessed as Unknown.
pub proof fn lemma_assess_empty()
    ensures
        assessment(Seq::<Seq<char>>::empty()) == HazardLevel::Unknown,
{
}

/// One code is assessed at its own tier.
pub proof fn lemma_assess_single(c: Seq<char>)
    ensures
        assessment(seq![c]) == level_of(c),
{
    assert(seq![c].drop_last() =~= Seq::<Seq<char>>::empty());
    assert(max_rank(seq![c].drop_last()) == 0);
    assert(seq![c].last() == c);
    crate::level::lemma_rank_round_trip(level_of(c));
}

/// Two lists that hold the same codes, each any number of times and in any
/// order, are assessed alike.
pub proof fn lemma_assess_same_codes(a: Seq<Seq<char>>, b: Seq<Seq<char>>)
    requires
        a.to_set() == b.to_set(),
    ensures
        assessment(a) == assessment(b),
{
    lemma_max_rank_bounded_by(a, b);
    lemma_max_rank_bounded_by(b, a);
}

proof fn lemma_max_rank_bounded_by(a: Seq<Seq<char>>, b: Seq<Seq<char>>)
    requires
        a.to_set() == b.to_set(),
    ensures
        max_rank(a) <= max_rank(b),
{
    lemma_max_rank_is_max(a);
    lemma_max_rank_is_max(b);
    if max_rank(a) != 0 {
        let i = choose|i: int| 0 <= i < a.len() && code_rank(#[trigger] a[i]) == max_rank(a);
        assert(a.to_set().contains(a[i]));
        assert(b.contains(a[i]));
        let j = choose|j: int| 0 <= j < b.len() && b[j] == a[i];
        assert(code_rank(b[j]) <= max_rank(b));
    }
}

/// The assessment does not depend on the order of the codes: a permutation
/// of a list is assessed as the list is.
pub proof fn lemma_assess_order_independent(a: Seq<Seq<char>>, b: Seq<Seq<char>>)
    requires
        a.to_multiset() == b.to_multiset(),
    ensures
        assessment(a) == assessment(b),
{
    broadcast use vstd::seq_lib::group_to_multiset_ensures;

    assert forall|x: Seq<char>| a.to_set().contains(x) <==> b.to_set().contains(x) by {
        assert(a.contains(x) <==> a.to_multiset().count(x) > 0);
        assert(b.contains(x) <==> b.to_multiset().count(x) > 0);
    }
    assert(a.to_set() =~= b.to_set());
    lemma_assess_same_codes(a, b);
}

/// Repeating a code that a list already holds leaves its assessment as it was.
pub proof fn lemma_assess_ignores_duplicates(codes: Seq<Seq<char>>, i: int)
    requires
        0 <= i < codes.len(),
    ensures
        assessment(codes.push(codes[i])) == assessment(codes),
{
    let longer = codes.push(codes[i]);
    assert forall|x: Seq<char>| longer.to_set().contains(x) <==> codes.to_set().contains(x) by {
        if longer.contains(x) {
            let j = choose|j: int| 0 <= j < longer.len() && longer[j] == x;
            if j == codes.len() {
                assert(codes[i] == x);
            } else {
                assert(codes[j] == x);
            }
        }
        if codes.contains(x) {
            let j = choose|j: int| 0 <= j < codes.len() && codes[j] == x;
            assert(longer[j] == x);
        }
    }
    assert(longer.to_set() =~= codes.to_set());
    lemma_assess_same_codes(longer, codes);
}

/// The worst-case tier of a list of codes, as an enumeration.
pub fn assess(codes: &[String]) -> (r: HazardLevel)
    ensures
        r == assessment(texts(codes@)),
{
    let ghost all = texts(codes@);
    let mut m: u8 = 0;
    let mut i: usize = 0;
    while i < codes.len()
        invariant
            all == texts(codes@),
            0 <= i <= codes@.len(),
            m as nat == max_rank(all.take(i as int)),
            m <= 3,
        decreases codes@.len() - i,
    {
        let r = hazard_level(codes[i].as_str()).rank();
        proof {
            assert(all.take(i + 1).drop_last() =~= all.take(i as int));
            assert(all.take(i + 1).last() == codes@[i as int]@);
        }
        if r > m {
            m = r;
        }
        i = i + 1;
    }
    assert(all.take(codes@.len() as int) =~= all);
    HazardLevel::from_rank(m)
}

/// The worst-case tier of a list of codes, as its label: the highest tier
/// among the codes, and "Unknown" for an empty list.
pub fn assess_hazards(h_codes: Vec<String>) -> (r: String)
    ensures
        r@ == label_of(assessment(texts(h_codes@))),
{
    assess(h_codes.as_slice()).label()
}

} // verus!
