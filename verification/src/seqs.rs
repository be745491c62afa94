//! Facts about filtering a sequence, in the shape loops need them, and
//! about sequences whose elements carry unique keys.

use vstd::prelude::*;

verus! {

/// Filtering one element further: the element joins the result exactly
/// when it passes.
pub proof fn lemma_filter_step<A>(s: Seq<A>, pred: spec_fn(A) -> bool, i: int)
    requires
        0 <= i < s.len(),
    ensures
        s.take(i + 1).filter(pred) == if pred(s[i]) {
            s.take(i).filter(pred).push(s[i])
        } else {
            s.take(i).filter(pred)
        },
{
    reveal(Seq::filter);
    assert(s.take(i + 1).drop_last() =~= s.take(i));
}

/// Filtering a sequence with one element appended.
pub proof fn lemma_filter_push<A>(s: Seq<A>, x: A, pred: spec_fn(A) -> bool)
    ensures
        s.push(x).filter(pred) == if pred(x) {
            s.filter(pred).push(x)
        } else {
            s.filter(pred)
        },
{
    reveal(Seq::filter);
    assert(s.push(x).drop_last() =~= s);
}

/// Nothing passes the filter of an empty sequence.
pub proof fn lemma_filter_empty<A>(pred: spec_fn(A) -> bool)
    ensures
        Seq::<A>::empty().filter(pred) == Seq::<A>::empty(),
{
    reveal(Seq::filter);
}

/// A filter that nothing passes leaves nothing.
pub proof fn lemma_filter_none<A>(s: Seq<A>, pred: spec_fn(A) -> bool)
    requires
        forall|k: int| 0 <= k < s.len() ==> !pred(#[trigger] s[k]),
    ensures
        s.filter(pred).len() == 0,
    decreases s.len(),
{
    reveal(Seq::filter);
    if s.len() > 0 {
        lemma_filter_none(s.drop_last(), pred);
    }
}

/// Every element of a filtered sequence is an element of the sequence.
pub proof fn lemma_filter_members<A>(s: Seq<A>, pred: spec_fn(A) -> bool)
    ensures
        forall|k: int|
            0 <= k < s.filter(pred).len() ==> exists|i: int|
                0 <= i < s.len() && s[i] == #[trigger] s.filter(pred)[k],
    decreases s.len(),
{
    reveal(Seq::filter);
    if s.len() > 0 {
        let rest = s.drop_last();
        lemma_filter_members(rest, pred);
        assert forall|k: int| 0 <= k < s.filter(pred).len() implies exists|i: int|
            0 <= i < s.len() && s[i] == #[trigger] s.filter(pred)[k] by {
            if k < rest.filter(pred).len() {
                let i = choose|i: int| 0 <= i < rest.len() && rest[i] == rest.filter(pred)[k];
                assert(s[i] == s.filter(pred)[k]);
            } else {
                assert(s[s.len() - 1] == s.filter(pred)[k]);
            }
        }
    }
}

/// When at most one element passes, at most one is left.
pub proof fn lemma_filter_at_most_one<A>(s: Seq<A>, pred: spec_fn(A) -> bool)
    requires
        forall|i: int, j: int| 0 <= i < j < s.len() ==> !(pred(s[i]) && pred(s[j])),
    ensures
        s.filter(pred).len() <= 1,
    decreases s.len(),
{
    reveal(Seq::filter);
    if s.len() > 0 {
        let rest = s.drop_last();
        assert forall|i: int, j: int| 0 <= i < j < rest.len() implies !(pred(rest[i]) && pred(
            rest[j],
        )) by {
            assert(rest[i] == s[i] && rest[j] == s[j]);
        }
        if pred(s.last()) {
            assert forall|k: int| 0 <= k < rest.len() implies !pred(#[trigger] rest[k]) by {
                assert(rest[k] == s[k]);
                assert(!(pred(s[k]) && pred(s[s.len() - 1])));
            }
            lemma_filter_none(rest, pred);
        } else {
            lemma_filter_at_most_one(rest, pred);
        }
    }
}

/// Whether the keys of the elements are all different and all below
/// `bound`.
pub open spec fn keys_unique<A>(s: Seq<A>, key: spec_fn(A) -> u128, bound: nat) -> bool {
    &&& forall|i: int| 0 <= i < s.len() ==> key(#[trigger] s[i]) < bound
    &&& forall|i: int, j: int|
        0 <= i < j < s.len() ==> key(#[trigger] s[i]) != key(#[trigger] s[j])
}

/// Filtering keeps keys unique.
pub proof fn lemma_filter_keeps_unique<A>(
    s: Seq<A>,
    pred: spec_fn(A) -> bool,
    key: spec_fn(A) -> u128,
    bound: nat,
)
    requires
        keys_unique(s, key, bound),
    ensures
        keys_unique(s.filter(pred), key, bound),
    decreases s.len(),
{
    reveal(Seq::filter);
    if s.len() > 0 {
        let rest = s.drop_last();
        assert(keys_unique(rest, key, bound)) by {
            assert forall|i: int| 0 <= i < rest.len() implies key(#[trigger] rest[i]) < bound by {
                assert(rest[i] == s[i]);
            }
            assert forall|i: int, j: int| 0 <= i < j < rest.len() implies key(
                #[trigger] rest[i],
            ) != key(#[trigger] rest[j]) by {
                assert(rest[i] == s[i] && rest[j] == s[j]);
            }
        }
        lemma_filter_keeps_unique(rest, pred, key, bound);
        lemma_filter_members(rest, pred);
        let kept = rest.filter(pred);
        if pred(s.last()) {
            let all = s.filter(pred);
            assert(all == kept.push(s.last()));
            assert forall|i: int, j: int| 0 <= i < j < all.len() implies key(#[trigger] all[i])
                != key(#[trigger] all[j]) by {
                if j < kept.len() {
                    assert(all[i] == kept[i] && all[j] == kept[j]);
                } else {
                    let at = choose|at: int| 0 <= at < rest.len() && rest[at] == kept[i];
                    assert(s[at] == all[i]);
                    assert(s[s.len() - 1] == all[j]);
                }
            }
            assert forall|i: int| 0 <= i < all.len() implies key(#[trigger] all[i]) < bound by {
                if i < kept.len() {
                    assert(all[i] == kept[i]);
                } else {
                    assert(all[i] == s[s.len() - 1]);
                }
            }
        }
    }
}

/// Appending an element whose key is the bound keeps keys unique below the
/// next bound.
pub proof fn lemma_push_keeps_unique<A>(s: Seq<A>, x: A, key: spec_fn(A) -> u128, bound: nat)
    requires
        keys_unique(s, key, bound),
        key(x) == bound,
    ensures
        keys_unique(s.push(x), key, bound + 1),
{
    let all = s.push(x);
    assert forall|i: int| 0 <= i < all.len() implies key(#[trigger] all[i]) < bound + 1 by {
        if i < s.len() {
            assert(all[i] == s[i]);
        }
    }
    assert forall|i: int, j: int| 0 <= i < j < all.len() implies key(#[trigger] all[i]) != key(
        #[trigger] all[j],
    ) by {
        assert(all[i] == s[i]);
        if j < s.len() {
            assert(all[j] == s[j]);
        }
    }
}

/// A larger bound keeps keys unique.
pub proof fn lemma_bound_keeps_unique<A>(s: Seq<A>, key: spec_fn(A) -> u128, bound: nat)
    requires
        keys_unique(s, key, bound),
    ensures
        keys_unique(s, key, bound + 1),
{
}

/// Changing elements without changing their keys keeps keys unique.
pub proof fn lemma_map_keeps_unique<A>(
    s: Seq<A>,
    change: spec_fn(A) -> A,
    key: spec_fn(A) -> u128,
    bound: nat,
)
    requires
        keys_unique(s, key, bound),
        forall|a: A| key(#[trigger] change(a)) == key(a),
    ensures
        keys_unique(s.map_values(change), key, bound),
{
    let all = s.map_values(change);
    assert forall|i: int| 0 <= i < all.len() implies key(#[trigger] all[i]) < bound by {
        assert(all[i] == change(s[i]));
    }
    assert forall|i: int, j: int| 0 <= i < j < all.len() implies key(#[trigger] all[i]) != key(
        #[trigger] all[j],
    ) by {
        assert(all[i] == change(s[i]) && all[j] == change(s[j]));
        assert(key(s[i]) != key(s[j]));
    }
}

} // verus!
