//! The batcher's sort: snapshots ordered by depth, then by texture handle.
//!
//! The order is a total lexicographic order on two integers, so every list,
//! whatever its depth values, sorts deterministically. The sort is an
//! insertion sort written to match its own specification-level model, which
//! makes the batcher a pure function of its input.

use vstd::prelude::*;
use crate::extract::ExtractedParticle;
use vstd::seq_lib::group_to_multiset_ensures;

verus! {

/// The depth key of a snapshot: the z translation of its world transform.
pub open spec fn depth_of(p: ExtractedParticle) -> int {
    p.transform.w_axis.z as int
}

/// The sort order: primary depth, secondary texture handle, ascending.
pub open spec fn key_le(a: ExtractedParticle, b: ExtractedParticle) -> bool {
    depth_of(a) < depth_of(b) || (depth_of(a) == depth_of(b) && a.handle <= b.handle)
}

/// A list sorted by [`key_le`].
pub open spec fn sorted_by_key(s: Seq<ExtractedParticle>) -> bool {
    forall|i: int, j: int| 0 <= i < j < s.len() ==> key_le(#[trigger] s[i], #[trigger] s[j])
}

/// `x` inserted behind every element of `s` that does not exceed it; on ties
/// the existing elements stay in front, which keeps the sort stable.
pub open spec fn insert_model(s: Seq<ExtractedParticle>, x: ExtractedParticle) -> Seq<
    ExtractedParticle,
>
    decreases s.len(),
{
    if s.len() == 0 {
        seq![x]
    } else if key_le(s.last(), x) {
        s.push(x)
    } else {
        insert_model(s.drop_last(), x).push(s.last())
    }
}

/// The insertion sort of `s` under [`key_le`].
pub open spec fn sort_model(s: Seq<ExtractedParticle>) -> Seq<ExtractedParticle>
    decreases s.len(),
{
    if s.len() == 0 {
        Seq::empty()
    } else {
        insert_model(sort_model(s.drop_last()), s.last())
    }
}

/// Inserting grows a list by exactly one element.
pub proof fn lemma_insert_model_len(s: Seq<ExtractedParticle>, x: ExtractedParticle)
    ensures
        insert_model(s, x).len() == s.len() + 1,
    decreases s.len(),
{
    if s.len() > 0 && !key_le(s.last(), x) {
        lemma_insert_model_len(s.drop_last(), x);
    }
}

/// Sorting keeps the length.
pub proof fn lemma_sort_model_len(s: Seq<ExtractedParticle>)
    ensures
        sort_model(s).len() == s.len(),
    decreases s.len(),
{
    if s.len() > 0 {
        lemma_sort_model_len(s.drop_last());
        lemma_insert_model_len(sort_model(s.drop_last()), s.last());
    }
}

/// Inserting adds exactly the inserted element to the list's multiset: no
/// snapshot is lost or duplicated.
pub proof fn lemma_insert_model_multiset(s: Seq<ExtractedParticle>, x: ExtractedParticle)
    ensures
        insert_model(s, x).to_multiset() == s.to_multiset().insert(x),
    decreases s.len(),
{
    broadcast use group_to_multiset_ensures;

    if s.len() == 0 {
        assert(seq![x] =~= Seq::<ExtractedParticle>::empty().push(x));
        assert(s =~= Seq::<ExtractedParticle>::empty());
    } else if key_le(s.last(), x) {
    } else {
        let dl = s.drop_last();
        lemma_insert_model_multiset(dl, x);
        assert(dl.push(s.last()) =~= s);
        assert(insert_model(s, x).to_multiset() =~= dl.to_multiset().insert(x).insert(s.last()));
        assert(dl.to_multiset().insert(x).insert(s.last()) =~= dl.to_multiset().insert(
            s.last(),
        ).insert(x));
    }
}

/// Sorting permutes the list: the multiset of snapshots is unchanged.
pub proof fn lemma_sort_model_multiset(s: Seq<ExtractedParticle>)
    ensures
        sort_model(s).to_multiset() == s.to_multiset(),
    decreases s.len(),
{
    broadcast use group_to_multiset_ensures;

    if s.len() > 0 {
        lemma_sort_model_multiset(s.drop_last());
        lemma_insert_model_multiset(sort_model(s.drop_last()), s.last());
        assert(s.drop_last().push(s.last()) =~= s);
    }
}

/// Every element of the sorted list occurs in the input list.
pub proof fn lemma_sort_model_elements(s: Seq<ExtractedParticle>)
    ensures
        forall|k: int|
            0 <= k < sort_model(s).len() ==> s.contains(#[trigger] sort_model(s)[k]),
{
    broadcast use group_to_multiset_ensures;

    lemma_sort_model_multiset(s);
    assert forall|k: int| 0 <= k < sort_model(s).len() implies s.contains(sort_model(s)[k]) by {
        assert(sort_model(s).contains(sort_model(s)[k]));
        assert(sort_model(s).to_multiset().count(sort_model(s)[k]) > 0);
    }
}

/// Inserting into a sorted list yields a sorted list.
pub proof fn lemma_insert_model_sorted(s: Seq<ExtractedParticle>, x: ExtractedParticle)
    requires
        sorted_by_key(s),
    ensures
        sorted_by_key(insert_model(s, x)),
    decreases s.len(),
{
    broadcast use group_to_multiset_ensures;

    if s.len() == 0 {
    } else if key_le(s.last(), x) {
        assert forall|i: int, j: int|
            0 <= i < j < s.push(x).len() implies key_le(s.push(x)[i], s.push(x)[j]) by {
            if j < s.len() {
            } else {
                if i < s.len() - 1 {
                    assert(key_le(s[i], s.last()));
                }
            }
        }
    } else {
        let dl = s.drop_last();
        let last = s.last();
        assert(forall|i: int| 0 <= i < dl.len() ==> #[trigger] dl[i] == s[i]);
        lemma_insert_model_sorted(dl, x);
        lemma_insert_model_multiset(dl, x);
        lemma_insert_model_len(dl, x);
        let t0 = insert_model(dl, x);
        // Every element of the inserted prefix is x itself or came from the
        // prefix, so it does not exceed the reattached last element.
        assert forall|k: int| 0 <= k < t0.len() implies key_le(t0[k], last) by {
            assert(t0.contains(t0[k]));
            assert(t0.to_multiset().count(t0[k]) > 0);
            if t0[k] == x {
            } else {
                assert(dl.to_multiset().count(t0[k]) > 0);
                assert(dl.contains(t0[k]));
                let m = choose|m: int| 0 <= m < dl.len() && dl[m] == t0[k];
                assert(key_le(s[m], last));
            }
        }
        assert forall|i: int, j: int|
            0 <= i < j < t0.push(last).len() implies key_le(t0.push(last)[i], t0.push(last)[j]) by {
            if j < t0.len() {
            } else {
                assert(key_le(t0[i], last));
            }
        }
    }
}

/// The sort model is sorted.
pub proof fn lemma_sort_model_sorted(s: Seq<ExtractedParticle>)
    ensures
        sorted_by_key(sort_model(s)),
    decreases s.len(),
{
    if s.len() > 0 {
        lemma_sort_model_sorted(s.drop_last());
        lemma_insert_model_sorted(sort_model(s.drop_last()), s.last());
    }
}

/// Compare two snapshots in the sort order.
fn key_le_exec(a: &ExtractedParticle, b: &ExtractedParticle) -> (r: bool)
    ensures
        r == key_le(*a, *b),
{
    let az = a.transform.w_axis.z;
    let bz = b.transform.w_axis.z;
    az < bz || (az == bz && a.handle <= b.handle)
}

fn insert_sorted(v: &mut Vec<ExtractedParticle>, x: ExtractedParticle)
    ensures
        final(v)@ == insert_model(old(v)@, x),
    decreases v@.len(),
{
    if v.len() == 0 {
        v.push(x);
        proof {
            assert(v@ =~= seq![x]);
        }
    } else {
        let last = v[v.len() - 1];
        proof {
            assert(last == old(v)@.last());
        }
        if key_le_exec(&last, &x) {
            v.push(x);
        } else {
            v.pop();
            proof {
                assert(v@ =~= old(v)@.drop_last());
            }
            insert_sorted(v, x);
            v.push(last);
        }
    }
}

/// Sort the snapshot list in place: primarily by depth, then by texture
/// handle, keeping the input order of fully tied snapshots.
pub fn sort_particles(v: &mut Vec<ExtractedParticle>)
    ensures
        final(v)@ == sort_model(old(v)@),
    decreases v@.len(),
{
    if v.len() > 0 {
        let x = v.pop().unwrap();
        proof {
            assert(x == old(v)@.last());
            assert(v@ =~= old(v)@.drop_last());
        }
        sort_particles(v);
        insert_sorted(v, x);
    }
}

} // verus!
