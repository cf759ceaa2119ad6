//! Delta computation: which candidate identifiers are actually new.
//!
//! Given the candidates extracted from one message and a snapshot of
//! the identifiers already in the playlist, the delta keeps each
//! candidate that the snapshot does not contain, in the candidates'
//! relative order, and collapses duplicate candidates so every
//! identifier is added at most once per synchronization.

use vstd::prelude::*;

verus! {

/// The delta of `cands` against `snap`: the subsequence of `cands`
/// whose elements are neither in `snap` nor equal to an earlier
/// candidate.
pub open spec fn delta_spec(cands: Seq<Seq<char>>, snap: Seq<Seq<char>>) -> Seq<Seq<char>>
    decreases cands.len(),
{
    if cands.len() == 0 {
        seq![]
    } else {
        let front = delta_spec(cands.drop_last(), snap);
        let c = cands.last();
        if snap.contains(c) || cands.drop_last().contains(c) {
            front
        } else {
            front + seq![c]
        }
    }
}

/// An identifier is in the delta exactly when it is a candidate that
/// the snapshot does not contain.
pub proof fn lemma_delta_membership(cands: Seq<Seq<char>>, snap: Seq<Seq<char>>)
    ensures
        forall|x: Seq<char>|
            #[trigger] delta_spec(cands, snap).contains(x) <==> (cands.contains(x)
                && !snap.contains(x)),
    decreases cands.len(),
{
    if cands.len() == 0 {
    } else {
        let front = cands.drop_last();
        let c = cands.last();
        lemma_delta_membership(front, snap);
        assert forall|x: Seq<char>| #[trigger]
            delta_spec(cands, snap).contains(x) implies (cands.contains(x) && !snap.contains(
            x,
        )) by {
            if delta_spec(front, snap).contains(x) {
                let j = choose|j: int| 0 <= j < front.len() && front[j] == x;
                assert(cands[j] == x);
            } else {
                assert(x == c);
                assert(cands.last() == x);
            }
        }
        assert forall|x: Seq<char>| (cands.contains(x) && !snap.contains(
            x,
        )) implies #[trigger] delta_spec(cands, snap).contains(x) by {
            let d = delta_spec(cands, snap);
            if front.contains(x) {
                assert(delta_spec(front, snap).contains(x));
                let j = choose|j: int| 0 <= j < delta_spec(front, snap).len() && delta_spec(
                    front,
                    snap,
                )[j] == x;
                assert(d[j] == x);
            } else {
                let j = choose|j: int| 0 <= j < cands.len() && cands[j] == x;
                if j < cands.len() - 1 {
                    assert(front[j] == x);
                    assert(front.contains(x));
                    assert(false);
                }
                assert(x == c);
                assert(d.last() == x);
            }
        }
    }
}

/// The delta never repeats an identifier: each one is added at most
/// once per synchronization.
pub proof fn lemma_delta_no_duplicates(cands: Seq<Seq<char>>, snap: Seq<Seq<char>>)
    ensures
        forall|i: int, j: int|
            0 <= i < j < delta_spec(cands, snap).len() ==> delta_spec(cands, snap)[i]
                != delta_spec(cands, snap)[j],
    decreases cands.len(),
{
    if cands.len() == 0 {
    } else {
        let front = cands.drop_last();
        let c = cands.last();
        lemma_delta_no_duplicates(front, snap);
        lemma_delta_membership(front, snap);
        let d = delta_spec(cands, snap);
        let df = delta_spec(front, snap);
        if snap.contains(c) || front.contains(c) {
        } else {
            assert forall|i: int, j: int| 0 <= i < j < d.len() implies d[i] != d[j] by {
                if j < df.len() {
                    assert(d[i] == df[i] && d[j] == df[j]);
                } else {
                    assert(d[j] == c);
                    assert(d[i] == df[i]);
                    assert(df.contains(df[i]));
                }
            }
        }
    }
}

/// The law of idempotent synchronization, at the level of content
/// sets: after the delta is appended to the snapshot, a second run
/// with the same candidates finds nothing new, and the combined
/// contents are exactly the old contents plus the candidates.
pub proof fn lemma_sync_idempotent(cands: Seq<Seq<char>>, snap: Seq<Seq<char>>)
    ensures
        delta_spec(cands, snap + delta_spec(cands, snap)).len() == 0,
        forall|x: Seq<char>|
            #[trigger] (snap + delta_spec(cands, snap)).contains(x) <==> (snap.contains(x)
                || cands.contains(x)),
{
    let d = delta_spec(cands, snap);
    let combined = snap + d;
    lemma_delta_membership(cands, snap);
    assert forall|x: Seq<char>| #[trigger]
        combined.contains(x) <==> (snap.contains(x) || cands.contains(x)) by {
        if combined.contains(x) {
            let j = choose|j: int| 0 <= j < combined.len() && combined[j] == x;
            if j < snap.len() {
                assert(snap[j] == x);
            } else {
                assert(d[j - snap.len()] == x);
                assert(d.contains(x));
            }
        }
        if snap.contains(x) {
            let j = choose|j: int| 0 <= j < snap.len() && snap[j] == x;
            assert(combined[j] == x);
        }
        if cands.contains(x) && !snap.contains(x) {
            assert(d.contains(x));
            let j = choose|j: int| 0 <= j < d.len() && d[j] == x;
            assert(combined[snap.len() + j] == x);
        }
    }
    lemma_delta_membership(cands, combined);
    let d2 = delta_spec(cands, combined);
    if d2.len() > 0 {
        assert(d2.contains(d2[0]));
        assert(false);
    }
}

/// Decides whether `ids` contains the string `x`.
fn contains_id(ids: &Vec<String>, x: &String) -> (r: bool)
    ensures
        r == ids.deep_view().contains(x@),
{
    let mut k: usize = 0;
    while k < ids.len()
        invariant
            0 <= k <= ids.len(),
            forall|j: int| 0 <= j < k ==> ids.deep_view()[j] != x@,
        decreases ids.len() - k,
    {
        if ids[k].eq(x) {
            assert(ids.deep_view()[k as int] == x@);
            return true;
        }
        k = k + 1;
    }
    proof {
        if ids.deep_view().contains(x@) {
            let j = choose|j: int| 0 <= j < ids.deep_view().len() && ids.deep_view()[j] == x@;
            assert(false);
        }
    }
    false
}

/// Computes the delta of `candidates` against `snapshot`: the new
/// identifiers, in first-appearance order, each at most once.
pub fn compute_delta(candidates: &Vec<String>, snapshot: &Vec<String>) -> (delta: Vec<String>)
    ensures
        delta.deep_view() == delta_spec(candidates.deep_view(), snapshot.deep_view()),
{
    let mut delta: Vec<String> = Vec::new();
    let mut k: usize = 0;
    while k < candidates.len()
        invariant
            0 <= k <= candidates.len(),
            delta.deep_view() =~= delta_spec(
                candidates.deep_view().take(k as int),
                snapshot.deep_view(),
            ),
        decreases candidates.len() - k,
    {
        let ghost cands_k = candidates.deep_view().take(k as int);
        let ghost cands_k1 = candidates.deep_view().take(k as int + 1);
        let c = &candidates[k];
        let in_snapshot = contains_id(snapshot, c);
        let in_earlier = contains_id_prefix(candidates, k, c);
        if !in_snapshot && !in_earlier {
            let ghost pre = delta.deep_view();
            delta.push(c.clone());
            proof {
                assert(delta.deep_view() =~= pre.push(c@));
            }
        }
        proof {
            assert(cands_k1.drop_last() =~= cands_k);
            assert(cands_k1.last() == c@);
            assert(in_earlier == cands_k.contains(c@));
            assert(delta.deep_view() =~= delta_spec(cands_k1, snapshot.deep_view()));
        }
        k = k + 1;
    }
    proof {
        assert(candidates.deep_view().take(candidates.len() as int) =~= candidates.deep_view());
    }
    delta
}

/// Decides whether one of the first `k` elements of `ids` equals `x`.
fn contains_id_prefix(ids: &Vec<String>, k: usize, x: &String) -> (r: bool)
    requires
        k <= ids.len(),
    ensures
        r == ids.deep_view().take(k as int).contains(x@),
{
    let mut j: usize = 0;
    while j < k
        invariant
            0 <= j <= k <= ids.len(),
            forall|m: int| 0 <= m < j ==> ids.deep_view()[m] != x@,
        decreases k - j,
    {
        if ids[j].eq(x) {
            assert(ids.deep_view().take(k as int)[j as int] == x@);
            return true;
        }
        j = j + 1;
    }
    proof {
        let pre = ids.deep_view().take(k as int);
        if pre.contains(x@) {
            let m = choose|m: int| 0 <= m < pre.len() && pre[m] == x@;
            assert(ids.deep_view()[m] == x@);
            assert(false);
        }
    }
    false
}

} // verus!
