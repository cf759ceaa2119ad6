//! Playlist snapshots: the identifiers a playlist already contains.
//!
//! The snapshot policy is strictly fail-closed: if any fetched entry
//! cannot yield a track identifier (for example a removed or local
//! track), the whole snapshot is rejected, because an ambiguous
//! snapshot cannot support reliable duplicate detection.

use crate::model::SyncError;
use crate::model::SyncErrorKind;
use vstd::prelude::*;
use vstd::string::StringExecFns;

verus! {

/// Every fetched entry yielded a track identifier.
pub open spec fn all_entries_known(entries: Seq<Option<Seq<char>>>) -> bool {
    forall|i: int| 0 <= i < entries.len() ==> entries[i] is Some
}

/// The identifiers of a fully-known entry sequence, in playlist order.
pub open spec fn snapshot_ids(entries: Seq<Option<Seq<char>>>) -> Seq<Seq<char>> {
    entries.map_values(
        |e: Option<Seq<char>>|
            match e {
                Option::Some(id) => id,
                Option::None => seq![],
            },
    )
}

/// Extracts the track identifiers of all fetched entries, in order.
/// Fail-closed: returns a [`SyncErrorKind::SnapshotFailure`] as soon
/// as any entry has no identifier, and succeeds exactly when all
/// entries have one.
pub fn collect_track_ids(entries: &Vec<Option<String>>) -> (r: Result<Vec<String>, SyncError>)
    ensures
        r is Ok <==> all_entries_known(entries.deep_view()),
        r matches Ok(ids) ==> ids.deep_view() == snapshot_ids(entries.deep_view()),
        r matches Err(e) ==> e.kind == SyncErrorKind::SnapshotFailure && e.message@
            == "could not determine track ids"@,
{
    let ghost all = entries.deep_view();
    let mut ids: Vec<String> = Vec::new();
    let mut k: usize = 0;
    while k < entries.len()
        invariant
            0 <= k <= entries.len(),
            all == entries.deep_view(),
            forall|j: int| 0 <= j < k ==> all[j] is Some,
            ids.deep_view() =~= snapshot_ids(all.take(k as int)),
        decreases entries.len() - k,
    {
        match &entries[k] {
            Option::Some(id) => {
                let ghost pre = ids.deep_view();
                ids.push(id.clone());
                proof {
                    assert(all[k as int] matches Option::Some(s) && s == id@);
                    assert(ids.deep_view() =~= pre.push(id@));
                    assert(ids.deep_view() =~= snapshot_ids(all.take(k as int + 1)));
                }
            },
            Option::None => {
                proof {
                    assert(all[k as int] is None);
                    assert(!all_entries_known(all));
                }
                return Result::Err(
                    SyncError {
                        kind: SyncErrorKind::SnapshotFailure,
                        message: String::from_str("could not determine track ids"),
                    },
                );
            },
        }
        k = k + 1;
    }
    proof {
        assert(all.take(entries.len() as int) =~= all);
    }
    Result::Ok(ids)
}

} // verus!
