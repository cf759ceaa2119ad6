//! The synchronization orchestrator, as a verified state machine.
//!
//! One incoming message starts one run: [`start`] extracts and
//! validates the candidate identifiers and names the first catalog
//! call to make. The surrounding (unverified) transport performs each
//! requested [`SyncAction`] against the catalog, feeds the outcome
//! back as a [`SyncEvent`], and calls [`step`] until the action is
//! [`SyncAction::Finish`]; the result then sits in
//! [`SyncState::Done`]. Every step short-circuits on failure, and the
//! single add-items call is issued at most once per run, with the full
//! delta batch, so the playlist is never partially modified by this
//! machine.

use crate::delta::compute_delta;
use crate::delta::delta_spec;
use crate::delta::lemma_delta_membership;
use crate::delta::lemma_delta_no_duplicates;
use crate::delta::lemma_sync_idempotent;
use crate::extract::extract_spec;
use crate::extract::extract_spotify_urls;
use crate::extract::is_id_char;
use crate::extract::valid_track_ref;
use crate::model::SyncError;
use crate::model::SyncErrorKind;
use crate::model::SyncResult;
use crate::owner::owner_key;
use crate::owner::owner_key_spec;
use crate::resolve::find_playlist;
use crate::resolve::find_playlist_spec;
use crate::resolve::playlist_locator;
use crate::resolve::playlist_locator_spec;
use crate::resolve::PlaylistInfo;
use crate::snapshot::all_entries_known;
use crate::snapshot::collect_track_ids;
use crate::snapshot::snapshot_ids;
use vstd::pervasive::unreached;
use vstd::prelude::*;
use vstd::string::StrSliceExecFns;
use vstd::string::StringExecFns;

verus! {

/// Where a synchronization run stands. A fresh run begins in
/// `Resolving` (or directly in `Done` when the message holds no
/// references); each state before `Done` awaits the outcome of
/// exactly one catalog call.
#[derive(Debug)]
pub enum SyncState {
    /// Awaiting the list of the account's playlists.
    Resolving { key: String, refs: Vec<String> },
    /// No playlist matched the owner key; awaiting the account id.
    FetchingAccount { key: String, refs: Vec<String> },
    /// Awaiting the outcome of creating the owner's playlist.
    Creating { refs: Vec<String> },
    /// Awaiting the playlist's current entries.
    Snapshotting { playlist_id: String, refs: Vec<String> },
    /// Awaiting the outcome of the single add-items call.
    Applying { playlist_id: String, count: usize },
    /// The run is over.
    Done { result: SyncResult },
}

/// The outcome of a catalog call, reported back by the transport.
/// Each `Err` carries the upstream failure rendered as text.
#[derive(Debug)]
pub enum SyncEvent {
    PlaylistsListed { outcome: Result<Vec<PlaylistInfo>, String> },
    AccountFetched { outcome: Result<String, String> },
    PlaylistCreated { outcome: Result<PlaylistInfo, String> },
    ItemsListed { outcome: Result<Vec<Option<String>>, String> },
    ItemsAdded { outcome: Result<(), String> },
}

/// The next catalog call the transport must perform, or `Finish` when
/// the run is over.
#[derive(Debug)]
pub enum SyncAction {
    ListPlaylists,
    FetchAccount,
    CreatePlaylist { account_id: String, name: String, public: bool, collaborative: bool },
    ListItems { playlist_id: String },
    AddItems { playlist_id: String, track_ids: Vec<String> },
    Finish,
}

/// The event a state awaits: each pre-`Done` state accepts exactly the
/// outcome of the call it requested.
pub open spec fn event_fits(state: SyncState, event: SyncEvent) -> bool {
    match (state, event) {
        (SyncState::Resolving { .. }, SyncEvent::PlaylistsListed { .. }) => true,
        (SyncState::FetchingAccount { .. }, SyncEvent::AccountFetched { .. }) => true,
        (SyncState::Creating { .. }, SyncEvent::PlaylistCreated { .. }) => true,
        (SyncState::Snapshotting { .. }, SyncEvent::ItemsListed { .. }) => true,
        (SyncState::Applying { .. }, SyncEvent::ItemsAdded { .. }) => true,
        _ => false,
    }
}

/// Decides [`event_fits`], so an unverified caller can guard its calls
/// to [`step`].
pub fn can_step(state: &SyncState, event: &SyncEvent) -> (r: bool)
    ensures
        r == event_fits(*state, *event),
{
    match (state, event) {
        (SyncState::Resolving { .. }, SyncEvent::PlaylistsListed { .. }) => true,
        (SyncState::FetchingAccount { .. }, SyncEvent::AccountFetched { .. }) => true,
        (SyncState::Creating { .. }, SyncEvent::PlaylistCreated { .. }) => true,
        (SyncState::Snapshotting { .. }, SyncEvent::ItemsListed { .. }) => true,
        (SyncState::Applying { .. }, SyncEvent::ItemsAdded { .. }) => true,
        _ => false,
    }
}

/// The run failed: the machine is `Done` with an error of kind
/// `kind` carrying `message`, and no further call is requested.
pub open spec fn failed(
    post: SyncState,
    action: SyncAction,
    kind: SyncErrorKind,
    message: Seq<char>,
) -> bool {
    &&& post matches SyncState::Done { result } && result matches SyncResult::Error { error }
        && error.kind == kind && error.message@ == message
    &&& action is Finish
}

/// What [`start`] establishes: no references means an immediate
/// no-op; a malformed reference aborts the run; otherwise the machine
/// resolves the owner key and asks for the playlist listing first.
pub open spec fn start_post(
    chat_id: int,
    text: Seq<char>,
    state: SyncState,
    action: SyncAction,
) -> bool {
    let refs = extract_spec(text, 0);
    if refs.len() == 0 {
        &&& state matches SyncState::Done { result } && result is NoNewItems
        &&& action is Finish
    } else if exists|k: int| 0 <= k < refs.len() && !valid_track_ref(refs[k]) {
        failed(state, action, SyncErrorKind::InvalidReference, "invalid track reference"@)
    } else {
        &&& state matches SyncState::Resolving { key, refs: rv } && key@ == owner_key_spec(chat_id)
            && rv.deep_view() == refs
        &&& action is ListPlaylists
    }
}

/// What [`step`] establishes, case by case.
pub open spec fn step_post(
    pre: SyncState,
    event: SyncEvent,
    post: SyncState,
    action: SyncAction,
) -> bool {
    match (pre, event) {
        (
            SyncState::Resolving { key, refs },
            SyncEvent::PlaylistsListed { outcome },
        ) => match outcome {
            Result::Ok(lists) => match find_playlist_spec(lists.deep_view(), key@) {
                Option::Some(p) => {
                    &&& post matches SyncState::Snapshotting { playlist_id, refs: rv }
                        && playlist_id@ == p.id && rv.deep_view() == refs.deep_view()
                    &&& action matches SyncAction::ListItems { playlist_id: aid } && aid@ == p.id
                },
                Option::None => {
                    &&& post matches SyncState::FetchingAccount { key: k2, refs: rv } && k2@ == key@
                        && rv.deep_view() == refs.deep_view()
                    &&& action is FetchAccount
                },
            },
            Result::Err(msg) => failed(post, action, SyncErrorKind::ResolutionFailure, msg@),
        },
        (
            SyncState::FetchingAccount { key, refs },
            SyncEvent::AccountFetched { outcome },
        ) => match outcome {
            Result::Ok(account) => {
                &&& post matches SyncState::Creating { refs: rv } && rv.deep_view()
                    == refs.deep_view()
                &&& action matches SyncAction::CreatePlaylist {
                    account_id,
                    name,
                    public,
                    collaborative,
                } && account_id@ == account@ && name@ == key@ && public == true && collaborative
                    == false
            },
            Result::Err(msg) => failed(post, action, SyncErrorKind::ResolutionFailure, msg@),
        },
        (
            SyncState::Creating { refs },
            SyncEvent::PlaylistCreated { outcome },
        ) => match outcome {
            Result::Ok(created) => {
                &&& post matches SyncState::Snapshotting { playlist_id, refs: rv } && playlist_id@
                    == created.id@ && rv.deep_view() == refs.deep_view()
                &&& action matches SyncAction::ListItems { playlist_id: aid } && aid@ == created.id@
            },
            Result::Err(msg) => failed(post, action, SyncErrorKind::ResolutionFailure, msg@),
        },
        (
            SyncState::Snapshotting { playlist_id, refs },
            SyncEvent::ItemsListed { outcome },
        ) => match outcome {
            Result::Ok(entries) => {
                if !all_entries_known(entries.deep_view()) {
                    failed(
                        post,
                        action,
                        SyncErrorKind::SnapshotFailure,
                        "could not determine track ids"@,
                    )
                } else {
                    let d = delta_spec(refs.deep_view(), snapshot_ids(entries.deep_view()));
                    if d.len() == 0 {
                        &&& post matches SyncState::Done { result } && result is NoNewItems
                        &&& action is Finish
                    } else {
                        &&& post matches SyncState::Applying { playlist_id: p2, count } && p2@
                            == playlist_id@ && count == d.len()
                        &&& action matches SyncAction::AddItems { playlist_id: aid, track_ids }
                            && aid@ == playlist_id@ && track_ids.deep_view() == d
                    }
                }
            },
            Result::Err(msg) => failed(post, action, SyncErrorKind::SnapshotFailure, msg@),
        },
        (
            SyncState::Applying { playlist_id, count },
            SyncEvent::ItemsAdded { outcome },
        ) => match outcome {
            Result::Ok(_) => {
                &&& post matches SyncState::Done { result } && result matches SyncResult::Added {
                    count: c2,
                    playlist_locator: loc,
                } && c2 == count && loc@ == playlist_locator_spec(playlist_id@)
                &&& action is Finish
            },
            Result::Err(msg) => failed(post, action, SyncErrorKind::ApplyFailure, msg@),
        },
        _ => false,
    }
}

/// Checks that `s` is a structurally valid track reference: non-empty
/// and ASCII alphanumeric throughout.
fn is_valid_ref(s: &String) -> (r: bool)
    ensures
        r == valid_track_ref(s@),
{
    let slice = s.as_str();
    let n: usize = slice.unicode_len();
    if n == 0 {
        return false;
    }
    let mut i: usize = 0;
    while i < n
        invariant
            n == s@.len(),
            slice@ == s@,
            0 <= i <= n,
            forall|k: int| 0 <= k < i ==> is_id_char(s@[k]),
        decreases n - i,
    {
        let c = slice.get_char(i);
        let u: u32 = c as u32;
        if !((48 <= u && u <= 57) || (65 <= u && u <= 90) || (97 <= u && u <= 122)) {
            return false;
        }
        i = i + 1;
    }
    true
}

/// Checks every candidate in `refs`; true exactly when all are
/// structurally valid track references.
pub fn validate_refs(refs: &Vec<String>) -> (r: bool)
    ensures
        r == (forall|k: int|
            0 <= k < refs.deep_view().len() ==> valid_track_ref(refs.deep_view()[k])),
{
    let mut k: usize = 0;
    while k < refs.len()
        invariant
            0 <= k <= refs.len(),
            forall|j: int| 0 <= j < k ==> valid_track_ref(refs.deep_view()[j]),
        decreases refs.len() - k,
    {
        if !is_valid_ref(&refs[k]) {
            assert(!valid_track_ref(refs.deep_view()[k as int]));
            return false;
        }
        k = k + 1;
    }
    true
}

/// Starts a synchronization run for one incoming message: extracts
/// the candidate identifiers from `text`, validates them, and hands
/// back the initial state with the first action to perform.
pub fn start(chat_id: i64, text: &str) -> (r: (SyncState, SyncAction))
    ensures
        start_post(chat_id as int, text@, r.0, r.1),
{
    let refs = extract_spotify_urls(text);
    if refs.len() == 0 {
        return (SyncState::Done { result: SyncResult::NoNewItems }, SyncAction::Finish);
    }
    if !validate_refs(&refs) {
        let error = SyncError {
            kind: SyncErrorKind::InvalidReference,
            message: String::from_str("invalid track reference"),
        };
        return (SyncState::Done { result: SyncResult::Error { error } }, SyncAction::Finish);
    }
    let key = owner_key(chat_id);
    (SyncState::Resolving { key, refs }, SyncAction::ListPlaylists)
}

/// Advances the machine by one catalog outcome. The caller must feed
/// the outcome of exactly the call the current state awaits.
pub fn step(state: SyncState, event: SyncEvent) -> (r: (SyncState, SyncAction))
    requires
        event_fits(state, event),
    ensures
        step_post(state, event, r.0, r.1),
{
    match state {
        SyncState::Resolving { key, refs } => match event {
            SyncEvent::PlaylistsListed { outcome } => match outcome {
                Result::Ok(lists) => match find_playlist(&lists, &key) {
                    Option::Some(p) => {
                        let aid = p.id.clone();
                        (
                            SyncState::Snapshotting { playlist_id: p.id, refs },
                            SyncAction::ListItems { playlist_id: aid },
                        )
                    },
                    Option::None => (
                        SyncState::FetchingAccount { key, refs },
                        SyncAction::FetchAccount,
                    ),
                },
                Result::Err(msg) => fail(SyncErrorKind::ResolutionFailure, msg),
            },
            _ => unreached(),
        },
        SyncState::FetchingAccount { key, refs } => match event {
            SyncEvent::AccountFetched { outcome } => match outcome {
                Result::Ok(account) => (
                    SyncState::Creating { refs },
                    SyncAction::CreatePlaylist {
                        account_id: account,
                        name: key,
                        public: true,
                        collaborative: false,
                    },
                ),
                Result::Err(msg) => fail(SyncErrorKind::ResolutionFailure, msg),
            },
            _ => unreached(),
        },
        SyncState::Creating { refs } => match event {
            SyncEvent::PlaylistCreated { outcome } => match outcome {
                Result::Ok(created) => {
                    let aid = created.id.clone();
                    (
                        SyncState::Snapshotting { playlist_id: created.id, refs },
                        SyncAction::ListItems { playlist_id: aid },
                    )
                },
                Result::Err(msg) => fail(SyncErrorKind::ResolutionFailure, msg),
            },
            _ => unreached(),
        },
        SyncState::Snapshotting { playlist_id, refs } => match event {
            SyncEvent::ItemsListed { outcome } => match outcome {
                Result::Ok(entries) => match collect_track_ids(&entries) {
                    Result::Ok(snapshot) => {
                        let delta = compute_delta(&refs, &snapshot);
                        if delta.len() == 0 {
                            (SyncState::Done { result: SyncResult::NoNewItems }, SyncAction::Finish)
                        } else {
                            let count: usize = delta.len();
                            let aid = playlist_id.clone();
                            (
                                SyncState::Applying { playlist_id, count },
                                SyncAction::AddItems { playlist_id: aid, track_ids: delta },
                            )
                        }
                    },
                    Result::Err(error) => (
                        SyncState::Done { result: SyncResult::Error { error } },
                        SyncAction::Finish,
                    ),
                },
                Result::Err(msg) => fail(SyncErrorKind::SnapshotFailure, msg),
            },
            _ => unreached(),
        },
        SyncState::Applying { playlist_id, count } => match event {
            SyncEvent::ItemsAdded { outcome } => match outcome {
                Result::Ok(_) => {
                    let loc = playlist_locator(&playlist_id);
                    (
                        SyncState::Done {
                            result: SyncResult::Added { count, playlist_locator: loc },
                        },
                        SyncAction::Finish,
                    )
                },
                Result::Err(msg) => fail(SyncErrorKind::ApplyFailure, msg),
            },
            _ => unreached(),
        },
        SyncState::Done { .. } => unreached(),
    }
}

/// The law behind the all-or-nothing apply step: whenever the machine
/// requests an add-items call, the snapshot was fully known, and the
/// batch is non-empty, repeats no identifier, and consists solely of
/// requested references that the snapshot did not already contain. So
/// the single batch the transport hands to the catalog can never
/// introduce a duplicate, and a failed apply leaves nothing half done
/// on the machine's side: the run just ends in an apply error.
pub proof fn lemma_added_items_are_new(
    pre: SyncState,
    event: SyncEvent,
    post: SyncState,
    action: SyncAction,
)
    requires
        step_post(pre, event, post, action),
        action matches SyncAction::AddItems { .. },
    ensures
        ({
            &&& pre matches SyncState::Snapshotting { playlist_id, refs }
            &&& event matches SyncEvent::ItemsListed { outcome: Result::Ok(entries) }
            &&& all_entries_known(entries.deep_view())
            &&& action matches SyncAction::AddItems { playlist_id: aid, track_ids }
            &&& aid@ == playlist_id@
            &&& track_ids.deep_view().len() > 0
            &&& forall|i: int, j: int|
                0 <= i < j < track_ids.deep_view().len() ==> track_ids.deep_view()[i]
                    != track_ids.deep_view()[j]
            &&& forall|x: Seq<char>|
                #[trigger] track_ids.deep_view().contains(x) ==> refs.deep_view().contains(x)
                    && !snapshot_ids(entries.deep_view()).contains(x)
        }),
{
    match (pre, event) {
        (
            SyncState::Snapshotting { playlist_id, refs },
            SyncEvent::ItemsListed { outcome: Result::Ok(entries) },
        ) => {
            lemma_delta_membership(refs.deep_view(), snapshot_ids(entries.deep_view()));
            lemma_delta_no_duplicates(refs.deep_view(), snapshot_ids(entries.deep_view()));
        },
        _ => {},
    }
}

/// The law of idempotence, at the machine level: when one run's
/// diffing step requests an add-items batch and the batch is applied
/// in full, a second run with the same references, seeing the updated
/// snapshot, decides `NoNewItems` and requests no further catalog
/// call. (That the second run sees exactly the old snapshot plus the
/// batch is the catalog's append contract together with the strict
/// sequencing of runs.)
pub proof fn lemma_second_run_finds_nothing(
    playlist_id: String,
    refs: Vec<String>,
    entries1: Vec<Option<String>>,
    entries2: Vec<Option<String>>,
    post1: SyncState,
    action1: SyncAction,
    post2: SyncState,
    action2: SyncAction,
)
    requires
        step_post(
            (SyncState::Snapshotting { playlist_id, refs }),
            (SyncEvent::ItemsListed { outcome: Result::Ok(entries1) }),
            post1,
            action1,
        ),
        all_entries_known(entries1.deep_view()),
        action1 matches SyncAction::AddItems { track_ids, .. } && snapshot_ids(
            entries2.deep_view(),
        ) == snapshot_ids(entries1.deep_view()) + track_ids.deep_view(),
        step_post(
            (SyncState::Snapshotting { playlist_id, refs }),
            (SyncEvent::ItemsListed { outcome: Result::Ok(entries2) }),
            post2,
            action2,
        ),
        all_entries_known(entries2.deep_view()),
    ensures
        post2 matches SyncState::Done { result } && result is NoNewItems,
        action2 is Finish,
{
    let snap1 = snapshot_ids(entries1.deep_view());
    lemma_sync_idempotent(refs.deep_view(), snap1);
}

/// Ends a run with an error of kind `kind` carrying the upstream
/// message.
fn fail(kind: SyncErrorKind, message: String) -> (r: (SyncState, SyncAction))
    ensures
        failed(r.0, r.1, kind, message@),
{
    let error = SyncError { kind, message };
    (SyncState::Done { result: SyncResult::Error { error } }, SyncAction::Finish)
}

} // verus!
