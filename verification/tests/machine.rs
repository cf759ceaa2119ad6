use group_playlist_bot::model::{SyncErrorKind, SyncResult};
use group_playlist_bot::resolve::PlaylistInfo;
use group_playlist_bot::sync::{
    can_step, start, step, validate_refs, SyncAction, SyncEvent, SyncState,
};

/// A simulated music catalog: playlists by (id, name), entries per
/// playlist id, switchable failures, and call counters.
struct FakeCatalog {
    playlists: Vec<(String, String)>,
    items: Vec<(String, Vec<Option<String>>)>,
    fail_listing: bool,
    fail_create: bool,
    fail_add: bool,
    next_id: u32,
    calls: usize,
    add_calls: usize,
}

impl FakeCatalog {
    fn new() -> FakeCatalog {
        FakeCatalog {
            playlists: Vec::new(),
            items: Vec::new(),
            fail_listing: false,
            fail_create: false,
            fail_add: false,
            next_id: 1,
            calls: 0,
            add_calls: 0,
        }
    }

    fn items_of(&self, playlist_id: &str) -> Vec<Option<String>> {
        self.items
            .iter()
            .find(|(id, _)| id == playlist_id)
            .map(|(_, v)| v.clone())
            .unwrap_or_default()
    }
}

/// Drives one synchronization run against the simulated catalog,
/// performing each requested action and feeding the outcome back.
fn run_sync(cat: &mut FakeCatalog, chat_id: i64, text: &str) -> SyncResult {
    let (mut state, mut action) = start(chat_id, text);
    loop {
        let event = match action {
            SyncAction::Finish => match state {
                SyncState::Done { result } => return result,
                _ => panic!("machine finished outside Done"),
            },
            SyncAction::ListPlaylists => {
                cat.calls += 1;
                let outcome = if cat.fail_listing {
                    Err("listing failed".to_string())
                } else {
                    Ok(cat
                        .playlists
                        .iter()
                        .map(|(id, name)| PlaylistInfo {
                            id: id.clone(),
                            name: name.clone(),
                        })
                        .collect())
                };
                SyncEvent::PlaylistsListed { outcome }
            }
            SyncAction::FetchAccount => {
                cat.calls += 1;
                SyncEvent::AccountFetched {
                    outcome: Ok("account-1".to_string()),
                }
            }
            SyncAction::CreatePlaylist {
                account_id: _,
                name,
                public,
                collaborative,
            } => {
                cat.calls += 1;
                assert!(public);
                assert!(!collaborative);
                let outcome = if cat.fail_create {
                    Err("creation failed".to_string())
                } else {
                    let id = format!("pl{}", cat.next_id);
                    cat.next_id += 1;
                    cat.playlists.push((id.clone(), name.clone()));
                    cat.items.push((id.clone(), Vec::new()));
                    Ok(PlaylistInfo { id, name })
                };
                SyncEvent::PlaylistCreated { outcome }
            }
            SyncAction::ListItems { playlist_id } => {
                cat.calls += 1;
                SyncEvent::ItemsListed {
                    outcome: Ok(cat.items_of(&playlist_id)),
                }
            }
            SyncAction::AddItems {
                playlist_id,
                track_ids,
            } => {
                cat.calls += 1;
                cat.add_calls += 1;
                assert!(!track_ids.is_empty(), "machine requested an empty batch");
                let outcome = if cat.fail_add {
                    // The batch was received but nothing is appended:
                    // the collaborator's add is all-or-nothing.
                    Err("apply failed".to_string())
                } else {
                    let entries = cat
                        .items
                        .iter_mut()
                        .find(|(id, _)| *id == playlist_id)
                        .map(|(_, v)| v)
                        .expect("adding to an unknown playlist");
                    for t in &track_ids {
                        entries.push(Some(t.clone()));
                    }
                    Ok(())
                };
                SyncEvent::ItemsAdded { outcome }
            }
        };
        let (next_state, next_action) = step(state, event);
        state = next_state;
        action = next_action;
    }
}

fn error_kind(result: &SyncResult) -> Option<SyncErrorKind> {
    match result {
        SyncResult::Error { error } => Some(error.kind),
        _ => None,
    }
}

#[test]
fn first_sync_creates_playlist_and_adds_one() {
    let mut cat = FakeCatalog::new();
    let result = run_sync(
        &mut cat,
        123,
        "check this out https://open.spotify.com/track/42i30whtcm9lGWx30x8t2R?si=a3fa0e97fbeb43f6",
    );
    match result {
        SyncResult::Added {
            count,
            playlist_locator,
        } => {
            assert_eq!(count, 1);
            assert_eq!(playlist_locator, "https://open.spotify.com/playlist/pl1");
        }
        other => panic!("expected Added, got {other:?}"),
    }
    assert_eq!(cat.playlists, vec![("pl1".to_string(), "telegram-123".to_string())]);
    assert_eq!(
        cat.items_of("pl1"),
        vec![Some("42i30whtcm9lGWx30x8t2R".to_string())]
    );
}

#[test]
fn second_sync_with_same_url_is_no_op() {
    let mut cat = FakeCatalog::new();
    let text = "https://open.spotify.com/track/42i30whtcm9lGWx30x8t2R";
    let first = run_sync(&mut cat, 123, text);
    assert!(matches!(first, SyncResult::Added { count: 1, .. }));
    let second = run_sync(&mut cat, 123, text);
    assert!(matches!(second, SyncResult::NoNewItems));
    assert_eq!(
        cat.items_of("pl1"),
        vec![Some("42i30whtcm9lGWx30x8t2R".to_string())]
    );
}

#[test]
fn sync_twice_is_idempotent_and_deduplicates() {
    let mut cat = FakeCatalog::new();
    let text = "https://open.spotify.com/track/aaa https://open.spotify.com/track/bbb \
                https://open.spotify.com/track/aaa";
    let first = run_sync(&mut cat, 9, text);
    assert!(matches!(first, SyncResult::Added { count: 2, .. }));
    let second = run_sync(&mut cat, 9, text);
    assert!(matches!(second, SyncResult::NoNewItems));
    assert_eq!(
        cat.items_of("pl1"),
        vec![Some("aaa".to_string()), Some("bbb".to_string())]
    );
}

#[test]
fn message_without_url_makes_no_calls() {
    let mut cat = FakeCatalog::new();
    let result = run_sync(&mut cat, 123, "hello, nothing to see");
    assert!(matches!(result, SyncResult::NoNewItems));
    assert_eq!(cat.calls, 0);
    assert!(cat.playlists.is_empty());
}

#[test]
fn unknown_entry_fails_closed_without_adding() {
    let mut cat = FakeCatalog::new();
    cat.playlists
        .push(("pl7".to_string(), "telegram-123".to_string()));
    cat.items
        .push(("pl7".to_string(), vec![Some("aaa".to_string()), None]));
    let result = run_sync(
        &mut cat,
        123,
        "https://open.spotify.com/track/bbb",
    );
    assert_eq!(error_kind(&result), Some(SyncErrorKind::SnapshotFailure));
    assert_eq!(cat.add_calls, 0);
    assert_eq!(
        cat.items_of("pl7"),
        vec![Some("aaa".to_string()), None]
    );
}

#[test]
fn failed_apply_leaves_playlist_unchanged() {
    let mut cat = FakeCatalog::new();
    cat.playlists
        .push(("pl3".to_string(), "telegram-5".to_string()));
    cat.items
        .push(("pl3".to_string(), vec![Some("old".to_string())]));
    cat.fail_add = true;
    let result = run_sync(&mut cat, 5, "https://open.spotify.com/track/new1");
    assert_eq!(error_kind(&result), Some(SyncErrorKind::ApplyFailure));
    assert_eq!(cat.add_calls, 1);
    assert_eq!(cat.items_of("pl3"), vec![Some("old".to_string())]);
}

#[test]
fn listing_failure_is_resolution_failure() {
    let mut cat = FakeCatalog::new();
    cat.fail_listing = true;
    let result = run_sync(&mut cat, 1, "https://open.spotify.com/track/abc");
    assert_eq!(error_kind(&result), Some(SyncErrorKind::ResolutionFailure));
    assert_eq!(cat.add_calls, 0);
}

#[test]
fn creation_failure_is_resolution_failure() {
    let mut cat = FakeCatalog::new();
    cat.fail_create = true;
    let result = run_sync(&mut cat, 1, "https://open.spotify.com/track/abc");
    assert_eq!(error_kind(&result), Some(SyncErrorKind::ResolutionFailure));
    assert!(cat.playlists.is_empty());
    assert_eq!(cat.add_calls, 0);
}

#[test]
fn existing_playlist_is_found_by_exact_name() {
    let mut cat = FakeCatalog::new();
    // A near miss first, then the exact owner key; the first exact
    // match wins and nothing is created.
    cat.playlists
        .push(("plA".to_string(), "telegram-12".to_string()));
    cat.playlists
        .push(("plB".to_string(), "telegram-123".to_string()));
    cat.items.push(("plA".to_string(), Vec::new()));
    cat.items.push(("plB".to_string(), Vec::new()));
    let result = run_sync(&mut cat, 123, "https://open.spotify.com/track/zz9");
    match result {
        SyncResult::Added {
            count,
            playlist_locator,
        } => {
            assert_eq!(count, 1);
            assert_eq!(playlist_locator, "https://open.spotify.com/playlist/plB");
        }
        other => panic!("expected Added, got {other:?}"),
    }
    assert_eq!(cat.playlists.len(), 2);
    assert_eq!(cat.items_of("plB"), vec![Some("zz9".to_string())]);
    assert_eq!(cat.items_of("plA"), Vec::<Option<String>>::new());
}

#[test]
fn can_step_accepts_only_the_awaited_event() {
    let resolving = SyncState::Resolving {
        key: "telegram-1".to_string(),
        refs: vec!["abc".to_string()],
    };
    let fitting = SyncEvent::PlaylistsListed { outcome: Ok(Vec::new()) };
    let unfitting = SyncEvent::ItemsAdded { outcome: Ok(()) };
    assert!(can_step(&resolving, &fitting));
    assert!(!can_step(&resolving, &unfitting));
    let done = SyncState::Done {
        result: SyncResult::NoNewItems,
    };
    let listed = SyncEvent::PlaylistsListed { outcome: Ok(Vec::new()) };
    assert!(!can_step(&done, &listed));
}

#[test]
fn validate_refs_rejects_malformed_candidates() {
    assert!(validate_refs(&vec!["abc123".to_string()]));
    assert!(!validate_refs(&vec!["abc 123".to_string()]));
    assert!(!validate_refs(&vec!["".to_string()]));
    assert!(!validate_refs(&vec!["ok".to_string(), "not-ok!".to_string()]));
}
