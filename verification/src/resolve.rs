//! Owner resolution: mapping an owner key to its playlist.
//!
//! The catalog is searched by name equality: the first listed playlist
//! whose name equals the owner key is the owner's playlist. Nothing is
//! stored locally; when no playlist matches, the caller must create
//! one named after the owner key.

use vstd::prelude::*;
use vstd::string::StringExecFns;

verus! {

/// A playlist as listed by the catalog: its identifier and its
/// human-readable name.
#[derive(Debug)]
pub struct PlaylistInfo {
    pub id: String,
    pub name: String,
}

/// The mathematical image of a [`PlaylistInfo`].
pub struct PlaylistView {
    pub id: Seq<char>,
    pub name: Seq<char>,
}

impl View for PlaylistInfo {
    type V = PlaylistView;

    open spec fn view(&self) -> PlaylistView {
        PlaylistView { id: self.id@, name: self.name@ }
    }
}

impl DeepView for PlaylistInfo {
    type V = PlaylistView;

    open spec fn deep_view(&self) -> PlaylistView {
        self.view()
    }
}

/// The first playlist in `lists` whose name equals `key` (exact,
/// case-sensitive), if any.
pub open spec fn find_playlist_spec(lists: Seq<PlaylistView>, key: Seq<char>) -> Option<
    PlaylistView,
>
    decreases lists.len(),
{
    if lists.len() == 0 {
        Option::None
    } else if lists.first().name == key {
        Option::Some(lists.first())
    } else {
        find_playlist_spec(lists.drop_first(), key)
    }
}

/// Searches `lists` for the first playlist named `key`.
pub fn find_playlist(lists: &Vec<PlaylistInfo>, key: &String) -> (r: Option<PlaylistInfo>)
    ensures
        match r {
            Option::Some(p) => find_playlist_spec(lists.deep_view(), key@) == Option::Some(p@),
            Option::None => find_playlist_spec(lists.deep_view(), key@) is None,
        },
{
    let ghost all = lists.deep_view();
    proof {
        assert(all.skip(0) =~= all);
    }
    let mut k: usize = 0;
    while k < lists.len()
        invariant
            0 <= k <= lists.len(),
            all == lists.deep_view(),
            find_playlist_spec(all, key@) == find_playlist_spec(all.skip(k as int), key@),
        decreases lists.len() - k,
    {
        let ghost rest = all.skip(k as int);
        proof {
            assert(rest.first() == all[k as int]);
        }
        if lists[k].name.eq(key) {
            let found = PlaylistInfo { id: lists[k].id.clone(), name: lists[k].name.clone() };
            proof {
                assert(found.id@ == all[k as int].id && found.name@ == all[k as int].name);
                assert(find_playlist_spec(rest, key@) == Option::Some(rest.first()));
                assert(found@ == rest.first());
            }
            return Option::Some(found);
        }
        proof {
            assert(rest.drop_first() =~= all.skip(k as int + 1));
            assert(find_playlist_spec(rest, key@) == find_playlist_spec(
                all.skip(k as int + 1),
                key@,
            ));
        }
        k = k + 1;
    }
    proof {
        assert(all.skip(k as int) =~= Seq::<PlaylistView>::empty());
    }
    Option::None
}

/// The URL prefix under which a playlist is reachable.
pub open spec fn playlist_url_prefix() -> Seq<char> {
    seq![
        'h',
        't',
        't',
        'p',
        's',
        ':',
        '/',
        '/',
        'o',
        'p',
        'e',
        'n',
        '.',
        's',
        'p',
        'o',
        't',
        'i',
        'f',
        'y',
        '.',
        'c',
        'o',
        'm',
        '/',
        'p',
        'l',
        'a',
        'y',
        'l',
        'i',
        's',
        't',
        '/',
    ]
}

/// The locator of the playlist with catalog id `id`.
pub open spec fn playlist_locator_spec(id: Seq<char>) -> Seq<char> {
    playlist_url_prefix() + id
}

/// Builds the URL under which the playlist with id `id` is reachable.
pub fn playlist_locator(id: &String) -> (r: String)
    ensures
        r@ == playlist_locator_spec(id@),
{
    let mut s = String::from_str("https://open.spotify.com/playlist/");
    proof {
        reveal_strlit("https://open.spotify.com/playlist/");
        assert(s@ =~= playlist_url_prefix());
    }
    s.append(id.as_str());
    proof {
        assert(s@ =~= playlist_locator_spec(id@));
    }
    s
}

} // verus!
