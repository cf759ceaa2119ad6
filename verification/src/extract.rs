//! Reference extraction: pulling track identifiers out of message text.
//!
//! A track reference appears as a URL of the exact shape
//! `https://open.spotify.com/track/<id>`, where `<id>` is one or more
//! ASCII alphanumeric characters. Extraction scans the text left to
//! right, captures each identifier greedily (the longest alphanumeric
//! run after the fixed prefix), and resumes after the captured run, so
//! matches never overlap. Everything else in the text is ignored.

use vstd::prelude::*;
use vstd::string::StrSliceExecFns;
use vstd::string::StringExecFns;

verus! {

/// The fixed URL prefix that introduces a track identifier.
pub open spec fn track_url_prefix() -> Seq<char> {
    seq![
        'h',
        't',
        't',
        'p',
        's',
        ':',
        '/',
        '/',
        'o',
        'p',
        'e',
        'n',
        '.',
        's',
        'p',
        'o',
        't',
        'i',
        'f',
        'y',
        '.',
        'c',
        'o',
        'm',
        '/',
        't',
        'r',
        'a',
        'c',
        'k',
        '/',
    ]
}

/// A character that may appear in a track identifier: ASCII
/// alphanumeric.
pub open spec fn is_id_char(c: char) -> bool {
    (48 <= c as u32 && c as u32 <= 57) || (65 <= c as u32 && c as u32 <= 90) || (97 <= c as u32
        && c as u32 <= 122)
}

/// A structurally valid track reference: non-empty, all characters
/// ASCII alphanumeric.
pub open spec fn valid_track_ref(s: Seq<char>) -> bool {
    s.len() >= 1 && (forall|i: int| 0 <= i < s.len() ==> is_id_char(s[i]))
}

/// The track-URL prefix occurs in `text` at position `i`.
pub open spec fn prefix_match_at(text: Seq<char>, i: int) -> bool {
    &&& 0 <= i
    &&& i + track_url_prefix().len() <= text.len()
    &&& text.subrange(i, i + track_url_prefix().len() as int) == track_url_prefix()
}

/// Length of the maximal run of identifier characters starting at `i`.
pub open spec fn id_run_len(text: Seq<char>, i: int) -> nat
    decreases text.len() - i,
{
    if 0 <= i < text.len() && is_id_char(text[i]) {
        (1 + id_run_len(text, i + 1)) as nat
    } else {
        0
    }
}

/// The maximal run starting inside the text never runs past its end.
pub proof fn lemma_id_run_len_bound(text: Seq<char>, i: int)
    requires
        0 <= i <= text.len(),
    ensures
        id_run_len(text, i) <= text.len() - i,
    decreases text.len() - i,
{
    if i < text.len() && is_id_char(text[i]) {
        lemma_id_run_len_bound(text, i + 1);
    }
}

/// A run of identifier characters that is closed on both sides (either
/// end of text or a non-identifier character follows) is the maximal
/// run.
proof fn lemma_id_run_len_exact(text: Seq<char>, s: int, e: int)
    requires
        0 <= s <= e <= text.len(),
        forall|k: int| s <= k < e ==> is_id_char(text[k]),
        e == text.len() || !is_id_char(text[e]),
    ensures
        id_run_len(text, s) == e - s,
    decreases e - s,
{
    if s < e {
        assert(is_id_char(text[s]));
        lemma_id_run_len_exact(text, s + 1, e);
    }
}

/// All identifiers extracted from `text`, scanning from position `i`:
/// at each prefix occurrence followed by at least one identifier
/// character, the maximal identifier run is captured and the scan
/// resumes after it; otherwise the scan advances one position.
pub open spec fn extract_spec(text: Seq<char>, i: int) -> Seq<Seq<char>>
    decreases text.len() - i,
        when 0 <= i
{
    let plen: int = track_url_prefix().len() as int;
    if i + plen >= text.len() {
        seq![]
    } else if prefix_match_at(text, i) && is_id_char(text[i + plen]) {
        let run: int = id_run_len(text, i + plen) as int;
        proof {
            lemma_id_run_len_bound(text, i + plen);
        }
        seq![text.subrange(i + plen, i + plen + run)] + extract_spec(text, i + plen + run)
    } else {
        extract_spec(text, i + 1)
    }
}

/// Each extracted identifier is a structurally valid track reference,
/// so validation downstream of extraction can never fail.
pub proof fn lemma_extracted_refs_valid(text: Seq<char>, i: int)
    requires
        0 <= i,
    ensures
        forall|k: int|
            0 <= k < extract_spec(text, i).len() ==> valid_track_ref(extract_spec(text, i)[k]),
    decreases text.len() - i,
{
    let plen: int = track_url_prefix().len() as int;
    if i + plen >= text.len() {
    } else if prefix_match_at(text, i) && is_id_char(text[i + plen]) {
        let run: int = id_run_len(text, i + plen) as int;
        lemma_id_run_len_bound(text, i + plen);
        lemma_id_run_chars(text, i + plen);
        lemma_extracted_refs_valid(text, i + plen + run);
        let cap = text.subrange(i + plen, i + plen + run);
        let rest = extract_spec(text, i + plen + run);
        let whole = extract_spec(text, i);
        assert(valid_track_ref(cap));
        assert(whole =~= seq![cap] + rest);
        assert forall|k: int| 0 <= k < whole.len() implies valid_track_ref(whole[k]) by {
            if k == 0 {
                assert(whole[k] == cap);
            } else {
                assert(whole[k] == rest[k - 1]);
            }
        }
    } else {
        lemma_extracted_refs_valid(text, i + 1);
        assert(extract_spec(text, i) == extract_spec(text, i + 1));
    }
}

/// Every character inside the maximal run is an identifier character,
/// and the run is non-empty when it starts on one.
proof fn lemma_id_run_chars(text: Seq<char>, s: int)
    requires
        0 <= s,
    ensures
        forall|k: int| s <= k < s + id_run_len(text, s) ==> is_id_char(text[k]),
        0 <= s < text.len() && is_id_char(text[s]) ==> id_run_len(text, s) >= 1,
    decreases text.len() - s,
{
    if 0 <= s < text.len() && is_id_char(text[s]) {
        lemma_id_run_chars(text, s + 1);
    }
}

/// Decides [`is_id_char`] on a concrete character.
fn id_char(c: char) -> (r: bool)
    ensures
        r == is_id_char(c),
{
    let u: u32 = c as u32;
    (48 <= u && u <= 57) || (65 <= u && u <= 90) || (97 <= u && u <= 122)
}

/// Checks whether the track-URL prefix occurs in `text` at position `i`.
fn prefix_matches(text: &str, i: usize) -> (r: bool)
    requires
        i + track_url_prefix().len() <= text@.len(),
        text@.len() <= usize::MAX,
    ensures
        r == prefix_match_at(text@, i as int),
{
    let pattern = "https://open.spotify.com/track/";
    proof {
        reveal_strlit("https://open.spotify.com/track/");
        assert(pattern@ =~= track_url_prefix());
    }
    let plen: usize = pattern.unicode_len();
    let mut j: usize = 0;
    while j < plen
        invariant
            plen == track_url_prefix().len(),
            pattern@ == track_url_prefix(),
            0 <= j <= plen,
            i + plen <= text@.len(),
            text@.len() <= usize::MAX,
            forall|k: int| 0 <= k < j ==> text@[i + k] == track_url_prefix()[k],
        decreases plen - j,
    {
        if text.get_char(i + j) != pattern.get_char(j) {
            proof {
                assert(text@.subrange(i as int, i + plen) != track_url_prefix()) by {
                    assert(text@.subrange(i as int, i + plen)[j as int] != track_url_prefix()[j as int]);
                }
            }
            return false;
        }
        j = j + 1;
    }
    proof {
        assert(text@.subrange(i as int, i + plen) =~= track_url_prefix());
    }
    true
}

/// Extracts every track identifier mentioned in `text`, in order of
/// first appearance, duplicates included. Returns an empty vector when
/// no track URL occurs; never fails.
pub fn extract_spotify_urls(text: &str) -> (urls: Vec<String>)
    ensures
        urls.deep_view() == extract_spec(text@, 0),
        forall|k: int| 0 <= k < urls.deep_view().len() ==> valid_track_ref(urls.deep_view()[k]),
{
    let n: usize = text.unicode_len();
    let plen: usize = 31;
    proof {
        assert(plen == track_url_prefix().len());
    }
    let mut urls: Vec<String> = Vec::new();
    let mut i: usize = 0;
    while i < n && n - i > plen
        invariant
            n == text@.len(),
            plen == track_url_prefix().len(),
            0 <= i <= n,
            extract_spec(text@, 0) =~= urls.deep_view() + extract_spec(text@, i as int),
        decreases n - i,
    {
        if prefix_matches(text, i) && id_char(text.get_char(i + plen)) {
            let start: usize = i + plen;
            let mut end: usize = start;
            while end < n && id_char(text.get_char(end))
                invariant
                    n == text@.len(),
                    start <= end <= n,
                    forall|k: int| start <= k < end ==> is_id_char(text@[k]),
                decreases n - end,
            {
                end = end + 1;
            }
            let ghost pre = urls.deep_view();
            let id = text.substring_char(start, end).to_owned();
            urls.push(id);
            proof {
                lemma_id_run_len_exact(text@, start as int, end as int);
                let cap = text@.subrange(start as int, end as int);
                assert(urls.deep_view() =~= pre.push(cap));
                assert(extract_spec(text@, i as int) =~= seq![cap] + extract_spec(
                    text@,
                    end as int,
                ));
                assert(extract_spec(text@, 0) =~= urls.deep_view() + extract_spec(
                    text@,
                    end as int,
                ));
            }
            i = end;
        } else {
            proof {
                assert(extract_spec(text@, i as int) == extract_spec(text@, i + 1));
            }
            i = i + 1;
        }
    }
    proof {
        assert(extract_spec(text@, i as int) =~= Seq::<Seq<char>>::empty());
        assert(extract_spec(text@, 0) =~= urls.deep_view());
        lemma_extracted_refs_valid(text@, 0);
    }
    urls
}

} // verus!
