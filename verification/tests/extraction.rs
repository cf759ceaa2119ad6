use group_playlist_bot::extract::extract_spotify_urls;

#[test]
fn test_get_spotify_url() {
    let url1 = "https://open.spotify.com/track/42i30whtcm9lGWx30x8t2R?si=a3fa0e97fbeb43f6";
    let url2 = "https://open.spotify.com/track/5Zm8huZ4tzDm7eLKFScrE8?si=4933882b136f49fc";
    let url3 = "https://open.spotify.com/track/5xzgJJGzPm2HlroRVKYOwF?si=5261dfc19ecd475f";
    let multiple_valid_urls = format!("{url1}, {url2}\n {url3}");
    assert_eq!(extract_spotify_urls(url1), vec!["42i30whtcm9lGWx30x8t2R"]);
    assert_eq!(
        extract_spotify_urls(&multiple_valid_urls),
        vec![
            "42i30whtcm9lGWx30x8t2R",
            "5Zm8huZ4tzDm7eLKFScrE8",
            "5xzgJJGzPm2HlroRVKYOwF"
        ]
    );
}

#[test]
fn extraction_empty_when_no_match() {
    assert_eq!(extract_spotify_urls(""), Vec::<String>::new());
    assert_eq!(extract_spotify_urls("no links here"), Vec::<String>::new());
    assert_eq!(
        extract_spotify_urls("https://example.com/track/abc"),
        Vec::<String>::new()
    );
}

#[test]
fn extraction_ignores_malformed() {
    // Missing identifier after the prefix.
    assert_eq!(
        extract_spotify_urls("https://open.spotify.com/track/"),
        Vec::<String>::new()
    );
    // Wrong scheme.
    assert_eq!(
        extract_spotify_urls("http://open.spotify.com/track/abc"),
        Vec::<String>::new()
    );
    // Wrong resource kind.
    assert_eq!(
        extract_spotify_urls("https://open.spotify.com/album/abc"),
        Vec::<String>::new()
    );
    // Identifier stops at the first non-alphanumeric character.
    assert_eq!(
        extract_spotify_urls("https://open.spotify.com/track/abc-def"),
        vec!["abc"]
    );
}

#[test]
fn extraction_keeps_duplicates_in_order() {
    let text = "x https://open.spotify.com/track/aaa y https://open.spotify.com/track/bbb z \
                https://open.spotify.com/track/aaa";
    assert_eq!(extract_spotify_urls(text), vec!["aaa", "bbb", "aaa"]);
}

#[test]
fn extraction_is_greedy_and_non_overlapping() {
    // With no separator, the first capture greedily swallows the start
    // of the second URL, and scanning resumes only after the captured
    // run, so the second URL is not matched.
    let text = "https://open.spotify.com/track/abchttps://open.spotify.com/track/xyz";
    assert_eq!(extract_spotify_urls(text), vec!["abchttps"]);
}

#[test]
fn extraction_embedded_in_punctuation() {
    let text = "(see https://open.spotify.com/track/q1W2e3,\nthen https://open.spotify.com/track/Z9y8X7!)";
    assert_eq!(extract_spotify_urls(text), vec!["q1W2e3", "Z9y8X7"]);
}
