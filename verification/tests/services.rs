use music_quiz_bot::links::Url;
use music_quiz_bot::services::itunes::{
    ItunesClient, ItunesClientError, ItunesSearchResponse, ItunesTrack,
};
use music_quiz_bot::services::spotify::{
    Artist, FullTrack, PlaylistItem, PlaylistPage, PlaylistPager, PlaylistTrack, PlaylistTracks,
    SpotifyClient, SpotifyClientError, TokenCache,
};

fn full_track(name: &str, artists: &[&str]) -> FullTrack {
    FullTrack {
        name: name.to_string(),
        artists: artists
            .iter()
            .map(|a| Artist { name: a.to_string() })
            .collect(),
    }
}

#[test]
fn retrieve_playlist_id_accepts_valid_playlist_url() {
    let url = Url::parse("https://open.spotify.com/playlist/abc123").unwrap();

    let playlist_id = SpotifyClient::retrieve_playlist_id(url).unwrap();

    assert_eq!(playlist_id, "abc123");
}

#[test]
fn retrieve_playlist_id_accepts_shared_playlist_url_with_query_string() {
    let url = Url::parse(
        "https://open.spotify.com/playlist/37i9dQZF1DX0Yxoavh5qJV?si=c49cc0082b34401c",
    )
    .unwrap();

    let playlist_id = SpotifyClient::retrieve_playlist_id(url).unwrap();

    assert_eq!(playlist_id, "37i9dQZF1DX0Yxoavh5qJV");
}

#[test]
fn retrieve_playlist_id_rejects_non_spotify_hosts() {
    let url = Url::parse("https://example.com/playlist/abc123").unwrap();

    let error = SpotifyClient::retrieve_playlist_id(url).unwrap_err();

    assert!(matches!(error, SpotifyClientError::InvalidLink(_)));
}

#[test]
fn retrieve_playlist_id_rejects_extra_path_segments() {
    let url = Url::parse("https://open.spotify.com/playlist/abc123/tracks").unwrap();

    let error = SpotifyClient::retrieve_playlist_id(url).unwrap_err();

    assert!(matches!(error, SpotifyClientError::UnexpectedSegment(segment) if segment == "tracks"));
}

#[test]
fn retrieve_playlist_id_rejects_other_links() {
    let album = Url::parse("https://open.spotify.com/album/abc123").unwrap();
    assert!(matches!(
        SpotifyClient::retrieve_playlist_id(album).unwrap_err(),
        SpotifyClientError::NotPlaylistLink(_)
    ));
    let bare = Url::parse("https://open.spotify.com/playlist").unwrap();
    assert!(matches!(
        SpotifyClient::retrieve_playlist_id(bare).unwrap_err(),
        SpotifyClientError::PlaylistIdMissing
    ));
}

#[test]
fn url_parse_keeps_host_and_segments() {
    let url = Url::parse("https://open.spotify.com/playlist/abc?x=1").unwrap();
    assert_eq!(url.host_str(), Some("open.spotify.com"));
    assert_eq!(
        url.path_segments().unwrap(),
        &vec!["playlist".to_string(), "abc".to_string()]
    );
    assert_eq!(url.as_str(), "https://open.spotify.com/playlist/abc?x=1");
    assert!(Url::parse("not a url").is_err());
}

#[test]
fn truncate_error_body_replaces_empty_bodies() {
    let body = SpotifyClient::truncate_error_body("   ");

    assert_eq!(body, "<empty response body>");
}

#[test]
fn truncate_error_body_limits_logged_response_size() {
    let body = SpotifyClient::truncate_error_body(&"a".repeat(600));

    assert_eq!(body.len(), 515);
    assert!(body.ends_with("..."));
}

#[test]
fn truncate_error_body_trims_and_keeps_short_bodies() {
    assert_eq!(SpotifyClient::truncate_error_body("  {\"error\": 1}\n"), "{\"error\": 1}");
    let exact = "b".repeat(512);
    assert_eq!(SpotifyClient::truncate_error_body(&exact), exact);
}

#[test]
fn truncate_error_body_cuts_at_character_boundaries() {
    // 300 two-byte characters: the characters starting before byte 512 are kept
    let body = "é".repeat(300);
    let shortened = SpotifyClient::truncate_error_body(&body);
    assert_eq!(shortened, format!("{}...", "é".repeat(256)));
    let odd = format!("a{}", "é".repeat(300));
    let shortened = SpotifyClient::truncate_error_body(&odd);
    assert_eq!(shortened, format!("a{}...", "é".repeat(256)));
}

#[test]
fn playlist_track_search_query() {
    let track = PlaylistTrack::from(full_track("Hey Jude", &["The Beatles"]));
    assert_eq!(track.into_search_query(), "Hey Jude - The Beatles");
    let duet = PlaylistTrack::from(full_track("Duet", &["A", "B", "C"]));
    assert_eq!(duet.search_query(), "Duet - A, B, C");
}

#[test]
fn collect_playlist_tracks_skips_missing_tracks() {
    let items = vec![
        PlaylistItem { track: Some(full_track("One", &["X"])) },
        PlaylistItem { track: None },
        PlaylistItem { track: Some(full_track("Two", &["Y"])) },
    ];
    let tracks = SpotifyClient::collect_playlist_tracks(items);
    let queries: Vec<String> = tracks.into_iter().map(|t| t.into_search_query()).collect();
    assert_eq!(queries, vec!["One - X", "Two - Y"]);
}

#[test]
fn pager_follows_next_links() {
    let first = PlaylistTracks {
        items: vec![PlaylistItem { track: Some(full_track("One", &["X"])) }],
        next: Some("https://api.example/next".to_string()),
    };
    let mut pager = PlaylistPager::start(first);
    assert_eq!(pager.next_page(), Some("https://api.example/next".to_string()));
    assert_eq!(pager.next_page(), None);
    pager.receive(PlaylistPage {
        items: vec![
            PlaylistItem { track: None },
            PlaylistItem { track: Some(full_track("Two", &["Y"])) },
        ],
        next: None,
    });
    assert_eq!(pager.next_page(), None);
    let queries: Vec<String> = pager
        .into_tracks()
        .into_iter()
        .map(|t| t.into_search_query())
        .collect();
    assert_eq!(queries, vec!["One - X", "Two - Y"]);
}

#[test]
fn spotify_client_builds_playlist_urls() {
    let client = SpotifyClient::new("id", "secret", None).unwrap();
    assert_eq!(
        client.playlist_url("abc"),
        "https://api.spotify.com/v1/playlists/abc"
    );
    assert_eq!(client.client_id(), "id");
    assert_eq!(client.client_secret(), "secret");
    assert_eq!(client.token_url(), "https://accounts.spotify.com/api/token");
    assert_eq!(
        client.playlist_fields(),
        "tracks.items(track(name,artists(name))),tracks.next"
    );
    let local = SpotifyClient::new("id", "secret", Some("http://localhost:9")).unwrap();
    assert_eq!(local.playlist_url("p"), "http://localhost:9/playlists/p");
}

#[test]
fn token_cache_serves_only_fresh_tokens() {
    let mut cache = TokenCache::new();
    assert_eq!(cache.valid_token(0), None);
    cache.store("tok".to_string(), 100);
    assert_eq!(cache.valid_token(99), Some("tok".to_string()));
    assert_eq!(cache.valid_token(100), None);
}

fn itunes_track(preview: Option<&str>) -> ItunesTrack {
    ItunesTrack {
        artist_name: "Artist".to_string(),
        track_name: "Title".to_string(),
        preview_url: preview.map(|p| p.to_string()),
    }
}

#[test]
fn preview_comes_from_the_first_result() {
    let response = ItunesSearchResponse {
        results: vec![
            itunes_track(Some("https://audio.example.com/a.m4a")),
            itunes_track(Some("https://audio.example.com/b.m4a")),
        ],
    };
    let preview = ItunesClient::preview_from_response(response).unwrap().unwrap();
    assert_eq!(preview.title(), "Title");
    assert_eq!(preview.artist(), "Artist");
    assert_eq!(preview.preview_url().as_str(), "https://audio.example.com/a.m4a");
}

#[test]
fn no_preview_without_results_or_address() {
    let empty = ItunesSearchResponse { results: Vec::new() };
    assert!(ItunesClient::preview_from_response(empty).unwrap().is_none());
    let silent = ItunesSearchResponse { results: vec![itunes_track(None)] };
    assert!(ItunesClient::preview_from_response(silent).unwrap().is_none());
}

#[test]
fn invalid_preview_address_is_an_error() {
    let broken = ItunesSearchResponse { results: vec![itunes_track(Some("::nonsense"))] };
    assert!(matches!(
        ItunesClient::preview_from_response(broken),
        Err(ItunesClientError::InvalidPreviewUrl(_))
    ));
}

#[test]
fn itunes_search_request() {
    let client = ItunesClient::new(None);
    assert_eq!(client.search_url(), "https://itunes.apple.com/search");
    assert_eq!(
        client.search_params("Song - Band"),
        vec![("term", "Song - Band"), ("media", "music"), ("entity", "song"), ("limit", "1")]
    );
    let local = ItunesClient::new(Some("http://localhost:1"));
    assert_eq!(local.search_url(), "http://localhost:1/search");
}

#[test]
fn truncate_error_body_stays_within_518_bytes() {
    let body = format!("aaa{}", "😀".repeat(200));
    let shortened = SpotifyClient::truncate_error_body(&body);
    assert_eq!(shortened.len(), 518);
    assert_eq!(shortened, format!("aaa{}...", "😀".repeat(128)));
}
