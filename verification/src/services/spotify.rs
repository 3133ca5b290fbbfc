//! Spotify: the playlist models, the reading of playlist links, and the
//! decisions behind fetching a playlist page by page.
use crate::links::Url;
use crate::text::{
    concat2, join_strings, joined, same_text, string_views, trim, trimmed,
};
use vstd::prelude::*;

verus! {

/// The answer to a token request.
#[derive(Debug, Clone)]
pub struct TokenResponse {
    pub access_token: String,
    pub expires_in: i32,
}

/// The first page of a playlist's tracks, and the link to the next page.
#[derive(Debug)]
pub struct PlaylistTracks {
    pub items: Vec<PlaylistItem>,
    pub next: Option<String>,
}

/// A page of a playlist's tracks after the first, and the link to the next page.
#[derive(Debug)]
pub struct PlaylistPage {
    pub items: Vec<PlaylistItem>,
    pub next: Option<String>,
}

/// An entry of a playlist; its track is missing when it is no longer available.
#[derive(Debug)]
pub struct PlaylistItem {
    pub track: Option<FullTrack>,
}

/// A track as Spotify describes it.
#[derive(Debug)]
pub struct FullTrack {
    pub name: String,
    pub artists: Vec<Artist>,
}

/// An artist as Spotify describes it.
#[derive(Debug)]
pub struct Artist {
    pub name: String,
}

/// A playlist with its first page of tracks.
#[derive(Debug)]
pub struct PlaylistResponse {
    pub tracks: PlaylistTracks,
}

/// A track's title and the names of its artists.
pub struct TrackNames {
    pub title: Seq<char>,
    pub artists: Seq<Seq<char>>,
}

/// The names of a Spotify track.
pub open spec fn full_track_names(track: FullTrack) -> TrackNames {
    TrackNames { title: track.name@, artists: track.artists@.map_values(|a: Artist| a.name@) }
}

/// The text searched for to find a track elsewhere: "title - artist, artist".
pub open spec fn search_query(track: TrackNames) -> Seq<char> {
    track.title + " - "@ + joined(track.artists, ", "@)
}

/// The tracks that the entries of a playlist page stand for, in order,
/// leaving out the entries without a track.
pub open spec fn page_tracks(items: Seq<PlaylistItem>) -> Seq<TrackNames> {
    items.filter_map(
        |item: PlaylistItem|
            match item.track {
                Some(t) => Some(full_track_names(t)),
                None => None,
            },
    )
}

/// A track of a playlist: its title and its artists.
#[derive(Debug, Clone)]
pub struct PlaylistTrack {
    title: String,
    artists: Vec<String>,
}

impl View for PlaylistTrack {
    type V = TrackNames;

    closed spec fn view(&self) -> TrackNames {
        TrackNames { title: self.title@, artists: string_views(self.artists@) }
    }
}

impl PlaylistTrack {
    /// The text to search for this track: its title, " - ", and its artists
    /// separated by ", ".
    pub fn into_search_query(self) -> (r: String)
        ensures
            r@ == search_query(self@),
    {
        self.search_query()
    }

    /// The text to search for this track, leaving the track in place.
    pub fn search_query(&self) -> (r: String)
        ensures
            r@ == search_query(self@),
    {
        let head = concat2(self.title.as_str(), " - ");
        let artists = join_strings(&self.artists, ", ");
        concat2(head.as_str(), artists.as_str())
    }

    /// The playlist track for a Spotify track.
    pub fn from(track: FullTrack) -> (r: Self)
        ensures
            r@ == full_track_names(track),
    {
        let ghost all = track.artists@;
        let ghost names = all.map_values(|a: Artist| a.name@);
        let mut artists = track.artists;
        let mut out: Vec<String> = Vec::new();
        while artists.len() > 0
            invariant
                out.len() + artists.len() == all.len(),
                artists@ == all.skip(out.len() as int),
                string_views(out@) == names.take(out.len() as int),
                names == all.map_values(|a: Artist| a.name@),
            decreases artists.len(),
        {
            let artist = artists.remove(0);
            let ghost k = out.len() as int;
            assert(artist == all[k]);
            out.push(artist.name);
            assert(all.skip(k + 1) =~= all.skip(k).drop_first());
            assert(string_views(out@) =~= names.take(k + 1));
        }
        assert(names.take(all.len() as int) =~= names);
        PlaylistTrack { title: track.name, artists: out }
    }
}

/// Why a playlist could not be fetched.
#[derive(Debug, Clone)]
pub enum SpotifyClientError {
    InvalidLink(Url),
    MalformedUrl(String),
    NotPlaylistLink(Url),
    UnexpectedSegment(String),
    PlaylistIdMissing,
    AuthenticationRequestFailed(String),
    AuthenticationRejected(u16),
    AuthenticationResponseInvalid(String),
    FailedToRetrievePlaylistTracks { status: u16, body: String },
    InvalidPlaylistResponse(String),
    RequestFailed(String),
}

/// What is wrong with a link that is no Spotify playlist link.
pub enum LinkProblem {
    InvalidLink,
    MalformedUrl(Seq<char>),
    NotPlaylistLink,
    UnexpectedSegment(Seq<char>),
    PlaylistIdMissing,
}

/// The playlist id of a link `https://open.spotify.com/playlist/<id>`, or
/// what is wrong with the link.
pub open spec fn playlist_id_of(
    url: (Seq<char>, Option<Seq<char>>, Option<Seq<Seq<char>>>),
) -> Result<Seq<char>, LinkProblem> {
    if url.1 != Some("open.spotify.com"@) {
        Err(LinkProblem::InvalidLink)
    } else {
        match url.2 {
            None => Err(LinkProblem::MalformedUrl(url.0)),
            Some(segments) => if segments.len() == 0 || segments[0] != "playlist"@ {
                Err(LinkProblem::NotPlaylistLink)
            } else if segments.len() < 2 {
                Err(LinkProblem::PlaylistIdMissing)
            } else if segments.len() > 2 {
                Err(LinkProblem::UnexpectedSegment(segments[2]))
            } else {
                Ok(segments[1])
            },
        }
    }
}

/// How many bytes of an error body are kept at most.
pub const MAX_ERROR_BODY_LEN: usize = 512;

/// The number of bytes of a character in UTF-8.
pub open spec fn utf8_width(c: char) -> nat {
    vstd::utf8::encode_scalar(c as u32).len()
}

/// The leading characters of `s` that start before `budget` bytes.
pub open spec fn chars_within(s: Seq<char>, budget: int) -> Seq<char>
    decreases s.len(),
{
    if s.len() == 0 || budget <= 0 {
        Seq::empty()
    } else {
        seq![s[0]] + chars_within(s.drop_first(), budget - utf8_width(s[0]))
    }
}

/// An error body as it is logged: trimmed; a placeholder when nothing is
/// left; cut after the characters that start within the first 512 bytes,
/// with "..." appended, when it is longer than that.
pub open spec fn shortened_error_body(body: Seq<char>) -> Seq<char> {
    let t = trimmed(body);
    if t.len() == 0 {
        "<empty response body>"@
    } else if vstd::utf8::encode_utf8(t).len() <= MAX_ERROR_BODY_LEN {
        t
    } else {
        chars_within(t, MAX_ERROR_BODY_LEN as int) + "..."@
    }
}

/// The query fields asked for with the first page of a playlist.
pub open spec fn playlist_fields() -> Seq<char> {
    "tracks.items(track(name,artists(name))),tracks.next"@
}

/// The Spotify endpoints the client talks to and its credentials.
#[derive(Debug, Clone)]
pub struct SpotifyClient {
    base_url: String,
    client_id: String,
    client_secret: String,
}

/// The address of the Spotify Web API.
pub open spec fn default_base_url() -> Seq<char> {
    "https://api.spotify.com/v1"@
}

/// The address where client tokens are obtained.
pub open spec fn token_url() -> Seq<char> {
    "https://accounts.spotify.com/api/token"@
}

impl SpotifyClient {
    /// The base URL of the API.
    pub closed spec fn base(&self) -> Seq<char> {
        self.base_url@
    }

    /// The client id.
    pub closed spec fn id(&self) -> Seq<char> {
        self.client_id@
    }

    /// The client secret.
    pub closed spec fn secret(&self) -> Seq<char> {
        self.client_secret@
    }

    /// A client with the given credentials, talking to `base_url`, or to the
    /// Spotify Web API when none is given.
    pub fn new(client_id: &str, client_secret: &str, base_url: Option<&str>) -> (r: Result<
        Self,
        SpotifyClientError,
    >)
        ensures
            r is Ok,
            r matches Ok(c) ==> c.id() == client_id@ && c.secret() == client_secret@ && c.base()
                == match base_url {
                Some(b) => b@,
                None => default_base_url(),
            },
    {
        let base = match base_url {
            Some(b) => String::from_str(b),
            None => String::from_str("https://api.spotify.com/v1"),
        };
        Ok(
            SpotifyClient {
                base_url: base,
                client_id: String::from_str(client_id),
                client_secret: String::from_str(client_secret),
            },
        )
    }

    pub fn client_id(&self) -> (r: &str)
        ensures
            r@ == self.id(),
    {
        self.client_id.as_str()
    }

    pub fn client_secret(&self) -> (r: &str)
        ensures
            r@ == self.secret(),
    {
        self.client_secret.as_str()
    }

    /// Where client tokens are requested.
    pub fn token_url(&self) -> (r: &'static str)
        ensures
            r@ == token_url(),
    {
        "https://accounts.spotify.com/api/token"
    }

    /// The address of the first page of a playlist.
    pub fn playlist_url(&self, playlist_id: &str) -> (r: String)
        ensures
            r@ == self.base() + "/playlists/"@ + playlist_id@,
    {
        let head = concat2(self.base_url.as_str(), "/playlists/");
        concat2(head.as_str(), playlist_id)
    }

    /// The fields asked for with the first page of a playlist.
    pub fn playlist_fields(&self) -> (r: &'static str)
        ensures
            r@ == playlist_fields(),
    {
        "tracks.items(track(name,artists(name))),tracks.next"
    }

    /// The tracks of a page of entries, leaving out entries without a track.
    pub fn collect_playlist_tracks(items: Vec<PlaylistItem>) -> (r: Vec<PlaylistTrack>)
        ensures
            r@.map_values(|t: PlaylistTrack| t@) == page_tracks(items@),
    {
        let ghost all = items@;
        let ghost f = |item: PlaylistItem|
            match item.track {
                Some(t) => Some(full_track_names(t)),
                None => None,
            };
        let mut rest = items;
        let mut out: Vec<PlaylistTrack> = Vec::new();
        let ghost mut k: int = 0;
        while rest.len() > 0
            invariant
                0 <= k <= all.len(),
                rest@ == all.skip(k),
                out@.map_values(|t: PlaylistTrack| t@) == all.take(k).filter_map(f),
                f == (|item: PlaylistItem|
                    match item.track {
                        Some(t) => Some(full_track_names(t)),
                        None => None,
                    }),
            decreases rest.len(),
        {
            let item = rest.remove(0);
            assert(item == all[k]);
            proof {
                all.lemma_filter_map_take_succ(f, k);
            }
            match item.track {
                Some(track) => {
                    out.push(PlaylistTrack::from(track));
                },
                None => {},
            }
            assert(all.skip(k + 1) =~= all.skip(k).drop_first());
            proof {
                k = k + 1;
            }
            assert(out@.map_values(|t: PlaylistTrack| t@) =~= all.take(k).filter_map(f));
        }
        assert(all.take(k) =~= all);
        out
    }

    /// A rejected response body as it is logged: trimmed, a placeholder when
    /// empty, and cut after 512 bytes (at a character boundary) with "..." appended.
    pub fn truncate_error_body(body: &str) -> (r: String)
        ensures
            r@ == shortened_error_body(body@),
    {
        let body = trim(body);
        if body.is_empty() {
            return String::from_str("<empty response body>");
        }
        let byte_len = body.as_bytes().len();
        assert(byte_len == vstd::utf8::encode_utf8(body@).len());
        if byte_len <= MAX_ERROR_BODY_LEN {
            return String::from_str(body);
        }
        let n = body.unicode_len();
        let mut i: usize = 0;
        let mut offset: usize = 0;
        assert(body@.skip(0) =~= body@);
        assert(body@.take(0) =~= Seq::<char>::empty());
        while i < n && offset < MAX_ERROR_BODY_LEN
            invariant
                i <= n,
                n == body@.len(),
                offset <= MAX_ERROR_BODY_LEN + 4,
                chars_within(body@, MAX_ERROR_BODY_LEN as int) == body@.take(i as int)
                    + chars_within(body@.skip(i as int), MAX_ERROR_BODY_LEN - offset),
            decreases n - i,
        {
            let c = body.get_char(i);
            let width = utf8_len(c);
            proof {
                let rest = body@.skip(i as int);
                assert(rest[0] == c);
                assert(rest.drop_first() =~= body@.skip(i + 1));
                assert(body@.take(i as int) + seq![c] =~= body@.take(i + 1));
            }
            offset = offset + width;
            i = i + 1;
        }
        proof {
            assert(chars_within(body@.skip(i as int), MAX_ERROR_BODY_LEN - offset) =~= Seq::<
                char,
            >::empty());
        }
        let kept = body.substring_char(0, i);
        concat2(kept, "...")
    }

    /// The playlist id of a link `https://open.spotify.com/playlist/<id>`.
    pub fn retrieve_playlist_id(playlist_url: Url) -> (r: Result<String, SpotifyClientError>)
        ensures
            match r {
                Ok(id) => playlist_id_of(playlist_url@) == Ok::<Seq<char>, LinkProblem>(id@),
                Err(SpotifyClientError::InvalidLink(u)) => u@ == playlist_url@
                    && playlist_id_of(playlist_url@) == Err::<Seq<char>, LinkProblem>(
                    LinkProblem::InvalidLink,
                ),
                Err(SpotifyClientError::MalformedUrl(text)) => playlist_id_of(playlist_url@)
                    == Err::<Seq<char>, LinkProblem>(LinkProblem::MalformedUrl(text@)),
                Err(SpotifyClientError::NotPlaylistLink(u)) => u@ == playlist_url@
                    && playlist_id_of(playlist_url@) == Err::<Seq<char>, LinkProblem>(
                    LinkProblem::NotPlaylistLink,
                ),
                Err(SpotifyClientError::UnexpectedSegment(segment)) => playlist_id_of(
                    playlist_url@,
                ) == Err::<Seq<char>, LinkProblem>(LinkProblem::UnexpectedSegment(segment@)),
                Err(SpotifyClientError::PlaylistIdMissing) => playlist_id_of(playlist_url@)
                    == Err::<Seq<char>, LinkProblem>(LinkProblem::PlaylistIdMissing),
                Err(_) => false,
            },
    {
        let is_spotify = match playlist_url.host_str() {
            Some(host) => same_text(host, "open.spotify.com"),
            None => false,
        };
        if !is_spotify {
            return Err(SpotifyClientError::InvalidLink(playlist_url));
        }
        let segments = match playlist_url.path_segments() {
            Some(segments) => segments,
            None => return Err(SpotifyClientError::MalformedUrl(String::from_str(playlist_url.as_str()))),
        };
        if segments.len() == 0 || !same_text(segments[0].as_str(), "playlist") {
            return Err(SpotifyClientError::NotPlaylistLink(playlist_url));
        }
        if segments.len() < 2 {
            return Err(SpotifyClientError::PlaylistIdMissing);
        }
        if segments.len() > 2 {
            return Err(SpotifyClientError::UnexpectedSegment(segments[2].clone()));
        }
        Ok(segments[1].clone())
    }
}

/// The UTF-8 length of two texts one after the other is the sum of their lengths.
proof fn lemma_utf8_len_concat(a: Seq<char>, b: Seq<char>)
    ensures
        vstd::utf8::encode_utf8(a + b).len() == vstd::utf8::encode_utf8(a).len()
            + vstd::utf8::encode_utf8(b).len(),
    decreases a.len(),
{
    if a.len() > 0 {
        lemma_utf8_len_concat(a.drop_first(), b);
        assert((a + b).drop_first() =~= a.drop_first() + b);
        assert((a + b)[0] == a[0]);
    } else {
        assert(a + b =~= b);
    }
}

/// The characters that start within `budget` bytes take at most three bytes more.
proof fn lemma_chars_within_bytes(s: Seq<char>, budget: int)
    ensures
        budget > 0 ==> vstd::utf8::encode_utf8(chars_within(s, budget)).len() <= budget + 3,
        budget <= 0 ==> chars_within(s, budget).len() == 0,
    decreases s.len(),
{
    if s.len() > 0 && budget > 0 {
        let w = utf8_width(s[0]);
        assert(1 <= w <= 4);
        lemma_chars_within_bytes(s.drop_first(), budget - w);
        let rest = chars_within(s.drop_first(), budget - w);
        lemma_utf8_len_concat(seq![s[0]], rest);
        let single = seq![s[0]];
        assert(single.drop_first() =~= Seq::<char>::empty());
        assert(vstd::utf8::encode_utf8(single.drop_first()).len() == 0);
        assert(single[0] == s[0]);
        assert(vstd::utf8::encode_utf8(single) == vstd::utf8::encode_scalar(s[0] as u32)
            + vstd::utf8::encode_utf8(single.drop_first()));
        assert(vstd::utf8::encode_utf8(single).len() == w);
    }
}

/// A link gives a playlist id exactly when its host is `open.spotify.com` and
/// its path is `/playlist/<id>`, with nothing more; the id is that last segment.
pub proof fn playlist_link_gives_its_id(
    url: (Seq<char>, Option<Seq<char>>, Option<Seq<Seq<char>>>),
    id: Seq<char>,
)
    ensures
        playlist_id_of(url) == Ok::<Seq<char>, LinkProblem>(id) <==> url.1 == Some(
            "open.spotify.com"@,
        ) && url.2 == Some(seq!["playlist"@, id]),
{
    if url.1 == Some("open.spotify.com"@) && url.2 is Some {
        let segments = url.2->0;
        if segments.len() == 2 && segments[0] == "playlist"@ && segments[1] == id {
            assert(segments =~= seq!["playlist"@, id]);
        }
    }
}

/// A logged error body is never longer than 518 bytes: 512, the at most
/// three more bytes of the last character kept, and "...".
pub proof fn error_body_is_bounded(body: Seq<char>)
    ensures
        vstd::utf8::encode_utf8(shortened_error_body(body)).len() <= MAX_ERROR_BODY_LEN + 6,
{
    let t = trimmed(body);
    reveal_strlit("<empty response body>");
    reveal_strlit("...");
    if t.len() == 0 {
        vstd::utf8::is_ascii_chars_encode_utf8("<empty response body>"@);
    } else if vstd::utf8::encode_utf8(t).len() > MAX_ERROR_BODY_LEN {
        lemma_chars_within_bytes(t, MAX_ERROR_BODY_LEN as int);
        lemma_utf8_len_concat(chars_within(t, MAX_ERROR_BODY_LEN as int), "..."@);
        vstd::utf8::is_ascii_chars_encode_utf8("..."@);
    }
}

/// The number of bytes of a character in UTF-8.
fn utf8_len(c: char) -> (r: usize)
    ensures
        r == utf8_width(c),
        1 <= r <= 4,
{
    let v = c as u32;
    if v <= 0x7F {
        1
    } else if v <= 0x7FF {
        2
    } else if v <= 0xFFFF {
        3
    } else {
        4
    }
}

/// The walk through the pages of a playlist: the address of the page to
/// fetch next, if any, and the tracks gathered so far.
pub struct PlaylistPager {
    next_page_url: Option<String>,
    tracks: Vec<PlaylistTrack>,
}

impl PlaylistPager {
    /// The address of the page to fetch next.
    pub closed spec fn pending(&self) -> Option<Seq<char>> {
        match self.next_page_url {
            Some(u) => Some(u@),
            None => None,
        }
    }

    /// The tracks gathered so far.
    pub closed spec fn gathered(&self) -> Seq<TrackNames> {
        self.tracks@.map_values(|t: PlaylistTrack| t@)
    }

    /// A walk that starts with the first page: its tracks, and the link to the next page.
    pub fn start(first_page: PlaylistTracks) -> (r: Self)
        ensures
            r.gathered() == page_tracks(first_page.items@),
            r.pending() == match first_page.next {
                Some(u) => Some(u@),
                None => None::<Seq<char>>,
            },
    {
        let tracks = SpotifyClient::collect_playlist_tracks(first_page.items);
        PlaylistPager { next_page_url: first_page.next, tracks }
    }

    /// Takes the address of the page to fetch next, if any; the walk is over when there is none.
    pub fn next_page(&mut self) -> (r: Option<String>)
        ensures
            match r {
                Some(u) => old(self).pending() == Some(u@),
                None => old(self).pending() is None,
            },
            final(self).pending() is None,
            final(self).gathered() == old(self).gathered(),
    {
        self.next_page_url.take()
    }

    /// Adds the tracks of a fetched page and remembers the link to the page after it.
    pub fn receive(&mut self, page: PlaylistPage)
        ensures
            final(self).gathered() == old(self).gathered() + page_tracks(page.items@),
            final(self).pending() == match page.next {
                Some(u) => Some(u@),
                None => None::<Seq<char>>,
            },
    {
        let mut more = SpotifyClient::collect_playlist_tracks(page.items);
        let ghost before = self.tracks@;
        self.tracks.append(&mut more);
        assert(self.tracks@.map_values(|t: PlaylistTrack| t@) =~= before.map_values(
            |t: PlaylistTrack| t@,
        ) + page_tracks(page.items@));
        self.next_page_url = page.next;
    }

    /// The tracks of every page fetched, in order.
    pub fn into_tracks(self) -> (r: Vec<PlaylistTrack>)
        ensures
            r@.map_values(|t: PlaylistTrack| t@) == self.gathered(),
    {
        self.tracks
    }
}

/// A client token and the moment, in nanoseconds of the caller's clock, at
/// which it expires.
pub struct TokenCache {
    current: Option<(String, u128)>,
}

impl TokenCache {
    /// The cached token and its expiry.
    pub closed spec fn cached(&self) -> Option<(Seq<char>, u128)> {
        match self.current {
            Some((t, e)) => Some((t@, e)),
            None => None,
        }
    }

    /// An empty cache.
    pub fn new() -> (r: Self)
        ensures
            r.cached() is None,
    {
        TokenCache { current: None }
    }

    /// The cached token, if it expires after `now`.
    pub fn valid_token(&self, now: u128) -> (r: Option<String>)
        ensures
            match self.cached() {
                Some((t, expires_at)) => if expires_at > now {
                    r matches Some(v) && v@ == t
                } else {
                    r is None
                },
                None => r is None,
            },
    {
        match &self.current {
            Some((token, expires_at)) => if *expires_at > now {
                Some(token.clone())
            } else {
                None
            },
            None => None,
        }
    }

    /// Keeps a new token until `expires_at`.
    pub fn store(&mut self, token: String, expires_at: u128)
        ensures
            final(self).cached() == Some((token@, expires_at)),
    {
        self.current = Some((token, expires_at));
    }
}

} // verus!
