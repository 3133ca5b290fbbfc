//! iTunes: the search models, and the choice of a playable preview from a
//! search answer.
use crate::links::{parsed_url, Url};
use crate::text::concat2;
use vstd::prelude::*;

verus! {

/// A track found by an earlier form of the search.
#[derive(Debug, Clone)]
pub struct TrackInfo {
    pub track_name: String,
    pub artist_name: String,
    pub preview_url: String,
    pub is_streamable: bool,
}

/// The answer of the iTunes search.
#[derive(Debug)]
pub struct ItunesSearchResponse {
    pub results: Vec<ItunesTrack>,
}

/// A track in the answer of the iTunes search.
#[derive(Debug, Clone)]
pub struct ItunesTrack {
    pub artist_name: String,
    pub track_name: String,
    pub preview_url: Option<String>,
}

/// A track that has a playable preview.
#[derive(Debug, Clone)]
pub struct PreviewTrack {
    title: String,
    artist: String,
    preview_url: Url,
}

/// The content of a preview track.
pub struct PreviewView {
    pub title: Seq<char>,
    pub artist: Seq<char>,
    pub preview_url: (Seq<char>, Option<Seq<char>>, Option<Seq<Seq<char>>>),
}

impl View for PreviewTrack {
    type V = PreviewView;

    closed spec fn view(&self) -> PreviewView {
        PreviewView { title: self.title@, artist: self.artist@, preview_url: self.preview_url@ }
    }
}

impl PreviewTrack {
    pub fn new(title: String, artist: String, preview_url: Url) -> (r: Self)
        ensures
            r@ == (PreviewView { title: title@, artist: artist@, preview_url: preview_url@ }),
    {
        PreviewTrack { title, artist, preview_url }
    }

    pub fn title(&self) -> (r: &str)
        ensures
            r@ == self@.title,
    {
        self.title.as_str()
    }

    pub fn artist(&self) -> (r: &str)
        ensures
            r@ == self@.artist,
    {
        self.artist.as_str()
    }

    pub fn preview_url(&self) -> (r: &Url)
        ensures
            r@ == self@.preview_url,
    {
        &self.preview_url
    }

    /// The title, the artist and the preview address, taken apart.
    pub fn into_parts(self) -> (r: (String, String, Url))
        ensures
            r.0@ == self@.title,
            r.1@ == self@.artist,
            r.2@ == self@.preview_url,
    {
        (self.title, self.artist, self.preview_url)
    }
}

/// Why a search for a preview failed.
#[derive(Debug)]
pub enum ItunesClientError {
    RequestFailed(String),
    RequestUnsuccessful,
    InvalidResponseBody(String),
    InvalidPreviewUrl(::url::ParseError),
}

/// What a search answer yields: nothing when it has no result or its first
/// result has no preview; the preview of the first result when its address
/// parses; and an error (`None` here) when it does not.
pub open spec fn preview_of(results: Seq<ItunesTrack>) -> Option<Option<PreviewView>> {
    if results.len() == 0 {
        Some(None)
    } else {
        let track = results[0];
        match track.preview_url {
            None => Some(None),
            Some(u) => match parsed_url(u@) {
                None => None,
                Some(url) => Some(
                    Some(
                        PreviewView {
                            title: track.track_name@,
                            artist: track.artist_name@,
                            preview_url: url,
                        },
                    ),
                ),
            },
        }
    }
}

/// The address of the iTunes search.
pub open spec fn default_itunes_base_url() -> Seq<char> {
    "https://itunes.apple.com"@
}

/// The iTunes search endpoint.
#[derive(Debug, Clone)]
pub struct ItunesClient {
    base_url: String,
}

impl ItunesClient {
    /// The base URL of the service.
    pub closed spec fn base(&self) -> Seq<char> {
        self.base_url@
    }

    /// A client of `base_url`, or of the iTunes service when none is given.
    pub fn new(base_url: Option<&str>) -> (r: Self)
        ensures
            r.base() == match base_url {
                Some(b) => b@,
                None => default_itunes_base_url(),
            },
    {
        let base = match base_url {
            Some(b) => String::from_str(b),
            None => String::from_str("https://itunes.apple.com"),
        };
        ItunesClient { base_url: base }
    }

    /// The address of the search.
    pub fn search_url(&self) -> (r: String)
        ensures
            r@ == self.base() + "/search"@,
    {
        concat2(self.base_url.as_str(), "/search")
    }

    /// The query of a search for one song matching `query`.
    pub fn search_params<'a>(&self, query: &'a str) -> (r: Vec<(&'a str, &'a str)>)
        ensures
            r@.len() == 4,
            r@[0].0@ == "term"@ && r@[0].1@ == query@,
            r@[1].0@ == "media"@ && r@[1].1@ == "music"@,
            r@[2].0@ == "entity"@ && r@[2].1@ == "song"@,
            r@[3].0@ == "limit"@ && r@[3].1@ == "1"@,
    {
        vec![("term", query), ("media", "music"), ("entity", "song"), ("limit", "1")]
    }

    /// The preview that a search answer yields, if any.
    pub fn preview_from_response(response: ItunesSearchResponse) -> (r: Result<
        Option<PreviewTrack>,
        ItunesClientError,
    >)
        ensures
            match r {
                Ok(None) => preview_of(response.results@) == Some(None::<PreviewView>),
                Ok(Some(p)) => preview_of(response.results@) == Some(Some(p@)),
                Err(ItunesClientError::InvalidPreviewUrl(_)) => preview_of(response.results@) is None,
                Err(_) => false,
            },
    {
        if response.results.len() == 0 {
            return Ok(None);
        }
        let track = &response.results[0];
        let address = match &track.preview_url {
            Some(u) => u,
            None => return Ok(None),
        };
        let preview_url = match Url::parse(address.as_str()) {
            Ok(u) => u,
            Err(e) => return Err(ItunesClientError::InvalidPreviewUrl(e)),
        };
        Ok(
            Some(
                PreviewTrack::new(
                    track.track_name.clone(),
                    track.artist_name.clone(),
                    preview_url,
                ),
            ),
        )
    }
}

} // verus!
