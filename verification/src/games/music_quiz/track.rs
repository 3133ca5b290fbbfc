use crate::links::Url;
use vstd::prelude::*;

verus! {

/// A track of the quiz: its name, its artist and the address of a preview
/// that can be played.
#[derive(Debug, Clone)]
pub struct QuizTrack {
    name: String,
    artist: String,
    preview_url: Url,
}

/// The content of a quiz track.
pub struct TrackView {
    pub name: Seq<char>,
    pub artist: Seq<char>,
    pub preview_url: (Seq<char>, Option<Seq<char>>, Option<Seq<Seq<char>>>),
}

impl View for QuizTrack {
    type V = TrackView;

    closed spec fn view(&self) -> TrackView {
        TrackView { name: self.name@, artist: self.artist@, preview_url: self.preview_url@ }
    }
}

impl QuizTrack {
    pub fn new(name: String, artist: String, preview_url: Url) -> (r: Self)
        ensures
            r@ == (TrackView { name: name@, artist: artist@, preview_url: preview_url@ }),
    {
        QuizTrack { name, artist, preview_url }
    }

    pub fn name(&self) -> (r: &str)
        ensures
            r@ == self@.name,
    {
        self.name.as_str()
    }

    pub fn artist(&self) -> (r: &str)
        ensures
            r@ == self@.artist,
    {
        self.artist.as_str()
    }

    pub fn preview_url(&self) -> (r: &Url)
        ensures
            r@ == self@.preview_url,
    {
        &self.preview_url
    }
}

} // verus!
