//! Choosing the tracks of a quiz: the playlist is shuffled, then its tracks
//! are looked up one after the other until enough of them have a preview.
use crate::commands::MusicQuizCommandError;
use crate::games::music_quiz::track::{QuizTrack, TrackView};
use crate::services::itunes::{PreviewTrack, PreviewView};
use crate::services::spotify::{search_query, FullTrack, PlaylistTrack, TrackNames, full_track_names};
use crate::text::{concat2, joined};
use rand::seq::SliceRandom;
use vstd::prelude::*;

verus! {

/// Calls `SliceRandom::shuffle` with the thread-local generator of `rand`.
/// The order it gives depends on chance; the contract states what holds of
/// every outcome: the tracks are the same, with the same multiplicities.
#[verifier::external_body]
fn shuffle_tracks(tracks: &mut Vec<PlaylistTrack>)
    ensures
        final(tracks)@.to_multiset() == old(tracks)@.to_multiset(),
{
    tracks.shuffle(&mut rand::rng());
}

/// A quiz track made from a found preview.
pub open spec fn quiz_track_of(p: PreviewView) -> TrackView {
    TrackView { name: p.title, artist: p.artist, preview_url: p.preview_url }
}

/// The quiz tracks that a sequence of lookups found, in order.
pub open spec fn found_tracks(answers: Seq<Option<PreviewView>>) -> Seq<TrackView> {
    answers.filter_map(
        |a: Option<PreviewView>|
            match a {
                Some(p) => Some(quiz_track_of(p)),
                None => None,
            },
    )
}

/// The choice of the tracks of a quiz, under way: the shuffled candidates,
/// how many of them have been looked up, and the quiz tracks found so far.
pub struct TrackSelection {
    candidates: Vec<PlaylistTrack>,
    looked_up: usize,
    awaiting_answer: bool,
    chosen: Vec<QuizTrack>,
    count: u32,
    answers: Ghost<Seq<Option<PreviewView>>>,
}

impl TrackSelection {
    /// The shuffled candidates.
    pub closed spec fn candidate_list(&self) -> Seq<PlaylistTrack> {
        self.candidates@
    }

    /// The names of the shuffled candidates.
    pub open spec fn candidates(&self) -> Seq<TrackNames> {
        self.candidate_list().map_values(|t: PlaylistTrack| t@)
    }

    /// How many candidates have been looked up (or are being looked up).
    pub closed spec fn looked_up(&self) -> nat {
        self.looked_up as nat
    }

    /// Whether a lookup was asked for and its answer has not come yet.
    pub closed spec fn awaiting_answer(&self) -> bool {
        self.awaiting_answer
    }

    /// The answers of the lookups so far.
    pub closed spec fn answers(&self) -> Seq<Option<PreviewView>> {
        self.answers@
    }

    /// The quiz tracks found so far.
    pub closed spec fn chosen(&self) -> Seq<TrackView> {
        self.chosen@.map_values(|t: QuizTrack| t@)
    }

    /// How many tracks the quiz needs.
    pub closed spec fn count(&self) -> u32 {
        self.count
    }

    /// What holds of every selection under way.
    pub closed spec fn well_formed(&self) -> bool {
        &&& self.looked_up <= self.candidates@.len()
        &&& self.answers@.len() + (if self.awaiting_answer {
            1int
        } else {
            0int
        }) == self.looked_up
        &&& self.chosen() == found_tracks(self.answers@)
        &&& self.chosen@.len() <= self.count
        &&& self.awaiting_answer ==> self.chosen@.len() < self.count
    }

    /// Whether more lookups are needed: fewer tracks than needed were found
    /// and some candidates are left.
    pub open spec fn wants_more(&self) -> bool {
        self.chosen().len() < self.count() && self.looked_up() < self.candidates().len()
    }

    /// A selection that asks for no more lookups has found as many tracks as
    /// needed, or has looked up every candidate; what it found are the
    /// previews of its answers, in order.
    pub proof fn lookups_end_when_done(&self)
        requires
            self.well_formed(),
            !self.awaiting_answer(),
            !self.wants_more(),
        ensures
            self.chosen().len() == self.count() || self.looked_up() == self.candidates().len(),
            self.chosen() == found_tracks(self.answers()),
            self.answers().len() == self.looked_up(),
    {
    }

    /// Takes the next candidate to look up, and gives the text to search for
    /// it; `None` once enough tracks were found or no candidate is left.
    pub fn next_query(&mut self) -> (r: Option<String>)
        requires
            old(self).well_formed(),
            !old(self).awaiting_answer(),
        ensures
            final(self).well_formed(),
            final(self).candidates() == old(self).candidates(),
            final(self).chosen() == old(self).chosen(),
            final(self).answers() == old(self).answers(),
            final(self).count() == old(self).count(),
            old(self).wants_more() ==> {
                &&& r matches Some(q) && q@ == search_query(
                    old(self).candidates()[old(self).looked_up() as int],
                )
                &&& final(self).looked_up() == old(self).looked_up() + 1
                &&& final(self).awaiting_answer()
            },
            !old(self).wants_more() ==> r is None && final(self).looked_up() == old(
                self,
            ).looked_up() && !final(self).awaiting_answer(),
    {
        if self.chosen.len() >= self.count as usize || self.looked_up >= self.candidates.len() {
            return None;
        }
        let query = self.candidates[self.looked_up].search_query();
        self.looked_up = self.looked_up + 1;
        self.awaiting_answer = true;
        Some(query)
    }

    /// Records the answer of the lookup asked for: a found preview becomes a quiz track.
    pub fn record(&mut self, found: Option<PreviewTrack>)
        requires
            old(self).well_formed(),
            old(self).awaiting_answer(),
        ensures
            final(self).well_formed(),
            !final(self).awaiting_answer(),
            final(self).candidates() == old(self).candidates(),
            final(self).looked_up() == old(self).looked_up(),
            final(self).count() == old(self).count(),
            final(self).answers() == old(self).answers().push(
                match found {
                    Some(p) => Some(p@),
                    None => None,
                },
            ),
            final(self).chosen() == old(self).chosen() + match found {
                Some(p) => seq![quiz_track_of(p@)],
                None => Seq::empty(),
            },
    {
        let ghost answer = if found is Some {
            Some(found->0@)
        } else {
            None::<PreviewView>
        };
        let ghost f = |a: Option<PreviewView>|
            match a {
                Some(p) => Some(quiz_track_of(p)),
                None => None,
            };
        let ghost before = self.answers@;
        proof {
            assert(before.push(answer).drop_last() =~= before);
            assert(found_tracks(before.push(answer)) == match f(answer) {
                Some(t) => found_tracks(before) + seq![t],
                None => found_tracks(before),
            });
        }
        match found {
            Some(preview) => {
                let (title, artist, preview_url) = preview.into_parts();
                self.chosen.push(QuizTrack::new(title, artist, preview_url));
            },
            None => {},
        }
        self.answers = Ghost(before.push(answer));
        self.awaiting_answer = false;
        assert(self.chosen() =~= found_tracks(self.answers@));
    }

    /// The chosen tracks, when there are enough of them.
    pub fn finish(self) -> (r: Result<Vec<QuizTrack>, MusicQuizCommandError>)
        requires
            self.well_formed(),
        ensures
            self.chosen().len() >= self.count() ==> (r matches Ok(v) && v@.map_values(
                |t: QuizTrack| t@,
            ) == self.chosen()),
            self.chosen().len() < self.count() ==> (r matches Err(
                MusicQuizCommandError::PlaylistContainsNotEnoughPreviewableSongs {
                    expected,
                    actual,
                },
            ) && expected == self.count() && actual == self.chosen().len()),
    {
        if self.chosen.len() < self.count as usize {
            let actual = self.chosen.len() as u32;
            return Err(
                MusicQuizCommandError::PlaylistContainsNotEnoughPreviewableSongs {
                    expected: self.count,
                    actual,
                },
            );
        }
        Ok(self.chosen)
    }
}

/// Prepares the tracks of a quiz from a playlist.
pub struct MusicQuizPreparationService;

impl MusicQuizPreparationService {
    /// Starts choosing `count` tracks from a playlist: the playlist must have
    /// at least `count` tracks; they are then shuffled.
    pub fn begin_selection(track_list: Vec<PlaylistTrack>, count: u32) -> (r: Result<
        TrackSelection,
        MusicQuizCommandError,
    >)
        ensures
            track_list@.len() < count ==> (r matches Err(
                MusicQuizCommandError::PlaylistContainsNotEnoughSongs { expected, actual },
            ) && expected == count && actual == track_list@.len()),
            track_list@.len() >= count ==> (r matches Ok(s) && {
                &&& s.well_formed()
                &&& !s.awaiting_answer()
                &&& s.looked_up() == 0
                &&& s.chosen() == Seq::<TrackView>::empty()
                &&& s.count() == count
                &&& s.candidate_list().to_multiset() == track_list@.to_multiset()
            }),
    {
        if track_list.len() < count as usize {
            let actual = track_list.len() as u32;
            return Err(MusicQuizCommandError::PlaylistContainsNotEnoughSongs { expected: count, actual });
        }
        let mut candidates = track_list;
        shuffle_tracks(&mut candidates);
        let selection = TrackSelection {
            candidates,
            looked_up: 0,
            awaiting_answer: false,
            chosen: Vec::new(),
            count,
            answers: Ghost(Seq::empty()),
        };
        assert(selection.chosen() =~= found_tracks(Seq::empty()));
        Ok(selection)
    }

    /// The text to search for a Spotify track: its name, " - ", and its
    /// artists separated by ", ".
    pub fn build_search_query(track: &FullTrack) -> (r: String)
        ensures
            r@ == search_query(full_track_names(*track)),
    {
        let ghost names = track.artists@.map_values(|a: crate::services::spotify::Artist| a.name@);
        let mut artists = String::new();
        let mut i: usize = 0;
        while i < track.artists.len()
            invariant
                i <= track.artists.len(),
                names == track.artists@.map_values(|a: crate::services::spotify::Artist| a.name@),
                artists@ == joined(names.take(i as int), ", "@),
            decreases track.artists.len() - i,
        {
            if i != 0 {
                artists.append(", ");
            }
            artists.append(track.artists[i].name.as_str());
            assert(names.take(i + 1).drop_last() =~= names.take(i as int));
            i = i + 1;
        }
        assert(names.take(track.artists.len() as int) =~= names);
        let head = concat2(track.name.as_str(), " - ");
        concat2(head.as_str(), artists.as_str())
    }
}

} // verus!
