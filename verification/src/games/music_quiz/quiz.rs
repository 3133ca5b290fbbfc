//! The quiz: a session, the scoring of guesses, and the signal given when a
//! round is complete.
use crate::games::music_quiz::error::MusicQuizError;
use crate::games::music_quiz::matching::{judge, judge_guess, GuessResult};
use crate::games::music_quiz::session::{
    round_complete, score_of, with_points, MusicQuizSession, RoundView, SessionView,
};
use crate::games::music_quiz::track::QuizTrack;
use std::sync::Arc;
use tokio::sync::Notify;
use vstd::prelude::*;

verus! {

/// The waiting point on which the round runner sleeps until a round is complete.
#[verifier::external_type_specification]
#[verifier::external_body]
pub struct ExNotify(Notify);

/// Calls `tokio::sync::Notify::new`.
#[verifier::external_body]
fn new_notify() -> Notify {
    Notify::new()
}

/// Calls `tokio::sync::Notify::notify_waiters`, which wakes every task then
/// waiting on the notify; the wake-up is not modelled.
#[verifier::external_body]
fn notify_waiters(notify: &Notify) {
    notify.notify_waiters()
}

/// Calls `Arc::clone`, which gives another handle to the same value.
#[verifier::external_body]
fn share_notify(notify: &Arc<Notify>) -> (r: Arc<Notify>)
    ensures
        r == *notify,
{
    Arc::clone(notify)
}

/// What a guess earned.
#[derive(Debug, Clone, Copy, PartialEq, Eq, Structural)]
pub enum GuessOutcome {
    Both { points: u32 },
    Artist { points: u32 },
    Track { points: u32 },
    AlreadyGuessed,
    Wrong,
}

/// The effect of a judged guess of `user` on a round: the round after the
/// guess, the points added to the user's score, and what the user is told.
pub open spec fn guess_effect(round: RoundView, user: u64, result: GuessResult) -> (
    RoundView,
    nat,
    GuessOutcome,
) {
    match result {
        GuessResult::Both => match (round.track_guessed_by, round.artist_guessed_by) {
            (None, None) => (
                RoundView {
                    artist_guessed_by: Some(user),
                    track_guessed_by: Some(user),
                    ..round
                },
                3,
                GuessOutcome::Both { points: 3 },
            ),
            (Some(_), None) => (
                RoundView { track_guessed_by: Some(user), ..round },
                1,
                GuessOutcome::Track { points: 1 },
            ),
            (None, Some(_)) => (
                RoundView { artist_guessed_by: Some(user), ..round },
                1,
                GuessOutcome::Artist { points: 1 },
            ),
            (Some(_), Some(_)) => (round, 0, GuessOutcome::AlreadyGuessed),
        },
        GuessResult::TrackOnly => match round.track_guessed_by {
            Some(_) => (round, 0, GuessOutcome::AlreadyGuessed),
            None => if round.artist_guessed_by == Some(user) {
                (
                    RoundView { track_guessed_by: Some(user), ..round },
                    2,
                    GuessOutcome::Track { points: 3 },
                )
            } else {
                (
                    RoundView { track_guessed_by: Some(user), ..round },
                    1,
                    GuessOutcome::Track { points: 1 },
                )
            },
        },
        GuessResult::ArtistOnly => match round.artist_guessed_by {
            Some(_) => (round, 0, GuessOutcome::AlreadyGuessed),
            None => if round.track_guessed_by == Some(user) {
                (
                    RoundView { artist_guessed_by: Some(user), ..round },
                    2,
                    GuessOutcome::Artist { points: 3 },
                )
            } else {
                (
                    RoundView { artist_guessed_by: Some(user), ..round },
                    1,
                    GuessOutcome::Artist { points: 1 },
                )
            },
        },
        GuessResult::Neither => (round, 0, GuessOutcome::Wrong),
    }
}

/// How a guess is judged in a round: against the name and artist of its track.
pub open spec fn judged(round: RoundView, guess: Seq<char>) -> GuessResult {
    judge(guess, round.track.name, round.track.artist)
}

/// The session after `user` guesses `guess`, and the answer to the guess.
pub open spec fn guess_step(s: SessionView, user: u64, guess: Seq<char>) -> (
    SessionView,
    Result<GuessOutcome, MusicQuizError>,
) {
    match s.current_round {
        None => (s, Err(MusicQuizError::NoRoundInProgress)),
        Some(round) => {
            let (next, gain, outcome) = guess_effect(round, user, judged(round, guess));
            (
                SessionView {
                    current_round: Some(next),
                    scores: if gain > 0 {
                        with_points(s.scores, user, gain)
                    } else {
                        s.scores
                    },
                    ..s
                },
                Ok(outcome),
            )
        },
    }
}

/// Whether the guess leaves the user's score within a `u32`.
pub open spec fn guess_fits(s: SessionView, user: u64, guess: Seq<char>) -> bool {
    match s.current_round {
        None => true,
        Some(round) => score_of(s.scores, user) + guess_effect(round, user, judged(round, guess)).1
            <= u32::MAX,
    }
}

/// Whether a round is running and both its artist and its track have been guessed.
pub open spec fn round_is_over(s: SessionView) -> bool {
    match s.current_round {
        Some(round) => round_complete(round),
        None => false,
    }
}

/// The number of completion signals a guess gives: one when the round is
/// complete after it, none otherwise.
pub open spec fn signals_of_guess(s: SessionView, user: u64, guess: Seq<char>) -> nat {
    if round_is_over(guess_step(s, user, guess).0) {
        1
    } else {
        0
    }
}

/// The music quiz: its session, the notify that signals complete rounds, and
/// the count of the signals given on it.
pub struct MusicQuiz {
    session: MusicQuizSession,
    round_complete_notify: Arc<Notify>,
    signals: Ghost<nat>,
}

impl View for MusicQuiz {
    type V = SessionView;

    closed spec fn view(&self) -> SessionView {
        self.session@
    }
}

impl MusicQuiz {
    /// The notify on which the end of complete rounds is signalled.
    pub closed spec fn completion_signal(&self) -> Arc<Notify> {
        self.round_complete_notify
    }

    /// How many times the waiters on the completion notify have been woken.
    pub closed spec fn signals_sent(&self) -> nat {
        self.signals@
    }

    pub fn new(total_rounds: u32, participants: Vec<u64>) -> (r: Self)
        ensures
            r@ == crate::games::music_quiz::session::new_session(total_rounds, participants@),
            r.signals_sent() == 0,
    {
        MusicQuiz {
            session: MusicQuizSession::new(total_rounds, participants),
            round_complete_notify: Arc::new(new_notify()),
            signals: Ghost(0),
        }
    }

    pub fn session(&self) -> (r: &MusicQuizSession)
        ensures
            r@ == self@,
    {
        &self.session
    }

    pub fn session_mut(&mut self) -> (r: &mut MusicQuizSession)
        ensures
            r@ == old(self)@,
            final(self)@ == final(r)@,
            final(self).completion_signal() == old(self).completion_signal(),
            final(self).signals_sent() == old(self).signals_sent(),
    {
        &mut self.session
    }

    /// Scores the guess of a player in the current round.
    pub fn make_guess(&mut self, user_id: u64, guess: &str) -> (r: Result<
        GuessOutcome,
        MusicQuizError,
    >)
        requires
            guess_fits(old(self)@, user_id, guess@),
        ensures
            (final(self)@, r) == guess_step(old(self)@, user_id, guess@),
            final(self).completion_signal() == old(self).completion_signal(),
            final(self).signals_sent() == old(self).signals_sent() + signals_of_guess(
                old(self)@,
                user_id,
                guess@,
            ),
    {
        let ghost before = self.session@;
        let round = match self.session.current_round_mut() {
            Some(round) => round,
            None => return Err(MusicQuizError::NoRoundInProgress),
        };
        let guess_result = Self::evaluate_user_guess(guess, round.track());
        let ghost effect = guess_effect(round@, user_id, guess_result);

        let outcome = match guess_result {
            GuessResult::Both => match (round.track_guessed_by(), round.artist_guessed_by()) {
                (None, None) => {
                    round.set_artist_guessed_by(user_id);
                    round.set_track_guessed_by(user_id);
                    self.session.add_score(user_id, 3);
                    GuessOutcome::Both { points: 3 }
                },
                (Some(_), None) => {
                    round.set_track_guessed_by(user_id);
                    self.session.add_score(user_id, 1);
                    GuessOutcome::Track { points: 1 }
                },
                (None, Some(_)) => {
                    round.set_artist_guessed_by(user_id);
                    self.session.add_score(user_id, 1);
                    GuessOutcome::Artist { points: 1 }
                },
                (Some(_), Some(_)) => GuessOutcome::AlreadyGuessed,
            },
            GuessResult::TrackOnly => match round.track_guessed_by() {
                Some(_) => GuessOutcome::AlreadyGuessed,
                None => {
                    let points = if round.artist_guessed_by() == Some(user_id) {
                        round.set_track_guessed_by(user_id);
                        self.session.add_score(user_id, 2);
                        3
                    } else {
                        round.set_track_guessed_by(user_id);
                        self.session.add_score(user_id, 1);
                        1
                    };
                    GuessOutcome::Track { points }
                },
            },
            GuessResult::ArtistOnly => match round.artist_guessed_by() {
                Some(_) => GuessOutcome::AlreadyGuessed,
                None => {
                    let points = if round.track_guessed_by() == Some(user_id) {
                        round.set_artist_guessed_by(user_id);
                        self.session.add_score(user_id, 2);
                        3
                    } else {
                        round.set_artist_guessed_by(user_id);
                        self.session.add_score(user_id, 1);
                        1
                    };
                    GuessOutcome::Artist { points }
                },
            },
            GuessResult::Neither => GuessOutcome::Wrong,
        };

        if self.is_round_complete() {
            self.signal_round_complete();
        }

        Ok(outcome)
    }

    /// Wakes every task waiting on the completion notify.
    fn signal_round_complete(&mut self)
        ensures
            final(self)@ == old(self)@,
            final(self).completion_signal() == old(self).completion_signal(),
            final(self).signals_sent() == old(self).signals_sent() + 1,
    {
        notify_waiters(&self.round_complete_notify);
        self.signals = Ghost(self.signals@ + 1);
    }

    /// Scores a guess like `make_guess`, unless the points it earns would not
    /// fit in the player's score; then nothing changes and `None` comes back.
    pub fn try_make_guess(&mut self, user_id: u64, guess: &str) -> (r: Option<
        Result<GuessOutcome, MusicQuizError>,
    >)
        ensures
            guess_fits(old(self)@, user_id, guess@) ==> r == Some(
                guess_step(old(self)@, user_id, guess@).1,
            ) && final(self)@ == guess_step(old(self)@, user_id, guess@).0,
            guess_fits(old(self)@, user_id, guess@) ==> final(self).signals_sent() == old(
                self,
            ).signals_sent() + signals_of_guess(old(self)@, user_id, guess@),
            !guess_fits(old(self)@, user_id, guess@) ==> r is None && final(self)@ == old(self)@
                && final(self).signals_sent() == old(self).signals_sent(),
            final(self).completion_signal() == old(self).completion_signal(),
    {
        let gain: u32 = match self.session.current_round() {
            None => 0,
            Some(round) => {
                let result = Self::evaluate_user_guess(guess, round.track());
                Self::points_gained(round, user_id, result)
            },
        };
        if self.session.score(user_id) > u32::MAX - gain {
            return None;
        }
        Some(self.make_guess(user_id, guess))
    }

    /// The points a judged guess adds to the user's score in `round`.
    fn points_gained(round: &crate::games::music_quiz::session::Round, user_id: u64, result: GuessResult) -> (r: u32)
        ensures
            r == guess_effect(round@, user_id, result).1,
    {
        match result {
            GuessResult::Both => match (round.track_guessed_by(), round.artist_guessed_by()) {
                (None, None) => 3,
                (Some(_), Some(_)) => 0,
                _ => 1,
            },
            GuessResult::TrackOnly => match round.track_guessed_by() {
                Some(_) => 0,
                None => if round.artist_guessed_by() == Some(user_id) {
                    2
                } else {
                    1
                },
            },
            GuessResult::ArtistOnly => match round.artist_guessed_by() {
                Some(_) => 0,
                None => if round.track_guessed_by() == Some(user_id) {
                    2
                } else {
                    1
                },
            },
            GuessResult::Neither => 0,
        }
    }

    /// Another handle to the notify that signals complete rounds.
    pub fn notify_round_complete(&self) -> (r: Arc<Notify>)
        ensures
            r == self.completion_signal(),
    {
        share_notify(&self.round_complete_notify)
    }

    /// Judges a guess against the track of the round.
    fn evaluate_user_guess(guess: &str, current_track: &QuizTrack) -> (r: GuessResult)
        ensures
            r == judge(guess@, current_track@.name, current_track@.artist),
    {
        judge_guess(guess, current_track.name(), current_track.artist())
    }

    /// Whether a round is running and both its artist and its track have been guessed.
    pub fn is_round_complete(&self) -> (r: bool)
        ensures
            r == round_is_over(self@),
    {
        if let Some(round) = self.session.current_round() {
            round.is_complete()
        } else {
            false
        }
    }
}

} // verus!
