//! The decisions of the task that plays a quiz round after round.
use crate::commands::MusicQuizCommandError;
use crate::games::music_quiz::quiz::MusicQuiz;
use crate::games::music_quiz::session::{session_finished, MusicQuizSession, SessionView};
use crate::games::music_quiz::track::{QuizTrack, TrackView};
use crate::games::state::GameStateError;
use vstd::prelude::*;

verus! {

/// A quiz ready to be played: the quiz, the voice channel to play in, and its tracks.
pub struct PreparedMusicQuiz {
    quiz: MusicQuiz,
    voice_channel_id: u64,
    tracks: Vec<QuizTrack>,
}

impl PreparedMusicQuiz {
    /// The quiz to play.
    pub closed spec fn quiz(&self) -> SessionView {
        self.quiz@
    }

    /// The voice channel to play in.
    pub closed spec fn voice_channel(&self) -> u64 {
        self.voice_channel_id
    }

    /// The tracks to play, in order.
    pub closed spec fn tracks(&self) -> Seq<TrackView> {
        self.tracks@.map_values(|t: QuizTrack| t@)
    }

    pub fn new(quiz: MusicQuiz, voice_channel_id: u64, tracks: Vec<QuizTrack>) -> (r: Self)
        ensures
            r.quiz() == quiz@,
            r.voice_channel() == voice_channel_id,
            r.tracks() == tracks@.map_values(|t: QuizTrack| t@),
    {
        PreparedMusicQuiz { quiz, voice_channel_id, tracks }
    }

    /// The quiz, the voice channel and the tracks, taken apart.
    pub fn into_parts(self) -> (r: (MusicQuiz, u64, Vec<QuizTrack>))
        ensures
            r.0@ == self.quiz(),
            r.1 == self.voice_channel(),
            r.2@.map_values(|t: QuizTrack| t@) == self.tracks(),
    {
        (self.quiz, self.voice_channel_id, self.tracks)
    }
}

/// Why a round ended.
#[derive(Debug, Clone, Copy, PartialEq, Eq, Structural)]
pub enum RoundEndReason {
    GuessedEarly,
    TimedOut,
}

impl RoundEndReason {
    pub fn as_str(&self) -> (r: &'static str)
        ensures
            r@ == match self {
                RoundEndReason::GuessedEarly => "guessed_early"@,
                RoundEndReason::TimedOut => "timed_out"@,
            },
    {
        match self {
            RoundEndReason::GuessedEarly => "guessed_early",
            RoundEndReason::TimedOut => "timed_out",
        }
    }
}

/// How many seconds a round lasts at most.
pub const ROUND_TIMEOUT_SECS: u64 = 25;

/// How many seconds the quiz pauses between rounds.
pub const DELAY_BETWEEN_ROUNDS_SECS: u64 = 3;

/// The pause after a round, in seconds: none after the last one.
pub fn pause_after_round(session: &MusicQuizSession) -> (r: u64)
    ensures
        r == if session_finished(session@) {
            0
        } else {
            DELAY_BETWEEN_ROUNDS_SECS
        },
{
    if session.is_finished() {
        0
    } else {
        DELAY_BETWEEN_ROUNDS_SECS
    }
}

/// The command error for a game that could not be registered.
pub fn registration_error(error: GameStateError) -> (r: MusicQuizCommandError)
    ensures
        r is GameAlreadyRunningInGuild,
{
    match error {
        GameStateError::GameAlreadyActiveInServer => MusicQuizCommandError::GameAlreadyRunningInGuild,
    }
}

/// What the task that plays a quiz does next.
#[derive(Debug, Clone, Copy, PartialEq, Eq, Structural)]
pub enum RunAction {
    /// Starts the round of the track at `index`.
    StartRound { index: usize },
    /// Announces the round in the text channel.
    AnnounceRound,
    /// Plays the preview of the track at `index` in the voice channel.
    PlayPreview { index: usize },
    /// Waits until the round is guessed or times out.
    AwaitRoundEnd,
    /// Stops the playback.
    StopPlayback,
    /// Reports who guessed what in the round.
    AnnounceCompletion,
    /// Pauses before the next round.
    PauseAfterRound,
    /// Announces the final results.
    AnnounceResults,
    /// The run is over, successfully or after a failed step.
    Finish { succeeded: bool },
}

/// How the last action went.
#[derive(Debug, Clone, Copy, PartialEq, Eq, Structural)]
pub enum RunEvent {
    Done,
    Failed,
}

/// The state of a run: the number of rounds, the current one, and the action
/// last handed out.
pub struct RunnerView {
    pub rounds: nat,
    pub round: nat,
    pub last: RunAction,
}

/// The state at the start of a run of `rounds` rounds: the first round is
/// started, or, with no round to play, the results are announced.
pub open spec fn run_start(rounds: nat) -> RunnerView {
    RunnerView {
        rounds,
        round: 0,
        last: if rounds == 0 {
            RunAction::AnnounceResults
        } else {
            RunAction::StartRound { index: 0 }
        },
    }
}

/// The state after the last action ended with `event`: a failed step ends the
/// run, a finished run stays finished, and otherwise each round goes through
/// its steps in turn before the next round or the results.
pub open spec fn run_next(v: RunnerView, event: RunEvent) -> RunnerView {
    match v.last {
        RunAction::Finish { .. } => v,
        _ => match event {
            RunEvent::Failed => RunnerView { last: RunAction::Finish { succeeded: false }, ..v },
            RunEvent::Done => match v.last {
                RunAction::StartRound { .. } => RunnerView { last: RunAction::AnnounceRound, ..v },
                RunAction::AnnounceRound => RunnerView {
                    last: RunAction::PlayPreview { index: v.round as usize },
                    ..v
                },
                RunAction::PlayPreview { .. } => RunnerView { last: RunAction::AwaitRoundEnd, ..v },
                RunAction::AwaitRoundEnd => RunnerView { last: RunAction::StopPlayback, ..v },
                RunAction::StopPlayback => RunnerView { last: RunAction::AnnounceCompletion, ..v },
                RunAction::AnnounceCompletion => RunnerView {
                    last: RunAction::PauseAfterRound,
                    ..v
                },
                RunAction::PauseAfterRound => if v.round + 1 < v.rounds {
                    RunnerView {
                        round: v.round + 1,
                        last: RunAction::StartRound { index: (v.round + 1) as usize },
                        ..v
                    }
                } else {
                    RunnerView { last: RunAction::AnnounceResults, ..v }
                },
                RunAction::AnnounceResults => RunnerView {
                    last: RunAction::Finish { succeeded: true },
                    ..v
                },
                RunAction::Finish { .. } => v,
            },
        },
    }
}

/// The decisions of the task that plays a quiz: which step comes next, given
/// how the last one went.
pub struct RoundRunner {
    rounds: usize,
    round: usize,
    last: RunAction,
}

impl View for RoundRunner {
    type V = RunnerView;

    closed spec fn view(&self) -> RunnerView {
        RunnerView { rounds: self.rounds as nat, round: self.round as nat, last: self.last }
    }
}

impl RoundRunner {
    /// The current round is within the run.
    pub closed spec fn wf(&self) -> bool {
        self.round < self.rounds || self.round == 0
    }

    /// A run of `rounds` rounds, one for each track.
    pub fn new(rounds: usize) -> (r: Self)
        ensures
            r@ == run_start(rounds as nat),
            r.wf(),
    {
        RoundRunner {
            rounds,
            round: 0,
            last: if rounds == 0 {
                RunAction::AnnounceResults
            } else {
                RunAction::StartRound { index: 0 }
            },
        }
    }

    /// The action to perform now.
    pub fn action(&self) -> (r: RunAction)
        ensures
            r == self@.last,
    {
        self.last
    }

    /// Moves on after the last action ended with `event`, and tells what to do next.
    pub fn next(&mut self, event: RunEvent) -> (r: RunAction)
        requires
            old(self).wf(),
        ensures
            final(self).wf(),
            final(self)@ == run_next(old(self)@, event),
            r == final(self)@.last,
    {
        let next = match self.last {
            RunAction::Finish { succeeded } => RunAction::Finish { succeeded },
            _ => match event {
                RunEvent::Failed => RunAction::Finish { succeeded: false },
                RunEvent::Done => match self.last {
                    RunAction::StartRound { .. } => RunAction::AnnounceRound,
                    RunAction::AnnounceRound => RunAction::PlayPreview { index: self.round },
                    RunAction::PlayPreview { .. } => RunAction::AwaitRoundEnd,
                    RunAction::AwaitRoundEnd => RunAction::StopPlayback,
                    RunAction::StopPlayback => RunAction::AnnounceCompletion,
                    RunAction::AnnounceCompletion => RunAction::PauseAfterRound,
                    RunAction::PauseAfterRound => if self.round + 1 < self.rounds {
                        self.round = self.round + 1;
                        RunAction::StartRound { index: self.round }
                    } else {
                        RunAction::AnnounceResults
                    },
                    RunAction::AnnounceResults => RunAction::Finish { succeeded: true },
                    RunAction::Finish { succeeded } => RunAction::Finish { succeeded },
                },
            },
        };
        self.last = next;
        next
    }
}

/// The action at step `phase` of the round at `index`.
pub open spec fn round_phase(phase: nat, index: nat) -> RunAction {
    if phase == 0 {
        RunAction::StartRound { index: index as usize }
    } else if phase == 1 {
        RunAction::AnnounceRound
    } else if phase == 2 {
        RunAction::PlayPreview { index: index as usize }
    } else if phase == 3 {
        RunAction::AwaitRoundEnd
    } else if phase == 4 {
        RunAction::StopPlayback
    } else if phase == 5 {
        RunAction::AnnounceCompletion
    } else {
        RunAction::PauseAfterRound
    }
}

/// The number of steps of a round.
pub open spec fn steps_per_round() -> nat {
    7
}

/// The action handed out after `k` steps of a run of `rounds` rounds that all succeeded.
pub open spec fn planned_action(rounds: nat, k: nat) -> RunAction {
    if k < rounds * steps_per_round() {
        round_phase(k % steps_per_round(), k / steps_per_round())
    } else if k == rounds * steps_per_round() {
        RunAction::AnnounceResults
    } else {
        RunAction::Finish { succeeded: true }
    }
}

/// The state of a run of `rounds` rounds after `k` steps that all succeeded.
pub open spec fn after_successes(rounds: nat, k: nat) -> RunnerView
    decreases k,
{
    if k == 0 {
        run_start(rounds)
    } else {
        run_next(after_successes(rounds, (k - 1) as nat), RunEvent::Done)
    }
}

proof fn lemma_successful_steps(rounds: nat, k: nat)
    ensures
        k < rounds * 7 ==> after_successes(rounds, k) == (RunnerView {
            rounds,
            round: k / 7,
            last: round_phase(k % 7, k / 7),
        }),
        after_successes(rounds, k).rounds == rounds,
        after_successes(rounds, k).last == planned_action(rounds, k),
    decreases k,
{
    if k > 0 {
        let j = (k - 1) as nat;
        lemma_successful_steps(rounds, j);
        if j < rounds * 7 {
            if j % 7 == 6 {
                assert(k % 7 == 0 && k / 7 == j / 7 + 1);
                assert(k < rounds * 7 ==> k / 7 < rounds);
                assert(k >= rounds * 7 ==> k == rounds * 7 && j / 7 + 1 == rounds);
            } else {
                assert(k % 7 == j % 7 + 1 && k / 7 == j / 7);
            }
        }
    }
}

/// When every step succeeds, a run plays its rounds in order, each one
/// started, announced, played, awaited, stopped, reported and followed by a
/// pause, then announces the results and finishes successfully.
pub proof fn successful_run_plays_rounds_in_order(rounds: nat, k: nat)
    ensures
        after_successes(rounds, k).last == planned_action(rounds, k),
{
    lemma_successful_steps(rounds, k);
}

/// A failed step ends the run unsuccessfully, and a finished run stays as it is.
pub proof fn failure_ends_the_run(v: RunnerView, event: RunEvent)
    ensures
        !(v.last is Finish) && event == RunEvent::Failed ==> run_next(v, event).last == (
        RunAction::Finish { succeeded: false }),
        v.last is Finish ==> run_next(v, event) == v,
{
}

} // verus!
