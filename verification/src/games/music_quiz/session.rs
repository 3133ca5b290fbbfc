//! A quiz session: the round being played, the scores of the players and the
//! leaderboard built from them.
use crate::games::music_quiz::track::{QuizTrack, TrackView};
use std::collections::HashMap;
use vstd::prelude::*;

verus! {

broadcast use vstd::std_specs::hash::group_hash_axioms;

/// One round of the quiz: the track to guess, and who guessed its artist and its name.
#[derive(Debug, Clone)]
pub struct Round {
    track: QuizTrack,
    artist_guessed_by: Option<u64>,
    track_guessed_by: Option<u64>,
}

/// The content of a round.
pub struct RoundView {
    pub track: TrackView,
    pub artist_guessed_by: Option<u64>,
    pub track_guessed_by: Option<u64>,
}

/// A round that has just started: nobody has guessed anything yet.
pub open spec fn fresh_round(track: TrackView) -> RoundView {
    RoundView { track, artist_guessed_by: None, track_guessed_by: None }
}

/// A round is complete once both its artist and its track name have been guessed.
pub open spec fn round_complete(round: RoundView) -> bool {
    round.artist_guessed_by is Some && round.track_guessed_by is Some
}

impl View for Round {
    type V = RoundView;

    closed spec fn view(&self) -> RoundView {
        RoundView {
            track: self.track@,
            artist_guessed_by: self.artist_guessed_by,
            track_guessed_by: self.track_guessed_by,
        }
    }
}

impl Round {
    pub fn new(track: QuizTrack) -> (r: Self)
        ensures
            r@ == fresh_round(track@),
    {
        Round { track, artist_guessed_by: None, track_guessed_by: None }
    }

    pub fn track(&self) -> (r: &QuizTrack)
        ensures
            r@ == self@.track,
    {
        &self.track
    }

    pub fn artist_guessed_by(&self) -> (r: Option<u64>)
        ensures
            r == self@.artist_guessed_by,
    {
        self.artist_guessed_by
    }

    pub fn track_guessed_by(&self) -> (r: Option<u64>)
        ensures
            r == self@.track_guessed_by,
    {
        self.track_guessed_by
    }

    pub fn set_artist_guessed_by(&mut self, user_id: u64)
        ensures
            final(self)@ == (RoundView { artist_guessed_by: Some(user_id), ..old(self)@ }),
    {
        self.artist_guessed_by = Some(user_id);
    }

    pub fn set_track_guessed_by(&mut self, user_id: u64)
        ensures
            final(self)@ == (RoundView { track_guessed_by: Some(user_id), ..old(self)@ }),
    {
        self.track_guessed_by = Some(user_id);
    }

    pub fn is_complete(&self) -> (r: bool)
        ensures
            r == round_complete(self@),
    {
        self.artist_guessed_by.is_some() && self.track_guessed_by.is_some()
    }
}

/// The number of the round and the number of rounds in all.
#[derive(Debug, Clone, Copy, PartialEq, Eq, Structural)]
pub struct RoundProgress {
    pub round_number: u32,
    pub total_rounds: u32,
}

/// What there is to tell once a round is over.
#[derive(Debug, Clone)]
pub struct RoundCompletion {
    pub track_name: String,
    pub artist_name: String,
    pub artist_guessed_by: Option<u64>,
    pub track_guessed_by: Option<u64>,
}

/// A quiz session: the current round, the score of each player, how many
/// rounds have started, how many there are, and who takes part.
#[derive(Debug, Clone)]
pub struct MusicQuizSession {
    current_round: Option<Round>,
    scores: HashMap<u64, u32>,
    round_number: u32,
    total_rounds: u32,
    participants: Vec<u64>,
}

/// The content of a session.
pub struct SessionView {
    pub current_round: Option<RoundView>,
    pub scores: Map<u64, u32>,
    pub round_number: u32,
    pub total_rounds: u32,
    pub participants: Seq<u64>,
}

/// The score of a player: what the table holds, or zero for one who has none yet.
pub open spec fn score_of(scores: Map<u64, u32>, user_id: u64) -> nat {
    if scores.contains_key(user_id) {
        scores[user_id] as nat
    } else {
        0
    }
}

/// The score table once `points` have been added to a player's score.
pub open spec fn with_points(scores: Map<u64, u32>, user_id: u64, points: nat) -> Map<u64, u32> {
    scores.insert(user_id, (score_of(scores, user_id) + points) as u32)
}

/// A session that has just been created.
pub open spec fn new_session(total_rounds: u32, participants: Seq<u64>) -> SessionView {
    SessionView {
        current_round: None,
        scores: Map::empty(),
        round_number: 0,
        total_rounds,
        participants,
    }
}

/// The session once a new round with `track` has started.
pub open spec fn session_after_start(s: SessionView, track: TrackView) -> SessionView {
    SessionView {
        current_round: Some(fresh_round(track)),
        round_number: (s.round_number + 1) as u32,
        ..s
    }
}

/// A session is finished once as many rounds as planned have started.
pub open spec fn session_finished(s: SessionView) -> bool {
    s.round_number >= s.total_rounds
}

/// Each participant, in order, with their score.
pub open spec fn standings(participants: Seq<u64>, scores: Map<u64, u32>) -> Seq<(u64, u32)> {
    participants.map_values(|id: u64| (id, score_of(scores, id) as u32))
}

/// `order` arranges `input` into `out` with the scores from high to low, and
/// entries with equal scores in the order they had in `input`.
pub open spec fn stable_descending_arrangement(
    input: Seq<(u64, u32)>,
    out: Seq<(u64, u32)>,
    order: Seq<int>,
) -> bool {
    &&& order.len() == input.len()
    &&& out.len() == input.len()
    &&& forall|k: int| 0 <= k < order.len() ==> 0 <= #[trigger] order[k] < input.len()
    &&& forall|k: int, l: int|
        0 <= k < l < order.len() ==> #[trigger] order[k] != #[trigger] order[l]
    &&& forall|k: int| 0 <= k < out.len() ==> #[trigger] out[k] == input[order[k]]
    &&& forall|k: int, l: int|
        #![trigger out[k], out[l]]
        0 <= k < l < out.len() ==> out[k].1 > out[l].1 || (out[k].1 == out[l].1 && order[k]
            < order[l])
}

/// `out` holds the entries of `input` sorted by score from high to low, entries
/// with equal scores keeping their order: what a stable sort gives.
pub open spec fn sorted_by_score(input: Seq<(u64, u32)>, out: Seq<(u64, u32)>) -> bool {
    exists|order: Seq<int>| stable_descending_arrangement(input, out, order)
}

/// The leaderboard of a session.
pub open spec fn is_leaderboard(s: SessionView, board: Seq<(u64, u32)>) -> bool {
    sorted_by_score(standings(s.participants, s.scores), board)
}

impl View for MusicQuizSession {
    type V = SessionView;

    closed spec fn view(&self) -> SessionView {
        SessionView {
            current_round: match self.current_round {
                Some(r) => Some(r@),
                None => None,
            },
            scores: self.scores@,
            round_number: self.round_number,
            total_rounds: self.total_rounds,
            participants: self.participants@,
        }
    }
}

impl MusicQuizSession {
    pub fn new(total_rounds: u32, participants: Vec<u64>) -> (r: Self)
        ensures
            r@ == new_session(total_rounds, participants@),
    {
        MusicQuizSession {
            current_round: None,
            scores: HashMap::new(),
            round_number: 0,
            total_rounds,
            participants,
        }
    }

    pub fn start_round(&mut self, track: QuizTrack)
        requires
            old(self)@.round_number < u32::MAX,
        ensures
            final(self)@ == session_after_start(old(self)@, track@),
    {
        self.round_number = self.round_number + 1;
        self.current_round = Some(Round::new(track));
    }

    pub fn current_round(&self) -> (r: Option<&Round>)
        ensures
            match r {
                Some(round) => self@.current_round == Some(round@),
                None => self@.current_round is None,
            },
    {
        self.current_round.as_ref()
    }

    pub fn current_round_mut(&mut self) -> (r: Option<&mut Round>)
        ensures
            match r {
                Some(round) => {
                    &&& old(self)@.current_round == Some(round@)
                    &&& final(self)@ == (SessionView {
                        current_round: Some(final(round)@),
                        ..old(self)@
                    })
                },
                None => {
                    &&& old(self)@.current_round is None
                    &&& final(self)@ == old(self)@
                },
            },
    {
        self.current_round.as_mut()
    }

    pub fn round_number(&self) -> (r: u32)
        ensures
            r == self@.round_number,
    {
        self.round_number
    }

    pub fn total_rounds(&self) -> (r: u32)
        ensures
            r == self@.total_rounds,
    {
        self.total_rounds
    }

    /// The score of a player, zero for one who has not scored yet.
    pub fn score(&self, user_id: u64) -> (r: u32)
        ensures
            r == score_of(self@.scores, user_id),
    {
        match self.scores.get(&user_id) {
            Some(points) => *points,
            None => 0,
        }
    }

    pub fn add_score(&mut self, user_id: u64, points: u32)
        requires
            score_of(old(self)@.scores, user_id) + points <= u32::MAX,
        ensures
            final(self)@ == (SessionView {
                scores: with_points(old(self)@.scores, user_id, points as nat),
                ..old(self)@
            }),
    {
        let current = self.score(user_id);
        self.scores.insert(user_id, current + points);
    }

    pub fn is_finished(&self) -> (r: bool)
        ensures
            r == session_finished(self@),
    {
        self.round_number >= self.total_rounds
    }

    /// The round number and the number of rounds.
    pub fn round_progress(&self) -> (r: RoundProgress)
        ensures
            r.round_number == self@.round_number,
            r.total_rounds == self@.total_rounds,
    {
        RoundProgress { round_number: self.round_number, total_rounds: self.total_rounds }
    }

    /// What the current round came to, if a round has started.
    pub fn round_completion(&self) -> (r: Option<RoundCompletion>)
        ensures
            match (r, self@.current_round) {
                (Some(c), Some(round)) => {
                    &&& c.track_name@ == round.track.name
                    &&& c.artist_name@ == round.track.artist
                    &&& c.artist_guessed_by == round.artist_guessed_by
                    &&& c.track_guessed_by == round.track_guessed_by
                },
                (None, None) => true,
                _ => false,
            },
    {
        match self.current_round() {
            Some(round) => Some(
                RoundCompletion {
                    track_name: String::from_str(round.track().name()),
                    artist_name: String::from_str(round.track().artist()),
                    artist_guessed_by: round.artist_guessed_by(),
                    track_guessed_by: round.track_guessed_by(),
                },
            ),
            None => None,
        }
    }

    /// Every participant with their score, the highest scores first; players
    /// with equal scores keep the order in which they joined.
    pub fn get_leaderboard(&self) -> (r: Vec<(u64, u32)>)
        ensures
            is_leaderboard(self@, r@),
    {
        let ghost input = standings(self@.participants, self@.scores);
        let mut board: Vec<(u64, u32)> = Vec::new();
        let ghost mut order: Seq<int> = Seq::empty();
        let n = self.participants.len();
        let mut i: usize = 0;
        while i < n
            invariant
                i <= n,
                n == self@.participants.len(),
                input == standings(self@.participants, self@.scores),
                stable_descending_arrangement(input.take(i as int), board@, order),
            decreases n - i,
        {
            let id = self.participants[i];
            let entry = (id, self.score(id));
            assert(entry == input[i as int]);
            let mut j: usize = 0;
            while j < board.len() && board[j].1 >= entry.1
                invariant
                    j <= board.len(),
                    forall|m: int| 0 <= m < j ==> board@[m].1 >= entry.1,
                decreases board.len() - j,
            {
                j = j + 1;
            }
            proof {
                lemma_insert_keeps_arrangement(input, i as int, board@, order, j as int);
            }
            board.insert(j, entry);
            proof {
                order = order.insert(j as int, i as int);
            }
            i = i + 1;
        }
        assert(input.take(n as int) =~= input);
        board
    }
}

/// Inserting entry `i` of `input` at position `j` of an arrangement of the
/// first `i` entries, where `j` is past every entry with a score at least as
/// high and before every lower one, arranges the first `i + 1` entries.
proof fn lemma_insert_keeps_arrangement(
    input: Seq<(u64, u32)>,
    i: int,
    out: Seq<(u64, u32)>,
    order: Seq<int>,
    j: int,
)
    requires
        0 <= i < input.len(),
        stable_descending_arrangement(input.take(i), out, order),
        0 <= j <= out.len(),
        forall|m: int| 0 <= m < j ==> out[m].1 >= input[i].1,
        j < out.len() ==> out[j].1 < input[i].1,
    ensures
        stable_descending_arrangement(
            input.take(i + 1),
            out.insert(j, input[i]),
            order.insert(j, i),
        ),
{
    let x = input[i];
    let pre = input.take(i);
    let inp = input.take(i + 1);
    let out2 = out.insert(j, x);
    let order2 = order.insert(j, i);
    assert forall|k: int| 0 <= k < order2.len() implies 0 <= #[trigger] order2[k] < inp.len() by {
        if k < j {
            assert(order2[k] == order[k]);
        } else if k > j {
            assert(order2[k] == order[k - 1]);
        }
    }
    assert forall|k: int, l: int|
        0 <= k < l < order2.len() implies #[trigger] order2[k] != #[trigger] order2[l] by {
        if k < j && l < j {
            assert(order[k] != order[l]);
        } else if k > j && l > j {
            assert(order[k - 1] != order[l - 1]);
        } else if k == j {
            assert(order2[l] == order[l - 1]);
            assert(order[l - 1] < pre.len());
        } else if l == j {
            assert(order2[k] == order[k]);
            assert(order[k] < pre.len());
        } else {
            assert(order2[k] == order[k]);
            assert(order2[l] == order[l - 1]);
            assert(order[k] != order[l - 1]);
        }
    }
    assert forall|k: int| 0 <= k < out2.len() implies #[trigger] out2[k] == inp[order2[k]] by {
        if k < j {
            assert(out2[k] == out[k]);
            assert(out[k] == pre[order[k]]);
            assert(order[k] < pre.len());
        } else if k > j {
            assert(out2[k] == out[k - 1]);
            assert(out[k - 1] == pre[order[k - 1]]);
            assert(order[k - 1] < pre.len());
        }
    }
    assert forall|k: int, l: int|
        #![trigger out2[k], out2[l]]
        0 <= k < l < out2.len() implies out2[k].1 > out2[l].1 || (out2[k].1 == out2[l].1
            && order2[k] < order2[l]) by {
        if k < j && l < j {
            assert(out2[k] == out[k] && out2[l] == out[l]);
            assert(order2[k] == order[k] && order2[l] == order[l]);
        } else if k > j && l > j {
            assert(out2[k] == out[k - 1] && out2[l] == out[l - 1]);
            assert(order2[k] == order[k - 1] && order2[l] == order[l - 1]);
        } else if k == j {
            assert(out2[l] == out[l - 1]);
            if l - 1 > j {
                assert(out[j].1 > out[l - 1].1 || out[j].1 == out[l - 1].1);
            }
        } else if l == j {
            assert(out2[k] == out[k]);
            assert(order2[k] == order[k]);
            assert(order[k] < pre.len());
        } else {
            assert(out2[k] == out[k] && out2[l] == out[l - 1]);
            assert(order2[k] == order[k] && order2[l] == order[l - 1]);
        }
    }
}

} // verus!
