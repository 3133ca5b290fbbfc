//! Properties of the quiz that span several calls or hold of every state.
use crate::games::music_quiz::error::MusicQuizError;
use crate::games::music_quiz::matching::{edit_distance, judge, normalized, GuessResult};
use crate::games::music_quiz::quiz::{
    guess_effect, guess_fits, guess_step, judged, round_is_over, signals_of_guess, GuessOutcome,
};
use crate::games::music_quiz::session::{
    fresh_round, is_leaderboard, new_session, round_complete, score_of, session_after_start,
    session_finished, stable_descending_arrangement, standings, SessionView,
};
use crate::games::music_quiz::track::TrackView;
use vstd::prelude::*;

verus! {

/// A guess when no round is running is refused, changes nothing and signals
/// no complete round.
pub proof fn guess_without_round_is_refused(s: SessionView, user: u64, guess: Seq<char>)
    requires
        s.current_round is None,
    ensures
        guess_step(s, user, guess) == (s, Err::<GuessOutcome, MusicQuizError>(
            MusicQuizError::NoRoundInProgress,
        )),
        signals_of_guess(s, user, guess) == 0,
{
}

/// Case, spaces and punctuation of a guess never matter: two guesses with the
/// same normalized form get the same answer, leave the same session, give the
/// same completion signals and fit the score alike.
pub proof fn guess_reads_only_its_normalized_form(
    s: SessionView,
    user: u64,
    g1: Seq<char>,
    g2: Seq<char>,
)
    requires
        normalized(g1) == normalized(g2),
    ensures
        guess_step(s, user, g1) == guess_step(s, user, g2),
        signals_of_guess(s, user, g1) == signals_of_guess(s, user, g2),
        guess_fits(s, user, g1) == guess_fits(s, user, g2),
{
}

/// A wrong guess, or one about parts already guessed, changes nothing.
pub proof fn unrewarded_guess_changes_nothing(s: SessionView, user: u64, guess: Seq<char>)
    requires
        guess_step(s, user, guess).1 == Ok::<GuessOutcome, MusicQuizError>(GuessOutcome::Wrong)
            || guess_step(s, user, guess).1 == Ok::<GuessOutcome, MusicQuizError>(
            GuessOutcome::AlreadyGuessed,
        ),
    ensures
        guess_step(s, user, guess).0 == s,
{
}

/// Once both the artist and the track of the round are guessed, every further
/// guess is answered `AlreadyGuessed` or `Wrong` and changes nothing.
pub proof fn complete_round_is_closed(s: SessionView, user: u64, guess: Seq<char>)
    requires
        s.current_round is Some,
        round_complete(s.current_round->0),
    ensures
        guess_step(s, user, guess).0 == s,
        guess_step(s, user, guess).1 == Ok::<GuessOutcome, MusicQuizError>(
            GuessOutcome::AlreadyGuessed,
        ) || guess_step(s, user, guess).1 == Ok::<GuessOutcome, MusicQuizError>(
            GuessOutcome::Wrong,
        ),
{
}

/// A guess changes only the guesser's score, never lowers it, and leaves the
/// round count, the number of rounds, the participants and the track as they were.
pub proof fn guess_changes_only_the_guessers_score(
    s: SessionView,
    user: u64,
    guess: Seq<char>,
    other: u64,
)
    requires
        other != user,
        s.current_round is Some ==> score_of(s.scores, user) + guess_effect(
            s.current_round->0,
            user,
            judged(s.current_round->0, guess),
        ).1 <= u32::MAX,
    ensures
        ({
            let t = guess_step(s, user, guess).0;
            &&& score_of(t.scores, other) == score_of(s.scores, other)
            &&& score_of(t.scores, user) >= score_of(s.scores, user)
            &&& t.round_number == s.round_number
            &&& t.total_rounds == s.total_rounds
            &&& t.participants == s.participants
            &&& (s.current_round is Some <==> t.current_round is Some)
            &&& s.current_round is Some ==> t.current_round->0.track == s.current_round->0.track
        }),
{
}

/// The points a rewarded guess reports are 3 exactly when the guesser now
/// holds both the artist and the track of the round, and 1 otherwise; the
/// guesser's score grows by the points reported, less the point the guesser
/// already had for the other part of the round.
pub proof fn reported_points(s: SessionView, user: u64, guess: Seq<char>)
    requires
        s.current_round is Some,
        score_of(s.scores, user) + guess_effect(
            s.current_round->0,
            user,
            judged(s.current_round->0, guess),
        ).1 <= u32::MAX,
    ensures
        ({
            let (t, answer) = guess_step(s, user, guess);
            let round = t.current_round->0;
            let holds_both = round.artist_guessed_by == Some(user) && round.track_guessed_by
                == Some(user);
            match answer {
                Ok(GuessOutcome::Both { points }) => points == 3 && holds_both && score_of(
                    t.scores,
                    user,
                ) == score_of(s.scores, user) + 3,
                Ok(GuessOutcome::Track { points }) => {
                    &&& round.track_guessed_by == Some(user)
                    &&& points == (if holds_both {
                        3u32
                    } else {
                        1u32
                    })
                    &&& score_of(t.scores, user) - score_of(s.scores, user) == points - (
                    if s.current_round->0.artist_guessed_by == Some(user) {
                        1int
                    } else {
                        0int
                    })
                },
                Ok(GuessOutcome::Artist { points }) => {
                    &&& round.artist_guessed_by == Some(user)
                    &&& points == (if holds_both {
                        3u32
                    } else {
                        1u32
                    })
                    &&& score_of(t.scores, user) - score_of(s.scores, user) == points - (
                    if s.current_round->0.track_guessed_by == Some(user) {
                        1int
                    } else {
                        0int
                    })
                },
                _ => score_of(t.scores, user) == score_of(s.scores, user),
            }
        }),
{
}

/// A player who comes to hold both the artist and the track of a round has
/// earned 3 points from it in all: 3 at once from holding neither, 2 more
/// from holding one part already.
pub proof fn both_parts_are_worth_three_points(s: SessionView, user: u64, guess: Seq<char>)
    requires
        s.current_round is Some,
        guess_fits(s, user, guess),
    ensures
        ({
            let before = s.current_round->0;
            let t = guess_step(s, user, guess).0;
            let after = t.current_round->0;
            let gain = score_of(t.scores, user) - score_of(s.scores, user);
            let held_before = (if before.artist_guessed_by == Some(user) {
                1int
            } else {
                0int
            }) + (if before.track_guessed_by == Some(user) {
                1int
            } else {
                0int
            });
            after.artist_guessed_by == Some(user) && after.track_guessed_by == Some(user)
                && held_before < 2 ==> gain == 3 - held_before
        }),
{
}

/// A round is over exactly when a round is running whose artist and track
/// have both been guessed, by anyone.
pub proof fn round_over_when_both_parts_guessed(s: SessionView)
    ensures
        round_is_over(s) <==> (s.current_round is Some && s.current_round->0.artist_guessed_by is Some
            && s.current_round->0.track_guessed_by is Some),
{
}

/// A guess signals the end of the round exactly once when, after it, both the
/// artist and the track of the round have been guessed, by anyone; otherwise
/// it signals nothing.
pub proof fn guess_signals_when_both_parts_guessed(s: SessionView, user: u64, guess: Seq<char>)
    ensures
        ({
            let t = guess_step(s, user, guess).0;
            signals_of_guess(s, user, guess) == if t.current_round is Some
                && t.current_round->0.artist_guessed_by is Some
                && t.current_round->0.track_guessed_by is Some {
                1nat
            } else {
                0nat
            }
        }),
{
}

/// Whether the normalized Levenshtein similarity of `x` and `y`, that is one
/// less the edit distance over the length of the longer text (1 for two empty
/// texts), is above `threshold` hundredths.
pub open spec fn above_similarity(x: Seq<char>, y: Seq<char>, threshold: int) -> bool {
    let longest = if x.len() >= y.len() {
        x.len()
    } else {
        y.len()
    };
    (x.len() == 0 && y.len() == 0) || edit_distance(x, y) * 100 < (100 - threshold) * longest
}

/// A guess names both when its normalized form is more than 88% similar to
/// the name followed by the artist, or the artist followed by the name;
/// otherwise it names the track when it is more than 90% similar to the name,
/// otherwise the artist when it is more than 85% similar to the artist, and
/// otherwise nothing.
pub proof fn guess_verdict_follows_similarity(guess: Seq<char>, name: Seq<char>, artist: Seq<char>)
    ensures
        ({
            let g = normalized(guess);
            let n = normalized(name);
            let a = normalized(artist);
            let both = above_similarity(g, n + a, 88) || above_similarity(g, a + n, 88);
            let track = above_similarity(g, n, 90);
            let art = above_similarity(g, a, 85);
            &&& judge(guess, name, artist) == GuessResult::Both <==> both
            &&& judge(guess, name, artist) == GuessResult::TrackOnly <==> !both && track
            &&& judge(guess, name, artist) == GuessResult::ArtistOnly <==> !both && !track && art
            &&& judge(guess, name, artist) == GuessResult::Neither <==> !both && !track && !art
        }),
{
}

/// A text is at edit distance zero from itself.
pub proof fn edit_distance_to_itself(x: Seq<char>)
    ensures
        edit_distance(x, x) == 0,
    decreases x.len(),
{
    if x.len() > 0 {
        edit_distance_to_itself(x.drop_last());
    }
}

/// A guess whose normalized form is the track name's, or the artist's, and
/// that does not name both, names that part.
pub proof fn exact_guess_names_its_part(guess: Seq<char>, name: Seq<char>, artist: Seq<char>)
    ensures
        judge(guess, name, artist) != GuessResult::Both && normalized(guess) == normalized(name)
            ==> judge(guess, name, artist) == GuessResult::TrackOnly,
        judge(guess, name, artist) != GuessResult::Both && normalized(guess) == normalized(artist)
            && normalized(guess) != normalized(name) ==> judge(guess, name, artist) == GuessResult::ArtistOnly
            || judge(guess, name, artist) == GuessResult::TrackOnly,
{
    let g = normalized(guess);
    edit_distance_to_itself(g);
    guess_verdict_follows_similarity(guess, name, artist);
    assert(above_similarity(g, g, 90));
    assert(above_similarity(g, g, 85));
}

/// Who guessed the artist or the track is never changed by a later guess,
/// except by a guess naming both when exactly one of the two was guessed.
pub proof fn guessers_are_kept(s: SessionView, user: u64, guess: Seq<char>)
    requires
        s.current_round is Some,
        !({
            let round = s.current_round->0;
            &&& judged(round, guess) == GuessResult::Both
            &&& (round.artist_guessed_by is Some) != (round.track_guessed_by is Some)
        }),
    ensures
        ({
            let before = s.current_round->0;
            let after = guess_step(s, user, guess).0.current_round->0;
            &&& before.artist_guessed_by is Some ==> after.artist_guessed_by
                == before.artist_guessed_by
            &&& before.track_guessed_by is Some ==> after.track_guessed_by
                == before.track_guessed_by
        }),
{
}

/// Starting a round keeps every score, the participants and the number of
/// rounds, counts one more round, and opens it with nobody having guessed.
pub proof fn starting_a_round_keeps_scores(s: SessionView, track: TrackView, user: u64)
    requires
        s.round_number < u32::MAX,
    ensures
        ({
            let t = session_after_start(s, track);
            &&& score_of(t.scores, user) == score_of(s.scores, user)
            &&& t.participants == s.participants
            &&& t.total_rounds == s.total_rounds
            &&& t.round_number == s.round_number + 1
            &&& t.current_round == Some(fresh_round(track))
            &&& !round_complete(t.current_round->0)
        }),
{
}

/// The session after new rounds have started, one per track, in order.
pub open spec fn after_starts(s: SessionView, tracks: Seq<TrackView>) -> SessionView
    decreases tracks.len(),
{
    if tracks.len() == 0 {
        s
    } else {
        session_after_start(after_starts(s, tracks.drop_last()), tracks.last())
    }
}

/// Starting one round per track on a new session counts the rounds, makes the
/// last track the one being played with nobody having guessed it, keeps the
/// scores empty, and finishes the session exactly when as many rounds have
/// started as were planned.
pub proof fn rounds_are_counted(total_rounds: u32, participants: Seq<u64>, tracks: Seq<TrackView>)
    requires
        tracks.len() <= u32::MAX,
    ensures
        ({
            let s = after_starts(new_session(total_rounds, participants), tracks);
            &&& s.round_number == tracks.len()
            &&& s.total_rounds == total_rounds
            &&& s.participants == participants
            &&& s.scores == Map::<u64, u32>::empty()
            &&& tracks.len() > 0 ==> s.current_round == Some(fresh_round(tracks.last()))
            &&& session_finished(s) <==> tracks.len() >= total_rounds
        }),
    decreases tracks.len(),
{
    if tracks.len() > 0 {
        rounds_are_counted(total_rounds, participants, tracks.drop_last());
    }
}

/// The leaderboard lists every participant exactly once with their score,
/// from the highest score to the lowest.
pub proof fn leaderboard_ranks_every_participant(s: SessionView, board: Seq<(u64, u32)>)
    requires
        is_leaderboard(s, board),
    ensures
        board.len() == s.participants.len(),
        forall|k: int, l: int| 0 <= k < l < board.len() ==> board[k].1 >= board[l].1,
        forall|k: int|
            0 <= k < board.len() ==> s.participants.contains(#[trigger] board[k].0) && board[k].1
                == score_of(s.scores, board[k].0),
        forall|i: int|
            0 <= i < s.participants.len() ==> listed(board, #[trigger] s.participants[i]),
{
    let input = standings(s.participants, s.scores);
    let order = choose|order: Seq<int>| stable_descending_arrangement(input, board, order);
    assert forall|k: int, l: int| 0 <= k < l < board.len() implies board[k].1 >= board[l].1 by {
        assert(board[k].1 > board[l].1 || board[k].1 == board[l].1);
    }
    assert forall|k: int| 0 <= k < board.len() implies s.participants.contains(
        #[trigger] board[k].0,
    ) && board[k].1 == score_of(s.scores, board[k].0) by {
        let i = order[k];
        assert(board[k] == input[i]);
        assert(s.participants[i] == board[k].0);
        assert(score_of(s.scores, board[k].0) <= u32::MAX);
    }
    assert forall|i: int| 0 <= i < s.participants.len() implies listed(
        board,
        #[trigger] s.participants[i],
    ) by {
        // `order` is injective on a set of the same size, so it reaches `i`.
        let k = lemma_injective_reaches(order, input.len() as int, i);
        assert(order[k] == i);
        assert(board[k] == input[order[k]]);
        assert(input[i].0 == s.participants[i]);
        assert(board[k].0 == s.participants[i]);
    }
}

/// Whether a player appears on a board.
pub open spec fn listed(board: Seq<(u64, u32)>, user_id: u64) -> bool {
    exists|k: int| 0 <= k < board.len() && #[trigger] board[k].0 == user_id
}

/// An injective sequence of indices below `n` of length `n` contains every index below `n`.
proof fn lemma_injective_reaches(order: Seq<int>, n: int, i: int) -> (k: int)
    requires
        order.len() == n,
        0 <= i < n,
        forall|k: int| 0 <= k < order.len() ==> 0 <= #[trigger] order[k] < n,
        forall|k: int, l: int| 0 <= k < l < order.len() ==> #[trigger] order[k] != #[trigger] order[l],
    ensures
        0 <= k < n,
        order[k] == i,
{
    if !order.contains(i) {
        let set = order.to_set();
        assert(set.subset_of(Set::new(|x: int| 0 <= x < n).remove(i)));
        vstd::set_lib::lemma_int_range(0, n);
        assert(Set::new(|x: int| 0 <= x < n) =~= vstd::set_lib::set_int_range(0, n));
        vstd::set_lib::lemma_len_subset(set, vstd::set_lib::set_int_range(0, n).remove(i));
        assert(order.no_duplicates()) by {
            assert forall|a: int, b: int| 0 <= a < order.len() && 0 <= b < order.len() && a != b implies order[a] != order[b] by {
                if a < b {
                    assert(order[a] != order[b]);
                } else {
                    assert(order[b] != order[a]);
                }
            }
        }
        order.unique_seq_to_set();
        assert(false);
    }
    let k = choose|k: int| 0 <= k < order.len() && order[k] == i;
    k
}

} // verus!
