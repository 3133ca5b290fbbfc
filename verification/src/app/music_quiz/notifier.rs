//! The texts the quiz posts in the channel it was started from.
use crate::games::music_quiz::session::{RoundCompletion, RoundProgress};
use crate::text::{concat2, decimal, decimal_text};
use vstd::prelude::*;

verus! {

/// The title of the message that opens a round: "🎵 Round n/total".
pub open spec fn round_start_title_text(round_number: u32, total_rounds: u32) -> Seq<char> {
    "🎵 Round "@ + decimal(round_number as nat) + "/"@ + decimal(total_rounds as nat)
}

/// A line naming, with a Discord mention, who guessed a part of the track.
pub open spec fn guesser_line(label: Seq<char>, user_id: u64) -> Seq<char> {
    label + " <@"@ + decimal(user_id as nat) + ">\n"@
}

/// The description of the message that closes a round.
pub open spec fn round_completion_text(
    track_name: Seq<char>,
    artist_name: Seq<char>,
    artist_guessed_by: Option<u64>,
    track_guessed_by: Option<u64>,
) -> Seq<char> {
    "**Song:** "@ + track_name + " by "@ + artist_name + "\n\n"@ + match artist_guessed_by {
        Some(id) => guesser_line("🎤 Artist guessed by"@, id),
        None => Seq::empty(),
    } + match track_guessed_by {
        Some(id) => guesser_line("🎵 Track guessed by"@, id),
        None => Seq::empty(),
    }
}

/// The text that closes a round opens with the song and its artist; it then
/// names who guessed the artist, if anyone did, and ends naming who guessed
/// the track, if anyone did, each part independently of the other.
pub proof fn completion_text_names_each_guesser(
    track_name: Seq<char>,
    artist_name: Seq<char>,
    artist_guessed_by: Option<u64>,
    track_guessed_by: Option<u64>,
)
    ensures
        ({
            let text = round_completion_text(
                track_name,
                artist_name,
                artist_guessed_by,
                track_guessed_by,
            );
            let head = "**Song:** "@ + track_name + " by "@ + artist_name + "\n\n"@;
            let artist_line = "🎤 Artist guessed by <@"@ + decimal(artist_guessed_by->0 as nat)
                + ">\n"@;
            let track_line = "🎵 Track guessed by <@"@ + decimal(track_guessed_by->0 as nat)
                + ">\n"@;
            &&& text.len() >= head.len()
            &&& text.take(head.len() as int) == head
            &&& (artist_guessed_by is None && track_guessed_by is None ==> text == head)
            &&& (artist_guessed_by is Some ==> text.len() >= head.len() + artist_line.len()
                && text.subrange(head.len() as int, (head.len() + artist_line.len()) as int)
                == artist_line)
            &&& (artist_guessed_by is Some && track_guessed_by is None ==> text == head
                + artist_line)
            &&& (track_guessed_by is Some ==> text.len() >= head.len() + track_line.len()
                && text.subrange(text.len() - track_line.len(), text.len() as int) == track_line)
            &&& (track_guessed_by is Some && artist_guessed_by is None ==> text == head
                + track_line)
            &&& (artist_guessed_by is Some && track_guessed_by is Some ==> text == head
                + artist_line + track_line)
        }),
{
    let text = round_completion_text(track_name, artist_name, artist_guessed_by, track_guessed_by);
    let head = "**Song:** "@ + track_name + " by "@ + artist_name + "\n\n"@;
    let artist_line = "🎤 Artist guessed by <@"@ + decimal(artist_guessed_by->0 as nat) + ">\n"@;
    let track_line = "🎵 Track guessed by <@"@ + decimal(track_guessed_by->0 as nat) + ">\n"@;
    let a = if artist_guessed_by is Some {
        artist_line
    } else {
        Seq::<char>::empty()
    };
    let t = if track_guessed_by is Some {
        track_line
    } else {
        Seq::<char>::empty()
    };
    assert(a == match artist_guessed_by {
        Some(id) => guesser_line("🎤 Artist guessed by"@, id),
        None => Seq::<char>::empty(),
    }) by {
        if artist_guessed_by is Some {
            reveal_strlit("🎤 Artist guessed by");
            reveal_strlit(" <@");
            reveal_strlit("🎤 Artist guessed by <@");
            assert("🎤 Artist guessed by"@ + " <@"@ =~= "🎤 Artist guessed by <@"@);
            assert(guesser_line("🎤 Artist guessed by"@, artist_guessed_by->0) =~= artist_line);
        }
    }
    assert(t == match track_guessed_by {
        Some(id) => guesser_line("🎵 Track guessed by"@, id),
        None => Seq::<char>::empty(),
    }) by {
        if track_guessed_by is Some {
            reveal_strlit("🎵 Track guessed by");
            reveal_strlit(" <@");
            reveal_strlit("🎵 Track guessed by <@");
            assert("🎵 Track guessed by"@ + " <@"@ =~= "🎵 Track guessed by <@"@);
            assert(guesser_line("🎵 Track guessed by"@, track_guessed_by->0) =~= track_line);
        }
    }
    assert(text == head + a + t);
    assert(text.take(head.len() as int) =~= head);
    assert(text.subrange(head.len() as int, (head.len() + a.len()) as int) =~= a);
    assert(text.subrange(text.len() - t.len(), text.len() as int) =~= t);
    if artist_guessed_by is None {
        assert(head + a =~= head);
    }
    if track_guessed_by is None {
        assert(head + a + t =~= head + a);
    }
}

/// The medal shown before a place of the final scores.
pub open spec fn medal_text(index: int) -> Seq<char> {
    if index == 0 {
        "🥇"@
    } else if index == 1 {
        "🥈"@
    } else if index == 2 {
        "🥉"@
    } else {
        "  "@
    }
}

/// The line of the final scores for one place.
pub open spec fn score_line(index: int, entry: (u64, u32)) -> Seq<char> {
    medal_text(index) + " <@"@ + decimal(entry.0 as nat) + "> - "@ + decimal(entry.1 as nat)
        + " points\n"@
}

/// The lines of the first `n` places.
pub open spec fn score_lines(board: Seq<(u64, u32)>, n: int) -> Seq<char>
    decreases n,
{
    if n <= 0 {
        Seq::empty()
    } else {
        score_lines(board, n - 1) + score_line(n - 1, board[n - 1])
    }
}

/// The description of the message with the final scores.
pub open spec fn final_results_text(board: Seq<(u64, u32)>) -> Seq<char> {
    "**Final Scores:**\n\n"@ + score_lines(board, board.len() as int)
}

/// The lines of the first `n` places depend on those places alone.
proof fn lemma_score_lines_prefix(board: Seq<(u64, u32)>, e: (u64, u32), n: int)
    requires
        0 <= n <= board.len(),
    ensures
        score_lines(board.push(e), n) == score_lines(board, n),
    decreases n,
{
    if n > 0 {
        lemma_score_lines_prefix(board, e, n - 1);
        assert(board.push(e)[n - 1] == board[n - 1]);
    }
}

/// Each place added at the bottom of the board adds one line at the end of
/// the final scores: a gold, silver or bronze medal for the first three places
/// and two spaces after them, the player's mention, and the score in points.
pub proof fn final_results_add_one_line_per_place(board: Seq<(u64, u32)>, e: (u64, u32))
    ensures
        final_results_text(board.push(e)) == final_results_text(board) + (if board.len() == 0 {
            "🥇"@
        } else if board.len() == 1 {
            "🥈"@
        } else if board.len() == 2 {
            "🥉"@
        } else {
            "  "@
        }) + " <@"@ + decimal(e.0 as nat) + "> - "@ + decimal(e.1 as nat) + " points\n"@,
        final_results_text(Seq::empty()) == "**Final Scores:**\n\n"@,
{
    lemma_score_lines_prefix(board, e, board.len() as int);
    let n = board.len() as int;
    assert(board.push(e)[n] == e);
    assert(score_lines(board.push(e), n + 1) == score_lines(board, n) + score_line(n, e));
    let m = if board.len() == 0 {
        "🥇"@
    } else if board.len() == 1 {
        "🥈"@
    } else if board.len() == 2 {
        "🥉"@
    } else {
        "  "@
    };
    assert(medal_text(n) == m);
    assert(final_results_text(board.push(e)) =~= final_results_text(board) + m + " <@"@ + decimal(
        e.0 as nat,
    ) + "> - "@ + decimal(e.1 as nat) + " points\n"@);
    assert(final_results_text(Seq::empty()) =~= "**Final Scores:**\n\n"@);
}

/// The title of the message that opens a round.
pub fn round_start_title(progress: RoundProgress) -> (r: String)
    ensures
        r@ == round_start_title_text(progress.round_number, progress.total_rounds),
{
    let mut title = String::from_str("🎵 Round ");
    let n = decimal_text(progress.round_number as u64);
    title.append(n.as_str());
    title.append("/");
    let total = decimal_text(progress.total_rounds as u64);
    title.append(total.as_str());
    title
}

/// The description of the message that opens a round.
pub fn round_start_description() -> (r: &'static str)
    ensures
        r@ == "Listen to the song and guess the artist and/or track name!"@,
{
    "Listen to the song and guess the artist and/or track name!"
}

/// The title of the message that closes a round.
pub fn round_completion_title() -> (r: &'static str)
    ensures
        r@ == "Round Complete!"@,
{
    "Round Complete!"
}

/// The title of the message with the final scores.
pub fn final_results_title() -> (r: &'static str)
    ensures
        r@ == "🎉 Music Quiz Complete!"@,
{
    "🎉 Music Quiz Complete!"
}

/// The title of the message telling that the quiz failed.
pub fn failure_title() -> (r: &'static str)
    ensures
        r@ == "❌ Music Quiz Failed"@,
{
    "❌ Music Quiz Failed"
}

/// Appends the line naming who guessed a part of the track.
fn append_guesser_line(description: &mut String, label: &str, user_id: u64)
    ensures
        final(description)@ == old(description)@ + guesser_line(label@, user_id),
{
    description.append(label);
    description.append(" <@");
    let id = decimal_text(user_id);
    description.append(id.as_str());
    description.append(">\n");
}

/// The description of the message that closes a round.
pub fn round_completion_description(round: &RoundCompletion) -> (r: String)
    ensures
        r@ == round_completion_text(
            round.track_name@,
            round.artist_name@,
            round.artist_guessed_by,
            round.track_guessed_by,
        ),
{
    let mut description = String::from_str("**Song:** ");
    description.append(round.track_name.as_str());
    description.append(" by ");
    description.append(round.artist_name.as_str());
    description.append("\n\n");
    let ghost head = description@;
    if let Some(artist_guesser) = round.artist_guessed_by {
        append_guesser_line(&mut description, "🎤 Artist guessed by", artist_guesser);
    }
    let ghost middle = description@;
    if let Some(track_guesser) = round.track_guessed_by {
        append_guesser_line(&mut description, "🎵 Track guessed by", track_guesser);
    }
    assert(description@ =~= round_completion_text(
        round.track_name@,
        round.artist_name@,
        round.artist_guessed_by,
        round.track_guessed_by,
    ));
    description
}

/// The medal shown before a place of the final scores.
fn medal(index: usize) -> (r: &'static str)
    ensures
        r@ == medal_text(index as int),
{
    if index == 0 {
        "🥇"
    } else if index == 1 {
        "🥈"
    } else if index == 2 {
        "🥉"
    } else {
        "  "
    }
}

/// The description of the message with the final scores: one line per
/// place, with a medal for the first three.
pub fn final_results_description(leaderboard: &Vec<(u64, u32)>) -> (r: String)
    ensures
        r@ == final_results_text(leaderboard@),
{
    let mut description = String::from_str("**Final Scores:**\n\n");
    let mut index: usize = 0;
    while index < leaderboard.len()
        invariant
            index <= leaderboard.len(),
            description@ == "**Final Scores:**\n\n"@ + score_lines(leaderboard@, index as int),
        decreases leaderboard.len() - index,
    {
        let (user_id, score) = leaderboard[index];
        description.append(medal(index));
        description.append(" <@");
        let id = decimal_text(user_id);
        description.append(id.as_str());
        description.append("> - ");
        let points = decimal_text(score as u64);
        description.append(points.as_str());
        description.append(" points\n");
        assert(description@ =~= "**Final Scores:**\n\n"@ + score_lines(
            leaderboard@,
            index + 1,
        ));
        index = index + 1;
    }
    description
}

/// The description of the message telling that the quiz failed, given the
/// text of the error.
pub fn failure_description(error_text: &str) -> (r: String)
    ensures
        r@ == "An error occurred: "@ + error_text@,
{
    concat2("An error occurred: ", error_text)
}

} // verus!
