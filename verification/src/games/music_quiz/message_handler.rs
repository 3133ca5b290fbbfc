//! The answer given in the chat to a guess.
use crate::games::music_quiz::quiz::GuessOutcome;
use crate::text::decimal;
use crate::text::decimal_text;
use vstd::prelude::*;

verus! {

/// How the bot answers a guess.
#[derive(Debug, Clone, PartialEq, Eq)]
pub enum GuessReaction {
    /// Reply to the guess with a text.
    Reply(String),
    /// React to the guess with an emoji.
    React(String),
    /// Say nothing.
    Ignore,
}

/// The text of a reply: `head`, the points, and `" points!"`.
pub open spec fn points_reply(head: Seq<char>, points: u32) -> Seq<char> {
    head + decimal(points as nat) + " points!"@
}

/// A reply made of `head`, the points and `" points!"`.
fn reply_with_points(head: &str, points: u32) -> (r: String)
    ensures
        r@ == points_reply(head@, points),
{
    let mut text = String::from_str(head);
    let n = decimal_text(points as u64);
    text.append(n.as_str());
    text.append(" points!");
    text
}

/// The answer to a guess: a reply with the points for a right guess, a
/// cross for a wrong one, and nothing for a guess about parts already guessed.
pub fn reaction_to(outcome: GuessOutcome) -> (r: GuessReaction)
    ensures
        match outcome {
            GuessOutcome::Artist { points } => r matches GuessReaction::Reply(t) && t@
                == points_reply("🎤 Correct artist! +"@, points),
            GuessOutcome::Track { points } => r matches GuessReaction::Reply(t) && t@
                == points_reply("🎵 Correct track! +"@, points),
            GuessOutcome::Both { points } => r matches GuessReaction::Reply(t) && t@
                == points_reply("🎉 Correct! You guessed both! +"@, points),
            GuessOutcome::AlreadyGuessed => r is Ignore,
            GuessOutcome::Wrong => r matches GuessReaction::React(e) && e@ == "❌"@,
        },
{
    match outcome {
        GuessOutcome::Artist { points } => GuessReaction::Reply(
            reply_with_points("🎤 Correct artist! +", points),
        ),
        GuessOutcome::Track { points } => GuessReaction::Reply(
            reply_with_points("🎵 Correct track! +", points),
        ),
        GuessOutcome::Both { points } => GuessReaction::Reply(
            reply_with_points("🎉 Correct! You guessed both! +", points),
        ),
        GuessOutcome::AlreadyGuessed => GuessReaction::Ignore,
        GuessOutcome::Wrong => GuessReaction::React(String::from_str("❌")),
    }
}

} // verus!
