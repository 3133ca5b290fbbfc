//! The music quiz command: its defaults and checks.
pub mod notifier;
pub mod preparation;
pub mod runtime;

use crate::commands::MusicQuizCommandError;
use vstd::prelude::*;

verus! {

/// The number of rounds when the command does not say.
pub const TOTAL_ROUNDS_DEFAULT: u32 = 5;

/// The number of rounds to play: the requested number, or the default.
pub fn requested_rounds(total_rounds: Option<u32>) -> (r: u32)
    ensures
        r == match total_rounds {
            Some(n) => n,
            None => TOTAL_ROUNDS_DEFAULT,
        },
{
    match total_rounds {
        Some(n) => n,
        None => TOTAL_ROUNDS_DEFAULT,
    }
}

/// A quiz needs at least one human player in the voice channel.
pub fn validate_participant_count(participant_count: usize) -> (r: Result<(), MusicQuizCommandError>)
    ensures
        participant_count >= 1 <==> r is Ok,
        participant_count < 1 ==> (r matches Err(MusicQuizCommandError::TooFewUsersInChannel {
            actual,
        }) && actual == participant_count),
{
    if participant_count < 1 {
        return Err(MusicQuizCommandError::TooFewUsersInChannel { actual: participant_count });
    }
    Ok(())
}

/// What the quiz needs to know of a member's voice state: who it is, which
/// voice channel they are in, if any, and whether they are a known member
/// who is not a bot.
#[derive(Debug, Clone, Copy, PartialEq, Eq, Structural)]
pub struct VoiceStateEntry {
    pub user_id: u64,
    pub channel_id: Option<u64>,
    pub human_member: bool,
}

/// Whether a voice state belongs to a human player in the given channel.
pub open spec fn plays_in(entry: VoiceStateEntry, channel_id: u64) -> bool {
    entry.channel_id == Some(channel_id) && entry.human_member
}

/// The human players in a voice channel, in the order of the voice states.
pub open spec fn participants_in(voice_states: Seq<VoiceStateEntry>, channel_id: u64) -> Seq<u64> {
    voice_states.filter(|e: VoiceStateEntry| plays_in(e, channel_id)).map_values(
        |e: VoiceStateEntry| e.user_id,
    )
}

/// The human players in a voice channel: the members in that channel who are not bots.
pub fn human_participants(voice_states: &Vec<VoiceStateEntry>, channel_id: u64) -> (r: Vec<u64>)
    ensures
        r@ == participants_in(voice_states@, channel_id),
{
    let ghost keep = |e: VoiceStateEntry| plays_in(e, channel_id);
    let ghost id_of = |e: VoiceStateEntry| e.user_id;
    let mut out: Vec<u64> = Vec::new();
    let mut i: usize = 0;
    while i < voice_states.len()
        invariant
            i <= voice_states.len(),
            keep == (|e: VoiceStateEntry| plays_in(e, channel_id)),
            id_of == (|e: VoiceStateEntry| e.user_id),
            out@ == voice_states@.take(i as int).filter(keep).map_values(id_of),
        decreases voice_states.len() - i,
    {
        let entry = voice_states[i];
        proof {
            reveal(Seq::filter);
            assert(voice_states@.take(i + 1).drop_last() =~= voice_states@.take(i as int));
            assert(voice_states@.take(i + 1).last() == entry);
        }
        if entry.channel_id == Some(channel_id) && entry.human_member {
            out.push(entry.user_id);
            assert(out@ =~= voice_states@.take(i + 1).filter(keep).map_values(id_of));
        } else {
            assert(out@ =~= voice_states@.take(i + 1).filter(keep).map_values(id_of));
        }
        i = i + 1;
    }
    assert(voice_states@.take(voice_states.len() as int) =~= voice_states@);
    out
}

/// Whether some voice state of `user_id` is in the channel and belongs to a human member.
pub open spec fn human_in_channel(voice_states: Seq<VoiceStateEntry>, channel_id: u64, user_id: u64) -> bool {
    exists|i: int|
        0 <= i < voice_states.len() && voice_states[i].user_id == user_id
            && voice_states[i].channel_id == Some(channel_id) && voice_states[i].human_member
}

/// The players found in a channel are exactly the ids of the voice states that
/// are in that channel and belong to a human member: each id returned is one
/// of theirs, and each of theirs is returned.
pub proof fn participants_are_the_humans_in_the_channel(
    voice_states: Seq<VoiceStateEntry>,
    channel_id: u64,
)
    ensures
        participants_in(voice_states, channel_id).len() <= voice_states.len(),
        forall|k: int|
            0 <= k < participants_in(voice_states, channel_id).len() ==> human_in_channel(
                voice_states,
                channel_id,
                #[trigger] participants_in(voice_states, channel_id)[k],
            ),
        forall|i: int|
            0 <= i < voice_states.len() && voice_states[i].channel_id == Some(channel_id)
                && voice_states[i].human_member ==> participants_in(voice_states, channel_id).contains(
                #[trigger] voice_states[i].user_id,
            ),
{
    let keep = |e: VoiceStateEntry| plays_in(e, channel_id);
    let id_of = |e: VoiceStateEntry| e.user_id;
    let f = voice_states.filter(keep);
    let r = participants_in(voice_states, channel_id);
    assert(r == f.map_values(id_of));
    voice_states.lemma_filter_len(keep);
    assert(r.len() == f.len());
    assert forall|k: int| 0 <= k < r.len() implies human_in_channel(
        voice_states,
        channel_id,
        #[trigger] r[k],
    ) by {
        voice_states.lemma_filter_pred(keep, k);
        assert(f.contains(f[k]));
        voice_states.lemma_filter_contains_rev(keep, f[k]);
        let i = choose|i: int| 0 <= i < voice_states.len() && voice_states[i] == f[k];
        assert(voice_states[i].user_id == r[k]);
    }
    assert forall|i: int|
        0 <= i < voice_states.len() && voice_states[i].channel_id == Some(channel_id)
            && voice_states[i].human_member implies r.contains(
        #[trigger] voice_states[i].user_id,
    ) by {
        assert(keep(voice_states[i]));
        voice_states.lemma_filter_contains(keep, i);
        let j = choose|j: int| 0 <= j < f.len() && f[j] == voice_states[i];
        assert(r[j] == voice_states[i].user_id);
    }
}

/// The voice channel of the user who started the quiz, from their voice
/// state: an error when they have none, or one without a channel.
pub fn user_voice_channel(voice_state: Option<Option<u64>>) -> (r: Result<u64, MusicQuizCommandError>)
    ensures
        match voice_state {
            None => r matches Err(MusicQuizCommandError::UserNotInVoiceChannel),
            Some(None) => r matches Err(MusicQuizCommandError::UserHasNoChannelId),
            Some(Some(c)) => r matches Ok(v) && v == c,
        },
{
    match voice_state {
        None => Err(MusicQuizCommandError::UserNotInVoiceChannel),
        Some(None) => Err(MusicQuizCommandError::UserHasNoChannelId),
        Some(Some(c)) => Ok(c),
    }
}

} // verus!
