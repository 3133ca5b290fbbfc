//! Which chat messages the bot looks at.
use vstd::prelude::*;

verus! {

/// The server a message is to be handled for: messages of bots and direct
/// messages are ignored.
pub fn message_guild(author_is_bot: bool, guild_id: Option<u64>) -> (r: Option<u64>)
    ensures
        r == if author_is_bot {
            None
        } else {
            guild_id
        },
{
    if author_is_bot {
        return None;
    }
    match guild_id {
        Some(id) => Some(id),
        None => None,
    }
}

} // verus!
