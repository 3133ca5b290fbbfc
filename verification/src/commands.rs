//! The errors of the bot's commands.
use crate::games::music_quiz::MusicQuizError;
use crate::services::itunes::ItunesClientError;
use crate::services::spotify::SpotifyClientError;
use vstd::prelude::*;

verus! {

/// Why the music quiz command failed. Failures of the chat and voice
/// services carry the text of their error.
#[derive(Debug)]
#[allow(inconsistent_fields)]
pub enum MusicQuizCommandError {
    GuildNotCached,
    UserNotInVoiceChannel,
    UserHasNoChannelId,
    SongbirdCallDoesNotExist,
    SendingMessageFailed(String),
    MusicQuiz(MusicQuizError),
    Spotify(SpotifyClientError),
    Itunes(ItunesClientError),
    CouldNotLeaveChannel(String),
    InvalidUrl(::url::ParseError),
    ErrorCreatingResponse(String),
    MustBeUsedInGuild,
    SongbirdNotInitialized,
    GameAlreadyRunningInGuild,
    TooFewUsersInChannel { actual: usize },
    PlaylistContainsNotEnoughSongs { expected: u32, actual: u32 },
    PlaylistContainsNotEnoughPreviewableSongs { expected: u32, actual: u32 },
    FailedToJoinVoiceChannel(String),
}

} // verus!
