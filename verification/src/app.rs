//! The flow of the music quiz command, apart from its talks with Discord and
//! the music services.
pub mod music_quiz;
