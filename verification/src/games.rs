//! The games the bot runs.
pub mod music_quiz;
pub mod state;
