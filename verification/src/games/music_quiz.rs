//! The music quiz: tracks, rounds, the session with its scores, the judging
//! of guesses and the quiz that ties them together.
pub mod error;
pub mod laws;
pub mod matching;
pub mod message_handler;
pub mod quiz;
pub mod session;
pub mod track;

pub use error::MusicQuizError;
pub use track::QuizTrack;
