//! The music services the quiz draws its tracks from.
pub mod itunes;
pub mod spotify;
