use vstd::prelude::*;

verus! {

/// Errors of the music quiz game itself.
#[derive(Debug, Clone, Copy, PartialEq, Eq, Structural)]
pub enum MusicQuizError {
    /// A guess came while no round was running.
    NoRoundInProgress,
}

} // verus!
