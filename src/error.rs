use vstd::prelude::*;

verus! {

/// Why a chime was not played in full.
#[derive(Clone, Copy, Debug, PartialEq, Eq, Structural)]
pub enum ChimeError {
    /// File mode was chosen but no audio file is configured.
    MissingAudioFile,
    /// Grandfather-clock mode was chosen but no strike file is configured.
    MissingStrikeFile,
    /// The prelude could not be opened or played.
    PreludeFailed,
}

} // verus!
