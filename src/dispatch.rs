use vstd::prelude::*;
use crate::error::ChimeError;
use crate::render::{BASE_UNIT_MS, Segment, render_sequence, segments_of};
use crate::sequence::compile_spec;
use crate::strike::StrikeScheduler;

verus! {

/// Which kind of chime to play.
#[derive(Clone, Copy, Debug, PartialEq, Eq, Structural)]
pub enum ChimeMode {
    Notes,
    File,
    GrandfatherClock,
}

/// What one chime consists of, decided from the configuration.
#[derive(Debug)]
pub enum ChimePlan {
    /// Play these segments back to back and wait until they drain.
    Tones(Vec<Segment>),
    /// Play the configured audio file and wait until it drains.
    PlayFile,
    /// Run this grandfather-clock scheduler.
    Strikes(StrikeScheduler),
    /// Play nothing, for this reason.
    Skip(ChimeError),
}

/// Chooses what to play for `mode`. `notes` is the note sequence; the flags
/// say which sound files are configured; `stagger_ms` is the pause between
/// two strikes.
pub fn plan_chime(
    mode: ChimeMode,
    notes: &str,
    has_audio_file: bool,
    has_prelude: bool,
    has_strike_file: bool,
    stagger_ms: u64,
) -> (r: ChimePlan)
    ensures
        mode == ChimeMode::Notes <==> r is Tones,
        r matches ChimePlan::Tones(v) ==> v@ == segments_of(compile_spec(notes@), BASE_UNIT_MS),
        r is PlayFile <==> mode == ChimeMode::File && has_audio_file,
        r is Skip <==> mode == ChimeMode::File && !has_audio_file,
        r matches ChimePlan::Skip(e) ==> e == ChimeError::MissingAudioFile,
        r is Strikes <==> mode == ChimeMode::GrandfatherClock,
        r matches ChimePlan::Strikes(s) ==> s == StrikeScheduler::new_spec(
            has_prelude,
            has_strike_file,
            stagger_ms,
        ),
{
    match mode {
        ChimeMode::Notes => ChimePlan::Tones(render_sequence(notes)),
        ChimeMode::File => if has_audio_file {
            ChimePlan::PlayFile
        } else {
            ChimePlan::Skip(ChimeError::MissingAudioFile)
        },
        ChimeMode::GrandfatherClock => ChimePlan::Strikes(
            StrikeScheduler::new(has_prelude, has_strike_file, stagger_ms),
        ),
    }
}

} // verus!
