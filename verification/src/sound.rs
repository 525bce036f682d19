//! Short audio cues. A cue is a sequence of notes, each a pair of
//! (frequency in hertz, duration in milliseconds), played one after another.
use vstd::prelude::*;

verus! {

/// Lowest frequency, in hertz, that the platform beep accepts.
pub const MIN_BEEP_HZ: u32 = 37;

/// Highest frequency, in hertz, that the platform beep accepts.
pub const MAX_BEEP_HZ: u32 = 32767;

/// The frequency actually handed to the platform beep: `freq` clamped into
/// `[MIN_BEEP_HZ, MAX_BEEP_HZ]`.
pub fn beep_frequency(freq: u32) -> (hz: u32)
    ensures
        hz == (if freq < MIN_BEEP_HZ {
            MIN_BEEP_HZ
        } else if freq > MAX_BEEP_HZ {
            MAX_BEEP_HZ
        } else {
            freq
        }),
{
    if freq < MIN_BEEP_HZ {
        MIN_BEEP_HZ
    } else if freq > MAX_BEEP_HZ {
        MAX_BEEP_HZ
    } else {
        freq
    }
}


/// The start cue: a rising pair.
pub open spec fn start_notes() -> Seq<(u32, u32)> {
    seq![(660u32, 70u32), (950u32, 80u32)]
}

/// The finish cue: a falling pair.
pub open spec fn finish_notes() -> Seq<(u32, u32)> {
    seq![(950u32, 90u32), (640u32, 150u32)]
}

/// The alert cue: a low falling pair.
pub open spec fn alert_notes() -> Seq<(u32, u32)> {
    seq![(520u32, 150u32), (380u32, 260u32)]
}

/// Every note of every cue lies within the beep's range, so the clamp in
/// `beep_frequency` leaves it as written.
pub proof fn law_cues_play_as_written()
    ensures
        forall|i: int|
            0 <= i < start_notes().len() ==> MIN_BEEP_HZ <= #[trigger] start_notes()[i].0
                <= MAX_BEEP_HZ,
        forall|i: int|
            0 <= i < finish_notes().len() ==> MIN_BEEP_HZ <= #[trigger] finish_notes()[i].0
                <= MAX_BEEP_HZ,
        forall|i: int|
            0 <= i < alert_notes().len() ==> MIN_BEEP_HZ <= #[trigger] alert_notes()[i].0
                <= MAX_BEEP_HZ,
{
}

/// The notes of the cue that marks the start of a recording: a rising pair.
pub fn start() -> (notes: Vec<(u32, u32)>)
    ensures
        notes@ == start_notes(),
{
    let mut notes: Vec<(u32, u32)> = Vec::new();
    notes.push((660, 70));
    notes.push((950, 80));
    notes
}

/// The notes of the cue that marks a finished recording: a falling pair.
pub fn finish() -> (notes: Vec<(u32, u32)>)
    ensures
        notes@ == finish_notes(),
{
    let mut notes: Vec<(u32, u32)> = Vec::new();
    notes.push((950, 90));
    notes.push((640, 150));
    notes
}

/// The notes of the alert cue: a low falling pair.
pub fn alert() -> (notes: Vec<(u32, u32)>)
    ensures
        notes@ == alert_notes(),
{
    let mut notes: Vec<(u32, u32)> = Vec::new();
    notes.push((520, 150));
    notes.push((380, 260));
    notes
}

} // verus!
