use vstd::prelude::*;

use crate::pattern::{step, HapticPattern, PulseStep};

verus! {

/// The named cues a host can trigger.
#[derive(Clone, Copy, Debug, PartialEq, Eq, Structural)]
pub enum Cue {
    /// Ultra-light tick, for groove simulation.
    Tick,
    /// Subtle button feedback.
    Soft,
    /// General interactions.
    Tap,
    /// Snap for precise actions.
    Alignment,
    /// Strongest single pulse.
    LevelChange,
    /// "Click-clack", as for swapping a disc.
    DoubleTap,
    /// Error or warning.
    TripleTap,
    /// Confirmation: snap, then settle.
    Success,
    /// Heavy impact for significant actions.
    Thunk,
    /// Ascending energy.
    Play,
    /// Descending, settling.
    Pause,
    /// Scrubbing reversed its direction.
    DirectionChange,
}

/// The cue catalog: each cue's steps as (strength, pause after). The last
/// step's pause is zero, as it is never taken.
pub open spec fn catalog(c: Cue) -> Seq<PulseStep> {
    match c {
        Cue::Tick => seq![step(HapticPattern::Generic, 0)],
        Cue::Soft => seq![step(HapticPattern::Generic, 0)],
        Cue::Tap => seq![step(HapticPattern::Generic, 0)],
        Cue::Alignment => seq![step(HapticPattern::Alignment, 0)],
        Cue::LevelChange => seq![step(HapticPattern::LevelChange, 0)],
        Cue::DoubleTap => seq![step(HapticPattern::Alignment, 60), step(HapticPattern::Alignment, 0)],
        Cue::TripleTap => seq![
            step(HapticPattern::LevelChange, 80),
            step(HapticPattern::LevelChange, 80),
            step(HapticPattern::LevelChange, 0),
        ],
        Cue::Success => seq![step(HapticPattern::Alignment, 40), step(HapticPattern::Generic, 0)],
        Cue::Thunk => seq![step(HapticPattern::LevelChange, 25), step(HapticPattern::Generic, 0)],
        Cue::Play => seq![step(HapticPattern::Generic, 50), step(HapticPattern::Alignment, 0)],
        Cue::Pause => seq![step(HapticPattern::Alignment, 50), step(HapticPattern::Generic, 0)],
        Cue::DirectionChange => seq![step(HapticPattern::Alignment, 0)],
    }
}

/// The cues made of one pulse.
pub open spec fn is_single_pulse(c: Cue) -> bool {
    match c {
        Cue::Tick | Cue::Soft | Cue::Tap | Cue::Alignment | Cue::LevelChange
        | Cue::DirectionChange => true,
        _ => false,
    }
}

/// `count` pulses of one strength, `interval_ms` apart.
pub open spec fn repetition(pattern: HapticPattern, count: nat, interval_ms: u64) -> Seq<PulseStep> {
    Seq::new(
        count,
        |i: int|
            if i + 1 < count {
                step(pattern, interval_ms)
            } else {
                step(pattern, 0)
            },
    )
}

/// The steps of `count` pulses of one strength, `interval_ms` apart.
pub fn repeated(pattern: HapticPattern, count: u32, interval_ms: u64) -> (r: Vec<PulseStep>)
    ensures
        r@ == repetition(pattern, count as nat, interval_ms),
{
    let mut r: Vec<PulseStep> = Vec::new();
    let mut i: u32 = 0;
    while i < count
        invariant
            i <= count,
            r@ == repetition(pattern, count as nat, interval_ms).take(i as int),
        decreases count - i,
    {
        let delay: u64 = if i + 1 < count {
            interval_ms
        } else {
            0
        };
        r.push(PulseStep::new(pattern, delay));
        i = i + 1;
        assert(r@ =~= repetition(pattern, count as nat, interval_ms).take(i as int));
    }
    assert(r@ =~= repetition(pattern, count as nat, interval_ms));
    r
}

fn single(p: HapticPattern) -> (r: Vec<PulseStep>)
    ensures
        r@ == seq![step(p, 0)],
{
    let mut r: Vec<PulseStep> = Vec::new();
    r.push(PulseStep::new(p, 0));
    assert(r@ =~= seq![step(p, 0)]);
    r
}

fn pair(first: HapticPattern, delay_ms: u64, second: HapticPattern) -> (r: Vec<PulseStep>)
    ensures
        r@ == seq![step(first, delay_ms), step(second, 0)],
{
    let mut r: Vec<PulseStep> = Vec::new();
    r.push(PulseStep::new(first, delay_ms));
    r.push(PulseStep::new(second, 0));
    assert(r@ =~= seq![step(first, delay_ms), step(second, 0)]);
    r
}

/// The steps of a named cue, as the catalog lists them.
pub fn cue_steps(c: Cue) -> (r: Vec<PulseStep>)
    ensures
        r@ == catalog(c),
        r@.len() > 0,
{
    match c {
        Cue::Tick => single(HapticPattern::Generic),
        Cue::Soft => single(HapticPattern::Generic),
        Cue::Tap => single(HapticPattern::Generic),
        Cue::Alignment => single(HapticPattern::Alignment),
        Cue::LevelChange => single(HapticPattern::LevelChange),
        Cue::DoubleTap => {
            let r = repeated(HapticPattern::Alignment, 2, 60);
            assert(r@ =~= catalog(c));
            r
        },
        Cue::TripleTap => {
            let r = repeated(HapticPattern::LevelChange, 3, 80);
            assert(r@ =~= catalog(c));
            r
        },
        Cue::Success => pair(HapticPattern::Alignment, 40, HapticPattern::Generic),
        Cue::Thunk => pair(HapticPattern::LevelChange, 25, HapticPattern::Generic),
        Cue::Play => pair(HapticPattern::Generic, 50, HapticPattern::Alignment),
        Cue::Pause => pair(HapticPattern::Alignment, 50, HapticPattern::Generic),
        Cue::DirectionChange => single(HapticPattern::Alignment),
    }
}

} // verus!
