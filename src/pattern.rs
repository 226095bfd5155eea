use vstd::prelude::*;

verus! {

/// Strength of one feedback pulse, ordered by intensity: `Generic` is the
/// weakest, `LevelChange` the strongest.
#[derive(Clone, Copy, Debug, PartialEq, Eq, Structural)]
pub enum HapticPattern {
    Generic,
    Alignment,
    LevelChange,
}

/// When the platform should perform a requested pulse.
#[derive(Clone, Copy, Debug, PartialEq, Eq, Structural)]
pub enum PerformanceTime {
    Default,
    Now,
    DrawCompleted,
}

/// The platform's numeric value for a pulse strength.
pub open spec fn pattern_code(p: HapticPattern) -> i64 {
    match p {
        HapticPattern::Generic => 0,
        HapticPattern::Alignment => 1,
        HapticPattern::LevelChange => 2,
    }
}

/// Rank of a strength in intensity order.
pub open spec fn intensity_rank(p: HapticPattern) -> nat {
    match p {
        HapticPattern::Generic => 0,
        HapticPattern::Alignment => 1,
        HapticPattern::LevelChange => 2,
    }
}

/// The platform's numeric value for a performance time.
pub open spec fn time_code(t: PerformanceTime) -> i64 {
    match t {
        PerformanceTime::Default => 0,
        PerformanceTime::Now => 1,
        PerformanceTime::DrawCompleted => 2,
    }
}

impl HapticPattern {
    /// The value handed to the platform's feedback performer.
    pub fn code(self) -> (r: i64)
        ensures
            r == pattern_code(self),
    {
        match self {
            HapticPattern::Generic => 0,
            HapticPattern::Alignment => 1,
            HapticPattern::LevelChange => 2,
        }
    }

    /// Whether `self` is strictly weaker than `other`.
    pub fn is_weaker_than(self, other: HapticPattern) -> (r: bool)
        ensures
            r == (intensity_rank(self) < intensity_rank(other)),
    {
        match (self, other) {
            (HapticPattern::Generic, HapticPattern::Alignment) => true,
            (HapticPattern::Generic, HapticPattern::LevelChange) => true,
            (HapticPattern::Alignment, HapticPattern::LevelChange) => true,
            _ => false,
        }
    }
}

impl PerformanceTime {
    /// The value handed to the platform's feedback performer.
    pub fn code(self) -> (r: i64)
        ensures
            r == time_code(self),
    {
        match self {
            PerformanceTime::Default => 0,
            PerformanceTime::Now => 1,
            PerformanceTime::DrawCompleted => 2,
        }
    }
}

/// One pulse and the pause that follows it before the next pulse. The pause
/// of the last step of a sequence is never taken.
#[derive(Clone, Copy, Debug, PartialEq, Eq, Structural)]
pub struct PulseStep {
    pub pattern: HapticPattern,
    pub delay_after_ms: u64,
}

/// The one way firing a pulse can fail: the platform's feedback capability
/// could not be obtained, or the request could not be issued.
#[derive(Clone, Copy, Debug, PartialEq, Eq, Structural)]
pub enum PulseError {
    Unavailable,
}

/// A step as a spec value.
pub open spec fn step(p: HapticPattern, d: u64) -> PulseStep {
    PulseStep { pattern: p, delay_after_ms: d }
}

impl PulseStep {
    pub fn new(pattern: HapticPattern, delay_after_ms: u64) -> (r: PulseStep)
        ensures
            r == step(pattern, delay_after_ms),
    {
        PulseStep { pattern, delay_after_ms }
    }
}

} // verus!
