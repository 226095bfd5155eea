use vstd::prelude::*;

use crate::pattern::{step, HapticPattern, PulseStep};

verus! {

/// The sign bit of an IEEE 754 binary64 value.
pub const SIGN_BIT: u64 = 0x8000_0000_0000_0000;

/// Every bit of an IEEE 754 binary64 value but the sign.
pub const MAGNITUDE_MASK: u64 = 0x7fff_ffff_ffff_ffff;

/// The binary64 pattern of positive infinity. A magnitude pattern above it is a NaN.
pub const INFINITY_BITS: u64 = 0x7ff0_0000_0000_0000;

/// The binary64 pattern of 0.7: above it a scrub is strong.
pub const STRONG_THRESHOLD_BITS: u64 = 0x3fe6_6666_6666_6666;

/// The binary64 pattern of 0.3: above it a scrub is medium.
pub const MEDIUM_THRESHOLD_BITS: u64 = 0x3fd3_3333_3333_3333;

/// A scrub intensity, held as the IEEE 754 binary64 bit pattern of the value.
///
/// For patterns with the sign bit clear, the unsigned order of the patterns
/// is the numeric order of the values they encode, up to infinity; what lies
/// above infinity is NaN. So `|x| > t` for a threshold `t` is read on the
/// bits as `bits(t) < magnitude <= INFINITY_BITS`.
#[derive(Clone, Copy, Debug, PartialEq, Eq, Structural)]
pub struct Intensity {
    pub bits: u64,
}

/// The pattern of the absolute value: the sign bit cleared.
pub open spec fn magnitude(bits: u64) -> u64 {
    bits & MAGNITUDE_MASK
}

/// Whether the absolute value encoded by `bits` is greater than the value
/// encoded by the non-negative finite pattern `threshold`.
pub open spec fn exceeds(bits: u64, threshold: u64) -> bool {
    threshold < magnitude(bits) && magnitude(bits) <= INFINITY_BITS
}

/// The strength a scrub selects, tried top-down: strong scrubs get
/// `Alignment`; medium and light scrubs both get `Generic`.
pub open spec fn scrub_choice(bits: u64) -> HapticPattern {
    if exceeds(bits, STRONG_THRESHOLD_BITS) {
        HapticPattern::Alignment
    } else if exceeds(bits, MEDIUM_THRESHOLD_BITS) {
        HapticPattern::Generic
    } else {
        HapticPattern::Generic
    }
}

impl Intensity {
    /// The intensity whose binary64 pattern is `bits`.
    pub fn from_bits(bits: u64) -> (r: Intensity)
        ensures
            r.bits == bits,
    {
        Intensity { bits }
    }

    /// The same intensity with its sign flipped.
    pub fn negated(self) -> (r: Intensity)
        ensures
            r.bits == self.bits ^ SIGN_BIT,
    {
        Intensity { bits: self.bits ^ SIGN_BIT }
    }
}

/// Whether the absolute value of `intensity` is greater than the value that
/// `threshold` encodes.
fn above(intensity: Intensity, threshold: u64) -> (r: bool)
    ensures
        r == exceeds(intensity.bits, threshold),
{
    let m = intensity.bits & MAGNITUDE_MASK;
    threshold < m && m <= INFINITY_BITS
}

/// The strength a scrub of this intensity fires.
pub fn scrub_pattern(intensity: Intensity) -> (r: HapticPattern)
    ensures
        r == scrub_choice(intensity.bits),
{
    if above(intensity, STRONG_THRESHOLD_BITS) {
        HapticPattern::Alignment
    } else if above(intensity, MEDIUM_THRESHOLD_BITS) {
        HapticPattern::Generic
    } else {
        HapticPattern::Generic
    }
}

/// The steps of a scrub cue: one pulse of the selected strength.
pub fn scrub_steps(intensity: Intensity) -> (r: Vec<PulseStep>)
    ensures
        r@ == seq![step(scrub_choice(intensity.bits), 0)],
{
    let mut r: Vec<PulseStep> = Vec::new();
    r.push(PulseStep::new(scrub_pattern(intensity), 0));
    assert(r@ =~= seq![step(scrub_choice(intensity.bits), 0)]);
    r
}

} // verus!
