//! Quantization of the raw taper and law controls to their discrete slots.
//!
//! The taper and law controls arrive as values in [0, 1] and select one of
//! two tapers, respectively one of three laws.  The hosting shell scales and
//! truncates the control; the clamp onto the valid slot range is decided
//! here.

use vstd::prelude::*;

verus! {

/// Clamps a scaled-and-truncated taper control onto the two taper slots:
/// 0 for the sinusoidal taper, 1 for the root taper.
pub fn taper_slot(raw: i32) -> (slot: i32)
    ensures
        slot == if raw < 0 {
            0int
        } else if raw > 1 {
            1int
        } else {
            raw as int
        },
{
    if raw < 0 {
        0
    } else if raw > 1 {
        1
    } else {
        raw
    }
}

/// Clamps a scaled-and-truncated law control onto the three law slots:
/// 0 for 3 dB, 1 for 4.5 dB, 2 for 6 dB of centre attenuation.
pub fn law_slot(raw: i32) -> (slot: i32)
    ensures
        slot == if raw < 0 {
            0int
        } else if raw > 2 {
            2int
        } else {
            raw as int
        },
{
    if raw < 0 {
        0
    } else if raw > 2 {
        2
    } else {
        raw
    }
}

} // verus!
