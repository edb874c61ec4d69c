use vstd::prelude::*;

use crate::error::BridgeError;

verus! {

/// Full scale of the master volume, in parts per million (1.0 on the native scale).
pub const VOLUME_SCALE: u32 = 1_000_000;

/// Parts per million of full scale in one percent.
pub const PERCENT: u32 = 10_000;

/// Master volume of the default output device.
#[derive(Debug, Clone, Copy, PartialEq, Eq)]
pub struct VolumeInfo {
    /// 0..=100.
    pub level: u32,
    pub is_muted: bool,
}

/// A master volume in parts per million, rounded to the nearest percent and
/// clamped to 100.
pub open spec fn level_of(scalar: u32) -> u32 {
    let l = (scalar + PERCENT / 2) / PERCENT as int;
    if l > 100 {
        100
    } else {
        l as u32
    }
}

/// The master volume, in parts per million, written for a percentage.
pub open spec fn scalar_of(level: u32) -> u32 {
    (level * PERCENT) as u32
}

/// The master volume as reported: `scalar` (parts per million) in percent.
pub fn get_system_volume(scalar: u32, is_muted: bool) -> (r: VolumeInfo)
    ensures
        r == (VolumeInfo { level: level_of(scalar), is_muted }),
        r.level <= 100,
{
    let l = (scalar as u64 + (PERCENT / 2) as u64) / PERCENT as u64;
    let level = if l > 100 {
        100
    } else {
        l as u32
    };
    VolumeInfo { level, is_muted }
}

/// The master volume to write for a percentage; above 100 is rejected.
pub fn set_system_volume(level: u32) -> (r: Result<u32, BridgeError>)
    ensures
        level <= 100 ==> r == Ok::<u32, BridgeError>(scalar_of(level)),
        level > 100 ==> r == Err::<u32, BridgeError>(BridgeError::InvalidArgument),
{
    if level > 100 {
        Err(BridgeError::InvalidArgument)
    } else {
        Ok(level * PERCENT)
    }
}

/// The mute state after a toggle.
pub fn toggle_mute(is_muted: bool) -> (r: bool)
    ensures
        r == !is_muted,
{
    !is_muted
}

/// Setting a level up to 100 and reading it back gives that level, also when
/// the device keeps the volume within half a percent of what was written; within
/// one percent, what is read back is off by at most one.
pub proof fn lemma_volume_round_trip(level: u32, stored: u32)
    requires
        level <= 100,
    ensures
        level_of(scalar_of(level)) == level,
        scalar_of(level) - PERCENT / 2 < stored < scalar_of(level) + PERCENT / 2 ==> level_of(stored)
            == level,
        scalar_of(level) - PERCENT <= stored <= scalar_of(level) + PERCENT ==> level - 1 <= level_of(
            stored,
        ) <= level + 1,
{
    let s = level as int * 10000;
    assert(scalar_of(level) == s);
    assert((s + 5000) / 10000 == level) by (nonlinear_arith)
        requires
            s == level * 10000,
    ;
    if s - 5000 < stored < s + 5000 {
        assert((stored + 5000) / 10000 == level) by (nonlinear_arith)
            requires
                s == level * 10000,
                s - 5000 < stored < s + 5000,
        ;
    }
    if s - 10000 <= stored <= s + 10000 {
        assert(level - 1 <= (stored + 5000) / 10000 <= level + 1) by (nonlinear_arith)
            requires
                s == level * 10000,
                s - 10000 <= stored <= s + 10000,
        ;
    }
}

} // verus!
