use vstd::prelude::*;

use crate::error::BridgeError;

verus! {

/// Display brightness as reported to the user.
///
/// `level` is normalized to 0..=100; `min` and `max` are in the device's raw
/// units and only meaningful when `is_supported`.
#[derive(Debug, Clone, Copy, PartialEq, Eq)]
pub struct BrightnessInfo {
    pub level: u32,
    pub min: u32,
    pub max: u32,
    pub is_supported: bool,
}

/// Raw brightness read over the external-monitor control channel.
#[derive(Debug, Clone, Copy, PartialEq, Eq)]
pub struct DdcReading {
    pub min: u32,
    pub current: u32,
    pub max: u32,
}

/// How far a brightness change has come. The internal panel is tried first,
/// then the external-monitor hardware control channel.
#[derive(Debug, Clone, Copy, PartialEq, Eq)]
pub enum SetProgress {
    /// Nothing has been written yet.
    Start,
    /// No internal panel accepted the write.
    PanelRefused,
    /// The external monitor did not accept the write.
    MonitorRefused,
    /// The last write was accepted.
    Written,
}

/// A brightness write to perform next.
#[derive(Debug, Clone, Copy, PartialEq, Eq)]
pub enum BrightnessWrite {
    /// Set this percentage on the internal panel.
    Panel(u32),
    /// Write this raw value over the external-monitor control channel.
    Monitor(u32),
}

pub open spec fn clamp_percent(level: u32) -> u32 {
    if level > 100 {
        100
    } else {
        level
    }
}

/// `current`, moved into `min..=max`, as a percentage of that range; 100 for
/// an empty range.
pub open spec fn normalized_level(min: u32, current: u32, max: u32) -> u32 {
    if max <= min {
        100
    } else {
        let c = if current < min {
            min
        } else if current > max {
            max
        } else {
            current
        };
        ((c - min) * 100 / (max - min)) as u32
    }
}

/// The raw value written for a percentage `level` (clamped to 100) on a device
/// with range `min..=max`.
pub open spec fn ddc_value(level: u32, min: u32, max: u32) -> u32 {
    if max <= min {
        min
    } else {
        (min + clamp_percent(level) * (max - min) / 100) as u32
    }
}

pub open spec fn unsupported_info() -> BrightnessInfo {
    BrightnessInfo { level: 100, min: 0, max: 100, is_supported: false }
}

pub open spec fn internal_info(level: u32) -> BrightnessInfo {
    BrightnessInfo { level: clamp_percent(level), min: 0, max: 100, is_supported: true }
}

pub open spec fn ddc_info(r: DdcReading) -> BrightnessInfo {
    BrightnessInfo {
        level: normalized_level(r.min, r.current, r.max),
        min: r.min,
        max: r.max,
        is_supported: true,
    }
}

/// Brightness as the first tier that could be read reports it.
pub open spec fn brightness_of(internal: Option<u32>, ddc: Option<DdcReading>) -> BrightnessInfo {
    match internal {
        Some(level) => internal_info(level),
        None => match ddc {
            Some(r) => ddc_info(r),
            None => unsupported_info(),
        },
    }
}

/// A requested brightness level, clamped to 100.
pub fn brightness_target(level: u32) -> (r: u32)
    ensures
        r == clamp_percent(level),
{
    if level > 100 {
        100
    } else {
        level
    }
}

/// Percentage of a raw external-monitor reading.
pub fn normalize_level(min: u32, current: u32, max: u32) -> (r: u32)
    ensures
        r == normalized_level(min, current, max),
        r <= 100,
{
    if max <= min {
        return 100;
    }
    let c = if current < min {
        min
    } else if current > max {
        max
    } else {
        current
    };
    let range = (max - min) as u64;
    let offset = (c - min) as u64;
    proof {
        assert(offset * 100 <= range * 100) by (nonlinear_arith)
            requires
                offset <= range,
        ;
        assert((offset * 100) as int / (range as int) <= 100) by (nonlinear_arith)
            requires
                offset * 100 <= range * 100,
                range > 0,
        ;
    }
    (offset * 100 / range) as u32
}

/// Raw external-monitor value for a percentage.
pub fn ddc_target(level: u32, min: u32, max: u32) -> (r: u32)
    ensures
        r == ddc_value(level, min, max),
        min <= max ==> min <= r <= max,
{
    if max <= min {
        return min;
    }
    let l = brightness_target(level) as u64;
    let range = (max - min) as u64;
    proof {
        assert(l * range <= 100 * range) by (nonlinear_arith)
            requires
                l <= 100,
        ;
        assert((l * range) as int / 100 <= range) by (nonlinear_arith)
            requires
                l * range <= 100 * range,
        ;
    }
    (min as u64 + l * range / 100) as u32
}

/// Brightness as read from the internal panel, or from the external monitor
/// when the panel gave nothing, or the "fully bright, uncontrollable" sentinel
/// when neither could be read.
pub fn get_system_brightness(internal: Option<u32>, ddc: Option<DdcReading>) -> (r:
    BrightnessInfo)
    ensures
        r == brightness_of(internal, ddc),
        r.level <= 100,
{
    match internal {
        Some(level) => BrightnessInfo {
            level: brightness_target(level),
            min: 0,
            max: 100,
            is_supported: true,
        },
        None => match ddc {
            Some(d) => BrightnessInfo {
                level: normalize_level(d.min, d.current, d.max),
                min: d.min,
                max: d.max,
                is_supported: true,
            },
            None => BrightnessInfo { level: 100, min: 0, max: 100, is_supported: false },
        },
    }
}

/// The next step of a change to brightness `level`, given how far the change
/// has come and the external monitor's reading (`None` when the monitor or
/// its range could not be read): the write to perform, `None` once a write was
/// accepted, or the failure once both tiers refused.
pub open spec fn brightness_step(level: u32, progress: SetProgress, monitor: Option<DdcReading>) -> Result<
    Option<BrightnessWrite>,
    BridgeError,
> {
    match progress {
        SetProgress::Start => Ok(Some(BrightnessWrite::Panel(clamp_percent(level)))),
        SetProgress::Written => Ok(None),
        SetProgress::PanelRefused => match monitor {
            Some(r) => Ok(Some(BrightnessWrite::Monitor(ddc_value(level, r.min, r.max)))),
            None => Err(BridgeError::BrightnessUnsupported),
        },
        SetProgress::MonitorRefused => Err(BridgeError::BrightnessUnsupported),
    }
}

/// The next step of a brightness change, as `brightness_step` states it.
pub fn set_system_brightness(level: u32, progress: SetProgress, monitor: Option<DdcReading>) -> (r:
    Result<Option<BrightnessWrite>, BridgeError>)
    ensures
        r == brightness_step(level, progress, monitor),
{
    match progress {
        SetProgress::Start => Ok(Some(BrightnessWrite::Panel(brightness_target(level)))),
        SetProgress::Written => Ok(None),
        SetProgress::PanelRefused => match monitor {
            Some(r) => Ok(Some(BrightnessWrite::Monitor(ddc_target(level, r.min, r.max)))),
            None => Err(BridgeError::BrightnessUnsupported),
        },
        SetProgress::MonitorRefused => Err(BridgeError::BrightnessUnsupported),
    }
}

/// A request above 100 takes every step that a request for 100 takes; the
/// monitor is written `min + level * (max - min) / 100`, within its range; and
/// reading back an internal panel that holds what was set gives the requested
/// level, up to 100.
pub proof fn lemma_brightness_round_trip(
    level: u32,
    progress: SetProgress,
    ddc: Option<DdcReading>,
    r: DdcReading,
)
    ensures
        level > 100 ==> brightness_step(level, progress, ddc) == brightness_step(100, progress, ddc),
        level <= 100 && r.min <= r.max ==> brightness_step(level, SetProgress::PanelRefused, Some(r))
            == Ok::<Option<BrightnessWrite>, BridgeError>(
            Some(BrightnessWrite::Monitor((r.min + level * (r.max - r.min) / 100) as u32)),
        ),
        r.min <= ddc_value(level, r.min, r.max) || r.max < r.min,
        r.min <= r.max ==> ddc_value(level, r.min, r.max) <= r.max,
        level > 100 ==> clamp_percent(level) == clamp_percent(100),
        level <= 100 ==> brightness_of(Some(clamp_percent(level)), ddc).level == level,
        brightness_of(Some(clamp_percent(level)), ddc) == internal_info(clamp_percent(level)),
        brightness_of(Some(clamp_percent(level)), ddc).level == clamp_percent(level),
{
    if r.min < r.max {
        let l = clamp_percent(level) as int;
        let range = r.max - r.min;
        assert(l * range / 100 <= range) by (nonlinear_arith)
            requires
                0 <= l <= 100,
                range > 0,
        ;
        assert(l * range / 100 >= 0) by (nonlinear_arith)
            requires
                0 <= l,
                range > 0,
        ;
    }
}

} // verus!
