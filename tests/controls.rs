use pillar::brightness::{
    brightness_target, ddc_target, get_system_brightness, normalize_level, set_system_brightness,
    BrightnessInfo, BrightnessWrite, DdcReading, SetProgress,
};
use pillar::error::BridgeError;
use pillar::fullscreen::{is_foreground_fullscreen, ForegroundWindow, MonitorSize, WS_CAPTION};

const WS_POPUP: u64 = 0x8000_0000;
use pillar::volume::{get_system_volume, set_system_volume, toggle_mute, VolumeInfo};

#[test]
fn volume_round_trips_for_every_level() {
    for v in 0..=100u32 {
        let scalar = set_system_volume(v).unwrap();
        assert_eq!(get_system_volume(scalar, false).level, v);
        assert_eq!(get_system_volume(scalar + 4_999, false).level, v);
        assert_eq!(get_system_volume(scalar.saturating_sub(5_000), false).level, v);
    }
}

#[test]
fn volume_above_hundred_rejected() {
    assert_eq!(set_system_volume(101), Err(BridgeError::InvalidArgument));
    assert_eq!(set_system_volume(100), Ok(1_000_000));
}

#[test]
fn volume_rounds_to_nearest_percent() {
    assert_eq!(get_system_volume(505_000, true), VolumeInfo { level: 51, is_muted: true });
    assert_eq!(get_system_volume(504_999, false), VolumeInfo { level: 50, is_muted: false });
    assert_eq!(get_system_volume(u32::MAX, false).level, 100);
}

#[test]
fn mute_toggles() {
    assert!(toggle_mute(false));
    assert!(!toggle_mute(true));
}

#[test]
fn brightness_request_clamped() {
    assert_eq!(brightness_target(150), 100);
    assert_eq!(brightness_target(40), 40);
    assert_eq!(get_system_brightness(Some(brightness_target(150)), None).level, 100);
}

#[test]
fn internal_panel_round_trip() {
    for l in 0..=100u32 {
        let info = get_system_brightness(Some(brightness_target(l)), None);
        assert_eq!(info, BrightnessInfo { level: l, min: 0, max: 100, is_supported: true });
    }
}

#[test]
fn internal_panel_preferred_over_monitor() {
    let ddc = Some(DdcReading { min: 0, current: 10, max: 100 });
    assert_eq!(get_system_brightness(Some(70), ddc).level, 70);
}

#[test]
fn monitor_reading_normalized() {
    let info = get_system_brightness(None, Some(DdcReading { min: 10, current: 55, max: 110 }));
    assert_eq!(info, BrightnessInfo { level: 45, min: 10, max: 110, is_supported: true });
    assert_eq!(normalize_level(20, 20, 20), 100);
    assert_eq!(normalize_level(0, 300, 200), 100);
    assert_eq!(normalize_level(50, 0, 150), 0);
}

#[test]
fn no_tier_gives_sentinel() {
    assert_eq!(
        get_system_brightness(None, None),
        BrightnessInfo { level: 100, min: 0, max: 100, is_supported: false }
    );
}

#[test]
fn monitor_write_value() {
    assert_eq!(ddc_target(50, 0, 200), 100);
    assert_eq!(ddc_target(150, 10, 110), 110);
    assert_eq!(ddc_target(0, 10, 110), 10);
    assert_eq!(ddc_target(33, 0, 50), 16);
    assert_eq!(ddc_target(70, 30, 30), 30);
}

#[test]
fn brightness_tiers_tried_in_order() {
    let r = Some(DdcReading { min: 10, current: 40, max: 110 });
    assert_eq!(set_system_brightness(40, SetProgress::Start, None), Ok(Some(BrightnessWrite::Panel(40))));
    assert_eq!(set_system_brightness(40, SetProgress::Written, r), Ok(None));
    assert_eq!(set_system_brightness(40, SetProgress::PanelRefused, r), Ok(Some(BrightnessWrite::Monitor(50))));
    assert_eq!(set_system_brightness(40, SetProgress::PanelRefused, None), Err(BridgeError::BrightnessUnsupported));
    assert_eq!(set_system_brightness(40, SetProgress::MonitorRefused, r), Err(BridgeError::BrightnessUnsupported));
}

#[test]
fn brightness_change_above_hundred_acts_as_hundred() {
    let r = Some(DdcReading { min: 20, current: 30, max: 220 });
    assert_eq!(set_system_brightness(150, SetProgress::Start, r), Ok(Some(BrightnessWrite::Panel(100))));
    assert_eq!(set_system_brightness(150, SetProgress::PanelRefused, r), Ok(Some(BrightnessWrite::Monitor(220))));
    for p in [SetProgress::Start, SetProgress::PanelRefused, SetProgress::MonitorRefused, SetProgress::Written] {
        assert_eq!(set_system_brightness(150, p, r), set_system_brightness(100, p, r));
    }
}

fn monitor() -> Option<MonitorSize> {
    Some(MonitorSize { width: 1920, height: 1080 })
}

fn window(w: i32, h: i32, style: u64) -> Option<ForegroundWindow> {
    Some(ForegroundWindow { left: 0, top: 0, right: w, bottom: h, style })
}

#[test]
fn borderless_window_covering_screen_is_content_fullscreen() {
    assert!(is_foreground_fullscreen(monitor(), window(1824, 1026, WS_POPUP | 0x1000_0000)));
    assert!(is_foreground_fullscreen(monitor(), window(1824, 1026, 0x1000_0000)));
}

#[test]
fn captioned_window_covering_screen_is_not() {
    assert!(!is_foreground_fullscreen(monitor(), window(1824, 1026, WS_CAPTION | 0x1000_0000)));
    assert!(!is_foreground_fullscreen(monitor(), window(1824, 1026, WS_POPUP | WS_CAPTION)));
    assert!(!is_foreground_fullscreen(monitor(), window(1920, 1080, 0x0040_0000)));
}

#[test]
fn half_screen_window_is_not() {
    assert!(!is_foreground_fullscreen(monitor(), window(960, 540, WS_POPUP)));
    assert!(!is_foreground_fullscreen(monitor(), window(1920, 540, WS_POPUP)));
}

#[test]
fn unknown_geometry_or_style_is_not() {
    assert!(!is_foreground_fullscreen(None, window(1920, 1080, WS_POPUP)));
    assert!(!is_foreground_fullscreen(monitor(), None));
    assert!(!is_foreground_fullscreen(monitor(), window(1920, 1080, 0)));
}

#[test]
fn threshold_is_ninety_percent() {
    assert!(is_foreground_fullscreen(monitor(), window(1728, 972, WS_POPUP)));
    assert!(!is_foreground_fullscreen(monitor(), window(1727, 972, WS_POPUP)));
}
