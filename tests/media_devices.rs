use pillar::devices::{get_default_audio_device, get_device_name, list_audio_devices, AudioDevice, DeviceRecord};
use pillar::error::BridgeError;
use pillar::media::{app_name_from_id, command_session, get_media_session, MediaRecord, PlaybackStatus};
use pillar::text::{decimal_of, less_than};

#[test]
fn no_transport_session_is_none() {
    assert_eq!(get_media_session(None), None);
}

#[test]
fn now_playing_record() {
    let rec = MediaRecord {
        title: Some("Song".to_string()),
        artist: None,
        album: Some(String::new()),
        status: PlaybackStatus::Playing,
        source_app_id: Some("C:\\Program Files\\Spotify\\Spotify.exe".to_string()),
    };
    let info = get_media_session(Some(rec)).unwrap();
    assert_eq!(info.title, "Song");
    assert_eq!(info.artist, "");
    assert_eq!(info.album, None);
    assert!(info.is_playing);
    assert_eq!(info.app_name, Some("Spotify".to_string()));
}

#[test]
fn paused_session_with_album() {
    let rec = MediaRecord {
        title: None,
        artist: Some("Band".to_string()),
        album: Some("Record".to_string()),
        status: PlaybackStatus::Paused,
        source_app_id: None,
    };
    let info = get_media_session(Some(rec)).unwrap();
    assert_eq!(info.title, "");
    assert_eq!(info.artist, "Band");
    assert_eq!(info.album, Some("Record".to_string()));
    assert!(!info.is_playing);
    assert_eq!(info.app_name, None);
}

#[test]
fn app_name_from_source_id() {
    assert_eq!(app_name_from_id("Spotify.exe"), "Spotify");
    assert_eq!(app_name_from_id("Microsoft.ZuneMusic_8wekyb3d8bbwe!Microsoft.ZuneMusic"), "Microsoft.ZuneMusic_8wekyb3d8bbwe!Microsoft.ZuneMusic");
    assert_eq!(app_name_from_id("a\\b\\"), "");
    assert_eq!(app_name_from_id("x.exe.exe"), "x.exe");
}

#[test]
fn commands_need_a_session() {
    assert_eq!(command_session::<u8>(None), Err(BridgeError::NoActiveSession));
    assert_eq!(command_session(Some(3u8)), Ok(3));
}

fn device(id: &str, name: Option<&str>) -> DeviceRecord {
    DeviceRecord { id: id.to_string(), friendly_name: name.map(|n| n.to_string()) }
}

#[test]
fn devices_listed_with_default_flagged() {
    let records = vec![
        device("{0.0.0.00000000}.{aaaa-1111}", Some("Speakers")),
        device("{0.0.0.00000000}.{bbbb-2222}", None),
    ];
    let listed = list_audio_devices(&records, "{0.0.0.00000000}.{bbbb-2222}");
    assert_eq!(
        listed,
        vec![
            AudioDevice { id: "{0.0.0.00000000}.{aaaa-1111}".to_string(), name: "Speakers".to_string(), is_default: false },
            AudioDevice { id: "{0.0.0.00000000}.{bbbb-2222}".to_string(), name: "Audio Device bb-2222}".to_string(), is_default: true },
        ]
    );
}

#[test]
fn at_most_one_default_device() {
    let records = vec![device("same", Some("A")), device("same", Some("B")), device("other", Some("C"))];
    let listed = list_audio_devices(&records, "same");
    let flagged: Vec<bool> = listed.iter().map(|d| d.is_default).collect();
    assert_eq!(flagged, vec![true, false, false]);
    assert!(list_audio_devices(&records, "none").iter().all(|d| !d.is_default));
}

#[test]
fn device_name_fallbacks() {
    assert_eq!(get_device_name(&Some(String::new()), "short"), "Audio Device short");
    assert_eq!(get_device_name(&None, "0123456789"), "Audio Device 23456789");
    assert_eq!(get_device_name(&Some("Headset".to_string()), "id"), "Headset");
}

#[test]
fn default_device_is_flagged() {
    let d = get_default_audio_device(&device("abc", Some("Speakers")));
    assert_eq!(d, AudioDevice { id: "abc".to_string(), name: "Speakers".to_string(), is_default: true });
}

#[test]
fn decimal_and_order_helpers() {
    assert_eq!(decimal_of(0), "0");
    assert_eq!(decimal_of(4_294_967_295), "4294967295");
    assert!(less_than("abc", "abd"));
    assert!(less_than("ab", "abc"));
    assert!(!less_than("abc", "abc"));
    assert!(!less_than("b", "a"));
}
