use pillar::error::BridgeError;
use pillar::sessions::{
    find_session, list_audio_sessions, session_app_name, session_volume_level, set_session_volume,
    SessionRecord, SessionVolumeWrite, FULL_VOLUME,
};

fn record(pid: u32, name: &str, active: bool, volume: u32) -> SessionRecord {
    SessionRecord {
        process_id: pid,
        is_active: active,
        display_name: Some(name.to_string()),
        session_identifier: None,
        volume: Some(volume),
        is_muted: Some(false),
    }
}

#[test]
fn active_session_listed_before_inactive() {
    let records = vec![record(100, "Music", false, 300_000), record(200, "Video", true, 800_000)];
    let listed = list_audio_sessions(&records);
    assert_eq!(listed.len(), 2);
    assert_eq!(listed[0].process_id, 200);
    assert_eq!(listed[0].app_name, "Video");
    assert_eq!(listed[0].session_id, "200");
    assert_eq!(listed[0].volume, 800_000);
    assert!(listed[0].is_active);
    assert_eq!(listed[1].process_id, 100);
    assert_eq!(listed[1].app_name, "Music");
    assert_eq!(listed[1].volume, 300_000);
    assert!(!listed[1].is_active);
}

#[test]
fn system_sounds_session_left_out() {
    let records = vec![record(0, "System Sounds", true, FULL_VOLUME), record(42, "Game", false, 10)];
    let listed = list_audio_sessions(&records);
    assert_eq!(listed.len(), 1);
    assert_eq!(listed[0].process_id, 42);
    assert!(listed.iter().all(|s| s.process_id != 0));
}

#[test]
fn names_sort_without_regard_to_case() {
    let records = vec![
        record(1, "Zebra", false, 0),
        record(2, "apple", false, 0),
        record(3, "Mango", false, 0),
        record(4, "banana", true, 0),
        record(5, "Alpha", true, 0),
    ];
    let listed = list_audio_sessions(&records);
    let names: Vec<&str> = listed.iter().map(|s| s.app_name.as_str()).collect();
    assert_eq!(names, vec!["Alpha", "banana", "apple", "Mango", "Zebra"]);
}

#[test]
fn empty_graph_lists_nothing() {
    assert!(list_audio_sessions(&Vec::new()).is_empty());
}

#[test]
fn unreadable_volume_and_mute_take_defaults() {
    let mut r = record(7, "Chat", false, 0);
    r.volume = None;
    r.is_muted = None;
    let mut loud = record(8, "Loud", false, 0);
    loud.volume = Some(2_000_000);
    loud.is_muted = Some(true);
    let listed = list_audio_sessions(&vec![r, loud]);
    assert_eq!(listed[0].app_name, "Chat");
    assert_eq!(listed[0].volume, FULL_VOLUME);
    assert!(!listed[0].is_muted);
    assert_eq!(listed[1].volume, FULL_VOLUME);
    assert!(listed[1].is_muted);
}

#[test]
fn display_name_used_when_usable() {
    let name = session_app_name(&Some("Spotify".to_string()), &Some("x\\y.exe".to_string()), 9);
    assert_eq!(name, "Spotify");
}

#[test]
fn identifier_names_session_without_display_name() {
    let id = Some("{0.0.0.00000000}|\\Device\\HarddiskVolume3\\Apps\\player.exe|stream".to_string());
    assert_eq!(session_app_name(&None, &id, 9), "player");
    assert_eq!(session_app_name(&Some(String::new()), &id, 9), "player");
    assert_eq!(session_app_name(&Some("@{Microsoft.Photos}".to_string()), &id, 9), "player");
}

#[test]
fn identifier_without_separators_is_kept() {
    let id = Some("standalone".to_string());
    assert_eq!(session_app_name(&None, &id, 9), "standalone");
}

#[test]
fn pid_names_session_without_identifier() {
    assert_eq!(session_app_name(&Some("@{pkg}".to_string()), &None, 1234), "App 1234");
    assert_eq!(session_app_name(&None, &None, 7), "App 7");
}

#[test]
fn session_volume_out_of_range_rejected() {
    assert_eq!(session_volume_level(-1), Err(BridgeError::InvalidArgument));
    assert_eq!(session_volume_level(1_000_001), Err(BridgeError::InvalidArgument));
    assert_eq!(session_volume_level(0), Ok(0));
    assert_eq!(session_volume_level(1_000_000), Ok(1_000_000));
}

#[test]
fn session_found_by_linear_scan() {
    let pids = vec![Some(5), None, Some(9), Some(9)];
    assert_eq!(find_session(&pids, 9), Ok(2));
    assert_eq!(find_session(&pids, 5), Ok(0));
    assert_eq!(find_session(&pids, 4), Err(BridgeError::SessionNotFound(4)));
    assert_eq!(find_session(&Vec::new(), 0), Err(BridgeError::SessionNotFound(0)));
}

#[test]
fn session_volume_write_checks_level_then_session() {
    let pids = vec![Some(5), Some(9)];
    assert_eq!(
        set_session_volume(&pids, 9, 250_000),
        Ok(SessionVolumeWrite { index: 1, volume: 250_000 })
    );
    assert_eq!(set_session_volume(&pids, 3, 250_000), Err(BridgeError::SessionNotFound(3)));
    assert_eq!(set_session_volume(&pids, 3, 2_000_000), Err(BridgeError::InvalidArgument));
}
