use player_core::device::{
    contains_device, get_audio_devices, has_device_changed, require_device, AudioDevice,
    DeviceState,
};
use player_core::error::AppError;
use player_core::clock::{reading_of, Clock};

fn names(list: &[&str]) -> Vec<String> {
    list.iter().map(|name| name.to_string()).collect()
}

fn listed(devices: &[AudioDevice]) -> Vec<(&str, bool)> {
    devices.iter().map(|device| (device.name.as_str(), device.is_default)).collect()
}

#[test]
fn devices_are_listed_with_the_default_marked() {
    let devices =
        get_audio_devices(&names(&["Speakers", "Headset", "HDMI"]), &Some("Headset".to_string()));
    assert_eq!(listed(&devices), vec![("Speakers", false), ("Headset", true), ("HDMI", false)]);
}

#[test]
fn a_host_without_devices_lists_the_default_alone() {
    let devices = get_audio_devices(&names(&[]), &Some("Speakers".to_string()));
    assert_eq!(listed(&devices), vec![("Speakers", true)]);
    let devices = get_audio_devices(&names(&[]), &None);
    assert_eq!(listed(&devices), vec![("Default", true)]);
}

#[test]
fn an_unnamed_default_is_called_default() {
    let devices = get_audio_devices(&names(&["Default", "USB"]), &None);
    assert_eq!(listed(&devices), vec![("Default", true), ("USB", false)]);
    let devices = get_audio_devices(&names(&["USB"]), &None);
    assert_eq!(listed(&devices), vec![("USB", false)]);
}

#[test]
fn devices_of_the_same_name_are_all_marked() {
    let devices = get_audio_devices(&names(&["USB", "USB"]), &Some("USB".to_string()));
    assert_eq!(listed(&devices), vec![("USB", true), ("USB", true)]);
}

#[test]
fn a_device_is_found_by_its_exact_name() {
    let devices = get_audio_devices(&names(&["Speakers", "Headset"]), &None);
    assert!(contains_device(&devices, &"Headset".to_string()));
    assert!(!contains_device(&devices, &"headset".to_string()));
    assert!(!contains_device(&devices, &"".to_string()));
    assert!(!contains_device(&Vec::new(), &"Headset".to_string()));
}

#[test]
fn switching_to_an_unknown_device_is_not_found() {
    let devices = get_audio_devices(&names(&["Speakers"]), &None);
    assert!(require_device(&devices, &"Speakers".to_string()).is_ok());
    match require_device(&devices, &"Tin can".to_string()) {
        Err(AppError::NotFound(detail)) => assert_eq!(detail, "Device 'Tin can' not found"),
        other => panic!("expected NotFound, got {:?}", other),
    }
}

#[test]
fn device_change_compares_with_the_connected_name() {
    let speakers = Some("Speakers".to_string());
    let headset = Some("Headset".to_string());
    assert!(!has_device_changed(&speakers, &speakers.clone()));
    assert!(has_device_changed(&speakers, &headset));
    assert!(has_device_changed(&speakers, &None));
    assert!(!has_device_changed(&None, &headset));
    assert!(!has_device_changed(&None, &None));
}

#[test]
fn device_state_keeps_what_it_is_given() {
    let mut state = DeviceState::new("stream 1", 11u8, Some("Speakers".to_string()));
    assert_eq!(state.stream, "stream 1");
    assert_eq!(*state.mixer(), 11);
    assert_eq!(state.connected_device_name.as_deref(), Some("Speakers"));
    assert!(!state.has_device_changed(&Some("Speakers".to_string())));
    assert!(state.has_device_changed(&Some("Headset".to_string())));

    state.replace_at("stream 2", 22, None, 500);
    assert_eq!(state.stream, "stream 2");
    assert_eq!(*state.mixer(), 22);
    assert_eq!(state.connected_device_name, None);
    assert_eq!(state.last_active, 500);
    assert!(!state.has_device_changed(&Some("Headset".to_string())));
}

#[test]
fn idle_time_counts_from_the_last_use() {
    let mut state = DeviceState::new((), (), None);
    state.update_active_at(1_000);
    assert_eq!(state.idle_at(1_000), 0);
    assert_eq!(state.idle_at(4_500), 3_500);
    assert_eq!(state.idle_at(999), 0);
    state.update_active_at(4_000);
    assert_eq!(state.idle_at(4_500), 500);
}

#[test]
fn clocked_device_calls_agree_with_the_clock() {
    let mut state = DeviceState::new((), (), None);
    let made = state.last_active;
    assert!(made <= state.now());
    state.update_active();
    assert!(state.last_active >= made);
    let before = state.now();
    state.replace((), (), Some("USB".to_string()));
    assert!(state.last_active >= before);
    assert_eq!(state.connected_device_name.as_deref(), Some("USB"));
    assert!(state.idle() <= state.now());
}

#[test]
fn a_count_of_nanoseconds_becomes_a_reading() {
    assert_eq!(reading_of(0), 0);
    assert_eq!(reading_of(1_500_000_000), 1_500_000_000);
    assert_eq!(reading_of(u64::MAX as u128), u64::MAX);
    assert_eq!(reading_of(u64::MAX as u128 + 1), u64::MAX);
    assert_eq!(reading_of(u128::MAX), u64::MAX);
}

#[test]
fn a_new_clock_starts_near_zero_and_does_not_run_backwards() {
    let clock = Clock::new();
    let first = clock.now();
    let second = clock.now();
    assert!(first <= second);
    assert!(first < 60_000_000_000);
}
