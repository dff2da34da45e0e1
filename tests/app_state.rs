use mic_manager::device::{AudioError, AudioFormat, DeviceRole, DeviceState};
use mic_manager::menu::{device_command_id, menu_label, MenuCommand};
use mic_manager::registry::{PreferencesError, UserPreferences, WindowMode};
use mic_manager::state::{
    find_device, tooltip_text, AppState, DeviceChange, FollowUp, MicrophoneDevice, TrayInput,
    TrayRefresh,
};
use mic_manager::tray::{tooltip_units, MenuItemId, TrayState};

fn device(id: &str, name: &str) -> MicrophoneDevice {
    MicrophoneDevice::new(id.to_string(), name.to_string())
}

fn two_devices() -> Vec<MicrophoneDevice> {
    vec![device("{a}", "Headset"), device("{b}", "USB Mic")]
}

fn refreshed(console: Option<&str>, comm: Option<&str>) -> AppState {
    let mut state = AppState::new();
    let r = state.refresh_devices(
        Ok(two_devices()),
        Ok(console.map(|s| s.to_string())),
        Ok(comm.map(|s| s.to_string())),
    );
    assert!(r.is_ok());
    state
}

#[test]
fn new_state_is_empty() {
    let state = AppState::new();
    assert!(state.devices.is_empty());
    assert!(state.default_device_id.is_none());
    assert!(!state.flyout_visible);
    assert!(!state.should_exit);
    assert_eq!(state.window_mode, WindowMode::Flyout);
    assert_eq!(state.get_tooltip(), "No microphone");
    assert!(!state.is_default_muted());
    assert!(state.get_default_device().is_none());
}

#[test]
fn refresh_sets_default_flags() {
    let state = refreshed(Some("{b}"), Some("{a}"));
    assert!(!state.devices[0].is_default);
    assert!(state.devices[0].is_default_communication);
    assert!(state.devices[1].is_default);
    assert!(!state.devices[1].is_default_communication);
    assert!(state.devices[0].is_selected());
    assert_eq!(state.get_default_device().map(|d| d.name.as_str()), Some("USB Mic"));
    assert_eq!(state.get_tooltip(), "USB Mic");
}

#[test]
fn refresh_stops_at_first_failure() {
    let mut state = refreshed(Some("{a}"), None);
    let r = state.refresh_devices(Err(AudioError::NoDefaultDevice), Ok(None), Ok(None));
    assert!(matches!(r, Err(AudioError::NoDefaultDevice)));
    assert_eq!(state.devices.len(), 2);
    assert_eq!(state.default_device_id.as_deref(), Some("{a}"));

    let r = state.refresh_devices(
        Ok(vec![device("{c}", "Array")]),
        Ok(Some("{c}".to_string())),
        Err(AudioError::VolumeNotAvailable),
    );
    assert!(matches!(r, Err(AudioError::VolumeNotAvailable)));
    assert_eq!(state.devices.len(), 1);
    assert_eq!(state.default_device_id.as_deref(), Some("{c}"));
    // the flags were not set again
    assert!(!state.devices[0].is_default);
}

#[test]
fn tooltip_marks_muted_default() {
    let mut state = refreshed(Some("{a}"), None);
    assert_eq!(state.get_tooltip(), "Headset");
    state.update_device_mute("{a}", true);
    assert!(state.is_default_muted());
    assert_eq!(state.get_tooltip(), "Headset (Muted)");
    assert_eq!(tooltip_text("X", true), "X (Muted)");
    assert_eq!(tooltip_text("X", false), "X");
}

#[test]
fn default_missing_from_list() {
    let state = refreshed(Some("{z}"), None);
    assert!(state.get_default_device().is_none());
    assert_eq!(state.get_tooltip(), "No microphone");
}

#[test]
fn mute_and_format_go_to_the_named_device() {
    let mut state = refreshed(None, None);
    state.update_device_mute("{b}", true);
    assert!(!state.devices[0].is_muted);
    assert!(state.devices[1].is_muted);
    state.update_device_mute("{nothing}", true);
    assert!(!state.devices[0].is_muted);
    let fmt = AudioFormat { sample_rate: 44100, bit_depth: 16, channels: 1 };
    state.update_device_format("{a}", fmt);
    assert_eq!(state.devices[0].audio_format, Some(fmt));
    assert_eq!(state.devices[1].audio_format, None);
    assert_eq!(find_device(&state.devices, &"{b}".to_string()), Some(1));
    assert_eq!(find_device(&state.devices, &"{q}".to_string()), None);
}

#[test]
fn initialize_takes_preferences() {
    let mut state = AppState::new();
    let prefs = UserPreferences { start_with_windows: true, window_mode: WindowMode::Docked };
    let r = state.initialize(Ok(prefs), Ok(two_devices()), Ok(Some("{a}".to_string())), Ok(None));
    assert!(r.is_ok());
    assert_eq!(state.window_mode, WindowMode::Docked);
    assert_eq!(state.preferences, prefs);
    assert!(state.devices[0].is_default);

    let mut other = AppState::new();
    let r = other.initialize(
        Err(PreferencesError::ReadFailed { key: "WindowMode".to_string() }),
        Err(AudioError::NoDefaultDevice),
        Ok(None),
        Ok(None),
    );
    assert!(r.is_err());
    assert_eq!(other.preferences, UserPreferences::default());
}

#[test]
fn tray_inputs() {
    let mut state = AppState::new();
    assert_eq!(state.handle_tray_event(TrayInput::LeftClick), None);
    assert!(state.flyout_visible);
    assert_eq!(state.handle_tray_event(TrayInput::LeftClick), None);
    assert!(!state.flyout_visible);
    assert_eq!(state.handle_tray_event(TrayInput::RightClick), None);
    assert_eq!(state.handle_tray_event(TrayInput::DoubleClick), None);
    assert!(!state.flyout_visible);
    assert_eq!(
        state.handle_tray_event(TrayInput::MenuItemClicked(MenuItemId::StartWithWindows)),
        Some(true)
    );
    assert!(state.preferences.start_with_windows);
    assert_eq!(
        state.handle_tray_event(TrayInput::MenuItemClicked(MenuItemId::StartWithWindows)),
        Some(false)
    );
    assert!(!state.should_exit);
    assert_eq!(state.handle_tray_event(TrayInput::MenuItemClicked(MenuItemId::Exit)), None);
    assert!(state.should_exit);
    state.show_flyout();
    assert!(state.flyout_visible);
    state.hide_flyout();
    assert!(!state.flyout_visible);
}

#[test]
fn device_changes() {
    let mut state = refreshed(Some("{a}"), Some("{a}"));
    let full = FollowUp { refresh: true, tray: TrayRefresh::TooltipThenIcon };
    assert_eq!(
        state.handle_device_event(DeviceChange::DeviceAdded { device_id: "{c}".to_string() }),
        full
    );
    assert_eq!(
        state.handle_device_event(DeviceChange::DeviceRemoved { device_id: "{b}".to_string() }),
        full
    );
    assert_eq!(
        state.handle_device_event(DeviceChange::DeviceStateChanged {
            device_id: "{b}".to_string(),
            new_state: DeviceState::Unplugged,
        }),
        FollowUp { refresh: true, tray: TrayRefresh::Keep }
    );
    assert_eq!(
        state.handle_device_event(DeviceChange::DefaultDeviceChanged {
            role: DeviceRole::Communications,
            device_id: Some("{b}".to_string()),
        }),
        full
    );
    assert_eq!(state.default_communication_device_id.as_deref(), Some("{b}"));
    assert_eq!(state.default_device_id.as_deref(), Some("{a}"));
    state.handle_device_event(DeviceChange::DefaultDeviceChanged {
        role: DeviceRole::Multimedia,
        device_id: None,
    });
    assert_eq!(state.default_device_id.as_deref(), Some("{a}"));
    state.handle_device_event(DeviceChange::DefaultDeviceChanged {
        role: DeviceRole::Console,
        device_id: None,
    });
    assert!(state.default_device_id.is_none());
}

#[test]
fn mute_change_updates_tray_for_default_only() {
    let mut state = refreshed(Some("{a}"), None);
    let r = state.handle_device_event(DeviceChange::MuteChanged {
        device_id: "{a}".to_string(),
        is_muted: true,
    });
    assert_eq!(r, FollowUp { refresh: false, tray: TrayRefresh::IconThenTooltip(true) });
    assert!(state.devices[0].is_muted);
    let r = state.handle_device_event(DeviceChange::MuteChanged {
        device_id: "{b}".to_string(),
        is_muted: true,
    });
    assert_eq!(r, FollowUp { refresh: false, tray: TrayRefresh::Keep });
    assert!(state.devices[1].is_muted);
    let fmt = AudioFormat { sample_rate: 96000, bit_depth: 32, channels: 2 };
    let r = state.handle_device_event(DeviceChange::FormatChanged {
        device_id: "{b}".to_string(),
        format: fmt,
    });
    assert_eq!(r, FollowUp { refresh: false, tray: TrayRefresh::Keep });
    assert_eq!(state.devices[1].audio_format, Some(fmt));
}

#[test]
fn menu_commands() {
    assert_eq!(MenuCommand::from_id(1), Some(MenuCommand::Exit));
    assert_eq!(MenuCommand::from_id(2), Some(MenuCommand::ToggleMute));
    assert_eq!(MenuCommand::from_id(3), Some(MenuCommand::ToggleStartup));
    assert_eq!(MenuCommand::from_id(0), None);
    assert_eq!(MenuCommand::from_id(4), None);
    assert_eq!(MenuCommand::from_id(99), None);
    assert_eq!(MenuCommand::from_id(100), Some(MenuCommand::SelectDevice(0)));
    assert_eq!(MenuCommand::from_id(103), Some(MenuCommand::SelectDevice(3)));
    assert_eq!(device_command_id(0), 100);
    assert_eq!(device_command_id(7), 107);
    assert_eq!(MenuCommand::from_id(device_command_id(12)), Some(MenuCommand::SelectDevice(12)));
}

#[test]
fn menu_labels() {
    assert_eq!(menu_label("Headset", true), "\u{2713} Headset");
    assert_eq!(menu_label("Headset", false), "   Headset");
    assert_eq!(menu_label("", false), "   ");
}

#[test]
fn tray_state_default() {
    let s = TrayState::default();
    assert_eq!(s.tooltip, "Microphone Manager");
    assert!(!s.muted);
}

#[test]
fn tooltip_fits_its_buffer() {
    assert_eq!(tooltip_units("Mic", 128), vec![77, 105, 99, 0]);
    assert_eq!(tooltip_units("Mic", 4), vec![77, 105, 99, 0]);
    assert_eq!(tooltip_units("Mic", 2), vec![77, 105]);
    assert_eq!(tooltip_units("Mic", 0), Vec::<u16>::new());
}

#[test]
fn default_state_is_new_state() {
    let state = AppState::default();
    assert!(state.devices.is_empty());
    assert!(state.default_communication_device_id.is_none());
    assert_eq!(state.preferences, UserPreferences::default());
    assert!(state.error_message.is_none());
}
