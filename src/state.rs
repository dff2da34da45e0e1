//! Application state: the devices on view, the default devices, the window
//! and the preferences, kept consistent across device notifications, polls
//! and user actions.
use vstd::prelude::*;
use vstd::string::StringExecFns;
use crate::device::{AudioError, AudioFormat, DeviceRole, DeviceState};
use crate::tray::MenuItemId;
use crate::registry::{PreferencesError, UserPreferences, WindowMode};

verus! {

/// A microphone as the application state tracks it. Its level readings
/// (volume, input level, peak hold) are kept beside it by the user interface.
#[derive(Debug, Clone)]
pub struct MicrophoneDevice {
    /// Unique system device ID.
    pub id: String,
    /// Human-readable device name.
    pub name: String,
    /// Whether this is the default device for the console role.
    pub is_default: bool,
    /// Whether this is the default device for the communications role.
    pub is_default_communication: bool,
    /// Current mute state.
    pub is_muted: bool,
    /// Audio format, where the device reports one.
    pub audio_format: Option<AudioFormat>,
}

impl MicrophoneDevice {
    /// A device with the given ID and name, not default, not muted, with no
    /// known format.
    pub fn new(id: String, name: String) -> (r: MicrophoneDevice)
        ensures
            r == (MicrophoneDevice {
                id,
                name,
                is_default: false,
                is_default_communication: false,
                is_muted: false,
                audio_format: None,
            }),
    {
        MicrophoneDevice {
            id,
            name,
            is_default: false,
            is_default_communication: false,
            is_muted: false,
            audio_format: None,
        }
    }

    /// Whether the device is the default for either role.
    pub fn is_selected(&self) -> (r: bool)
        ensures
            r == (self.is_default || self.is_default_communication),
    {
        self.is_default || self.is_default_communication
    }
}

/// `r` is the position of the first device with ID `id`, or `None` when no
/// device has that ID.
pub open spec fn first_with_id(devices: Seq<MicrophoneDevice>, id: Seq<char>, r: Option<usize>) -> bool {
    match r {
        Some(i) => {
            &&& i < devices.len()
            &&& devices[i as int].id@ == id
            &&& forall|j: int| 0 <= j < i ==> #[trigger] devices[j].id@ != id
        },
        None => forall|j: int| 0 <= j < devices.len() ==> #[trigger] devices[j].id@ != id,
    }
}

/// Whether `id` names a device: the ID is present and equal to `device_id`.
pub open spec fn names(id: Option<String>, device_id: Seq<char>) -> bool {
    id matches Some(s) && s@ == device_id
}

/// A device with its default flags set from the two default IDs.
pub open spec fn with_default_flags(
    d: MicrophoneDevice,
    console: Option<String>,
    communications: Option<String>,
) -> MicrophoneDevice {
    MicrophoneDevice {
        is_default: names(console, d.id@),
        is_default_communication: names(communications, d.id@),
        ..d
    }
}

/// Tooltip text for a device: its name, marked when muted.
pub open spec fn device_tooltip(name: Seq<char>, muted: bool) -> Seq<char> {
    if muted {
        name + " (Muted)"@
    } else {
        name
    }
}

/// The position of the first device with ID `id`.
pub fn find_device(devices: &Vec<MicrophoneDevice>, id: &String) -> (r: Option<usize>)
    ensures
        first_with_id(devices@, id@, r),
{
    let mut i: usize = 0;
    while i < devices.len()
        invariant
            i <= devices@.len(),
            forall|j: int| 0 <= j < i ==> #[trigger] devices@[j].id@ != id@,
        decreases devices@.len() - i,
    {
        if devices[i].id == *id {
            return Some(i);
        }
        i = i + 1;
    }
    None
}

/// Whether the optional ID `id` is present and equal to `device_id`.
pub fn names_device(id: &Option<String>, device_id: &String) -> (r: bool)
    ensures
        r == names(*id, device_id@),
{
    match id {
        Some(s) => *s == *device_id,
        None => false,
    }
}

/// Tooltip text for a device named `name`: the name, followed by " (Muted)"
/// when the device is muted.
pub fn tooltip_text(name: &str, muted: bool) -> (r: String)
    ensures
        r@ == device_tooltip(name@, muted),
{
    let mut s = String::from_str(name);
    if muted {
        s.append(" (Muted)");
    }
    s
}


/// An input from the tray icon. The click positions that the icon reports are
/// of no concern to the state.
#[derive(Debug, Clone, Copy, PartialEq, Eq, Structural)]
pub enum TrayInput {
    LeftClick,
    RightClick,
    DoubleClick,
    MenuItemClicked(MenuItemId),
}

/// A change that the audio system reported, as the state takes it. A volume
/// change arrives as its mute part: the volume itself is kept by the user
/// interface.
#[derive(Debug, Clone)]
pub enum DeviceChange {
    DeviceAdded { device_id: String },
    DeviceRemoved { device_id: String },
    DeviceStateChanged { device_id: String, new_state: DeviceState },
    DefaultDeviceChanged { role: DeviceRole, device_id: Option<String> },
    MuteChanged { device_id: String, is_muted: bool },
    FormatChanged { device_id: String, format: AudioFormat },
}

/// How the tray icon is to be brought up to date after a change.
#[derive(Debug, Clone, Copy, PartialEq, Eq, Structural)]
pub enum TrayRefresh {
    /// Leave the tray icon as it is.
    Keep,
    /// Set the tooltip from the state, then the icon from whether the
    /// default device is muted.
    TooltipThenIcon,
    /// Set the icon to the given mute state, then the tooltip from the state.
    IconThenTooltip(bool),
}

/// What is left to do after a change was taken into the state: refresh the
/// device list from the system first if `refresh` holds, then update the tray.
#[derive(Debug, Clone, Copy, PartialEq, Eq, Structural)]
pub struct FollowUp {
    pub refresh: bool,
    pub tray: TrayRefresh,
}

/// The state's part apart from its device list and default IDs.
pub open spec fn same_settings(a: AppState, b: AppState) -> bool {
    &&& a.window_mode == b.window_mode
    &&& a.preferences == b.preferences
    &&& a.error_message == b.error_message
    &&& a.flyout_visible == b.flyout_visible
    &&& a.should_exit == b.should_exit
}

/// The device list after setting one field of the first device with ID
/// `id`, through `set`; unchanged when no device has that ID.
pub open spec fn updated_first(
    devices: Seq<MicrophoneDevice>,
    id: Seq<char>,
    set: spec_fn(MicrophoneDevice) -> MicrophoneDevice,
    result: Seq<MicrophoneDevice>,
) -> bool {
    exists|i: Option<usize>|
        #[trigger] first_with_id(devices, id, i) && match i {
            Some(k) => result == devices.update(k as int, set(devices[k as int])),
            None => result == devices,
        }
}

/// A device with its mute state set.
pub open spec fn with_mute(muted: bool) -> spec_fn(MicrophoneDevice) -> MicrophoneDevice {
    |d: MicrophoneDevice| MicrophoneDevice { is_muted: muted, ..d }
}

/// A device with its audio format set.
pub open spec fn with_format(format: AudioFormat) -> spec_fn(MicrophoneDevice) -> MicrophoneDevice {
    |d: MicrophoneDevice| MicrophoneDevice { audio_format: Some(format), ..d }
}

/// Main application state.
pub struct AppState {
    /// All currently available microphones.
    pub devices: Vec<MicrophoneDevice>,
    /// ID of the default device for the console role.
    pub default_device_id: Option<String>,
    /// ID of the default device for the communications role.
    pub default_communication_device_id: Option<String>,
    /// Window mode (flyout or docked).
    pub window_mode: WindowMode,
    /// User preferences.
    pub preferences: UserPreferences,
    /// Error to show in the user interface.
    pub error_message: Option<String>,
    /// Whether the flyout window is visible.
    pub flyout_visible: bool,
    /// Whether the application should exit.
    pub should_exit: bool,
}

impl AppState {
    /// An empty state: no devices, no defaults, default preferences, the
    /// flyout hidden.
    pub fn new() -> (r: AppState)
        ensures
            r.devices@.len() == 0,
            r.default_device_id is None,
            r.default_communication_device_id is None,
            r.window_mode == WindowMode::Flyout,
            r.preferences == (UserPreferences { start_with_windows: false, window_mode: WindowMode::Flyout }),
            r.error_message is None,
            !r.flyout_visible,
            !r.should_exit,
    {
        AppState {
            devices: Vec::new(),
            default_device_id: None,
            default_communication_device_id: None,
            window_mode: WindowMode::Flyout,
            preferences: UserPreferences::default(),
            error_message: None,
            flyout_visible: false,
            should_exit: false,
        }
    }

    /// The position of the default device in the device list, if it is there.
    pub fn default_device_index(&self) -> (r: Option<usize>)
        ensures
            self.default_device_id is None ==> r is None,
            self.default_device_id matches Some(id) ==> first_with_id(self.devices@, id@, r),
    {
        match &self.default_device_id {
            Some(id) => find_device(&self.devices, id),
            None => None,
        }
    }

    /// The default device, if it is in the device list.
    pub fn get_default_device(&self) -> (r: Option<&MicrophoneDevice>)
        ensures
            self.default_device_id is None ==> r is None,
            self.default_device_id matches Some(id) ==> (exists|i: Option<usize>|
                #[trigger] first_with_id(self.devices@, id@, i) && match i {
                    Some(k) => r == Some(&self.devices@[k as int]),
                    None => r is None,
                }),
    {
        match self.default_device_index() {
            Some(i) => Some(&self.devices[i]),
            None => None,
        }
    }

    /// Whether the default device is muted; false when there is none.
    pub fn is_default_muted(&self) -> (r: bool)
        ensures
            self.default_device_id is None ==> !r,
            self.default_device_id matches Some(id) ==> (exists|i: Option<usize>|
                #[trigger] first_with_id(self.devices@, id@, i) && r == match i {
                    Some(k) => self.devices@[k as int].is_muted,
                    None => false,
                }),
    {
        match self.default_device_index() {
            Some(i) => self.devices[i].is_muted,
            None => false,
        }
    }

    /// Tooltip text for the tray icon: the default device's name, marked
    /// when muted, or "No microphone".
    pub fn get_tooltip(&self) -> (r: String)
        ensures
            self.default_device_id is None ==> r@ == "No microphone"@,
            self.default_device_id matches Some(id) ==> (exists|i: Option<usize>|
                #[trigger] first_with_id(self.devices@, id@, i) && r@ == match i {
                    Some(k) => device_tooltip(
                        self.devices@[k as int].name@,
                        self.devices@[k as int].is_muted,
                    ),
                    None => "No microphone"@,
                }),
    {
        match self.default_device_index() {
            Some(i) => tooltip_text(self.devices[i].name.as_str(), self.devices[i].is_muted),
            None => String::from_str("No microphone"),
        }
    }

    /// Toggles the flyout's visibility.
    pub fn toggle_flyout(&mut self)
        ensures
            *final(self) == (AppState { flyout_visible: !old(self).flyout_visible, ..*old(self) }),
    {
        self.flyout_visible = !self.flyout_visible;
    }

    /// Shows the flyout.
    pub fn show_flyout(&mut self)
        ensures
            *final(self) == (AppState { flyout_visible: true, ..*old(self) }),
    {
        self.flyout_visible = true;
    }

    /// Hides the flyout.
    pub fn hide_flyout(&mut self)
        ensures
            *final(self) == (AppState { flyout_visible: false, ..*old(self) }),
    {
        self.flyout_visible = false;
    }

    /// Sets the default flags of every device from the two default IDs.
    fn flag_defaults(&mut self)
        ensures
            final(self).devices@.len() == old(self).devices@.len(),
            forall|i: int|
                0 <= i < old(self).devices@.len() ==> #[trigger] final(self).devices@[i]
                    == with_default_flags(
                    old(self).devices@[i],
                    old(self).default_device_id,
                    old(self).default_communication_device_id,
                ),
            final(self).default_device_id == old(self).default_device_id,
            final(self).default_communication_device_id == old(self).default_communication_device_id,
            final(self).window_mode == old(self).window_mode,
            final(self).preferences == old(self).preferences,
            final(self).error_message == old(self).error_message,
            final(self).flyout_visible == old(self).flyout_visible,
            final(self).should_exit == old(self).should_exit,
    {
        let mut i: usize = 0;
        while i < self.devices.len()
            invariant
                i <= self.devices@.len(),
                self.devices@.len() == old(self).devices@.len(),
                forall|j: int|
                    0 <= j < i ==> #[trigger] self.devices@[j] == with_default_flags(
                        old(self).devices@[j],
                        old(self).default_device_id,
                        old(self).default_communication_device_id,
                    ),
                forall|j: int| i <= j < self.devices@.len() ==> #[trigger] self.devices@[j] == old(self).devices@[j],
                self.default_device_id == old(self).default_device_id,
                self.default_communication_device_id == old(self).default_communication_device_id,
                self.window_mode == old(self).window_mode,
                self.preferences == old(self).preferences,
                self.error_message == old(self).error_message,
                self.flyout_visible == old(self).flyout_visible,
                self.should_exit == old(self).should_exit,
            decreases self.devices@.len() - i,
        {
            let is_default = names_device(&self.default_device_id, &self.devices[i].id);
            let is_default_communication = names_device(
                &self.default_communication_device_id,
                &self.devices[i].id,
            );
            self.devices[i].is_default = is_default;
            self.devices[i].is_default_communication = is_default_communication;
            i = i + 1;
        }
    }

    /// Replaces the device list and the default IDs with what the system
    /// reported, in that order, and sets the default flags. The first failed
    /// report ends the refresh with its error; what was taken before it stays.
    pub fn refresh_devices(
        &mut self,
        listed: Result<Vec<MicrophoneDevice>, AudioError>,
        console: Result<Option<String>, AudioError>,
        communications: Result<Option<String>, AudioError>,
    ) -> (r: Result<(), AudioError>)
        ensures
            final(self).window_mode == old(self).window_mode,
            final(self).preferences == old(self).preferences,
            final(self).error_message == old(self).error_message,
            final(self).flyout_visible == old(self).flyout_visible,
            final(self).should_exit == old(self).should_exit,
            match (listed, console, communications) {
                (Err(e), _, _) => {
                    &&& r == Err::<(), AudioError>(e)
                    &&& final(self).devices == old(self).devices
                    &&& final(self).default_device_id == old(self).default_device_id
                    &&& final(self).default_communication_device_id
                        == old(self).default_communication_device_id
                },
                (Ok(ds), Err(e), _) => {
                    &&& r == Err::<(), AudioError>(e)
                    &&& final(self).devices == ds
                    &&& final(self).default_device_id == old(self).default_device_id
                    &&& final(self).default_communication_device_id
                        == old(self).default_communication_device_id
                },
                (Ok(ds), Ok(c), Err(e)) => {
                    &&& r == Err::<(), AudioError>(e)
                    &&& final(self).devices == ds
                    &&& final(self).default_device_id == c
                    &&& final(self).default_communication_device_id
                        == old(self).default_communication_device_id
                },
                (Ok(ds), Ok(c), Ok(m)) => {
                    &&& r is Ok
                    &&& final(self).default_device_id == c
                    &&& final(self).default_communication_device_id == m
                    &&& final(self).devices@.len() == ds@.len()
                    &&& forall|i: int|
                        0 <= i < ds@.len() ==> #[trigger] final(self).devices@[i]
                            == with_default_flags(ds@[i], c, m)
                },
            },
    {
        match listed {
            Ok(ds) => {
                self.devices = ds;
            },
            Err(e) => {
                return Err(e);
            },
        }
        match console {
            Ok(c) => {
                self.default_device_id = c;
            },
            Err(e) => {
                return Err(e);
            },
        }
        match communications {
            Ok(m) => {
                self.default_communication_device_id = m;
            },
            Err(e) => {
                return Err(e);
            },
        }
        self.flag_defaults();
        Ok(())
    }

    /// Takes the loaded preferences (the defaults when loading failed) and
    /// the window mode they hold, then refreshes the devices.
    pub fn initialize(
        &mut self,
        loaded: Result<UserPreferences, PreferencesError>,
        listed: Result<Vec<MicrophoneDevice>, AudioError>,
        console: Result<Option<String>, AudioError>,
        communications: Result<Option<String>, AudioError>,
    ) -> (r: Result<(), AudioError>)
        ensures
            final(self).preferences == match loaded {
                Ok(p) => p,
                Err(_) => UserPreferences { start_with_windows: false, window_mode: WindowMode::Flyout },
            },
            final(self).window_mode == final(self).preferences.window_mode,
            final(self).error_message == old(self).error_message,
            final(self).flyout_visible == old(self).flyout_visible,
            final(self).should_exit == old(self).should_exit,
            listed is Err ==> final(self).devices == old(self).devices,
            r is Ok <==> (listed is Ok && console is Ok && communications is Ok),
            (listed, console, communications) matches (Ok(ds), Ok(c), Ok(m)) ==> {
                &&& final(self).default_device_id == c
                &&& final(self).default_communication_device_id == m
                &&& final(self).devices@.len() == ds@.len()
                &&& forall|i: int|
                    0 <= i < ds@.len() ==> #[trigger] final(self).devices@[i] == with_default_flags(
                        ds@[i],
                        c,
                        m,
                    )
            },
    {
        self.preferences = match loaded {
            Ok(p) => p,
            Err(_) => UserPreferences::default(),
        };
        self.window_mode = self.preferences.window_mode;
        self.refresh_devices(listed, console, communications)
    }

    /// Sets the mute state of the first device with ID `device_id`.
    pub fn update_device_mute(&mut self, device_id: &str, muted: bool)
        ensures
            updated_first(old(self).devices@, device_id@, with_mute(muted), final(self).devices@),
            final(self).default_device_id == old(self).default_device_id,
            final(self).default_communication_device_id == old(self).default_communication_device_id,
            same_settings(*final(self), *old(self)),
    {
        let id = device_id.to_owned();
        let found = find_device(&self.devices, &id);
        match found {
            Some(i) => {
                self.devices[i].is_muted = muted;
                assert(self.devices@ =~= old(self).devices@.update(i as int, with_mute(muted)(old(self).devices@[i as int])));
            },
            None => {},
        }
        assert(first_with_id(old(self).devices@, device_id@, found));
    }

    /// Sets the audio format of the first device with ID `device_id`.
    pub fn update_device_format(&mut self, device_id: &str, format: AudioFormat)
        ensures
            updated_first(old(self).devices@, device_id@, with_format(format), final(self).devices@),
            final(self).default_device_id == old(self).default_device_id,
            final(self).default_communication_device_id == old(self).default_communication_device_id,
            same_settings(*final(self), *old(self)),
    {
        let id = device_id.to_owned();
        let found = find_device(&self.devices, &id);
        match found {
            Some(i) => {
                self.devices[i].audio_format = Some(format);
                assert(self.devices@ =~= old(self).devices@.update(i as int, with_format(format)(old(self).devices@[i as int])));
            },
            None => {},
        }
        assert(first_with_id(old(self).devices@, device_id@, found));
    }

    /// Takes an input from the tray icon. A left click toggles the flyout;
    /// the exit item asks the application to exit; the startup item flips
    /// the startup preference and returns its new value, which is then to be
    /// stored and shown as the item's check mark.
    pub fn handle_tray_event(&mut self, event: TrayInput) -> (r: Option<bool>)
        ensures
            final(self).devices == old(self).devices,
            final(self).default_device_id == old(self).default_device_id,
            final(self).default_communication_device_id == old(self).default_communication_device_id,
            final(self).window_mode == old(self).window_mode,
            final(self).error_message == old(self).error_message,
            final(self).preferences.window_mode == old(self).preferences.window_mode,
            event == TrayInput::LeftClick ==> final(self).flyout_visible == !old(self).flyout_visible,
            event != TrayInput::LeftClick ==> final(self).flyout_visible == old(self).flyout_visible,
            final(self).should_exit == (old(self).should_exit || event == TrayInput::MenuItemClicked(
                MenuItemId::Exit,
            )),
            event == TrayInput::MenuItemClicked(MenuItemId::StartWithWindows) ==> {
                &&& final(self).preferences.start_with_windows == !old(self).preferences.start_with_windows
                &&& r == Some(final(self).preferences.start_with_windows)
            },
            event != TrayInput::MenuItemClicked(MenuItemId::StartWithWindows) ==> {
                &&& final(self).preferences == old(self).preferences
                &&& r is None
            },
    {
        match event {
            TrayInput::LeftClick => {
                self.toggle_flyout();
                None
            },
            TrayInput::MenuItemClicked(MenuItemId::Exit) => {
                self.should_exit = true;
                None
            },
            TrayInput::MenuItemClicked(MenuItemId::StartWithWindows) => {
                self.preferences.start_with_windows = !self.preferences.start_with_windows;
                Some(self.preferences.start_with_windows)
            },
            _ => None,
        }
    }

    /// Takes a change reported by the audio system and says what is left to
    /// do. Added and removed devices, and state changes, call for a refresh;
    /// a new default device is recorded for its role (console or
    /// communications) before the refresh; a mute change is recorded on the
    /// device, and shown on the tray when it is the default device; a format
    /// change is recorded on the device.
    pub fn handle_device_event(&mut self, event: DeviceChange) -> (r: FollowUp)
        ensures
            same_settings(*final(self), *old(self)),
            match event {
                DeviceChange::DeviceAdded { .. } | DeviceChange::DeviceRemoved { .. } => {
                    &&& *final(self) == *old(self)
                    &&& r == (FollowUp { refresh: true, tray: TrayRefresh::TooltipThenIcon })
                },
                DeviceChange::DeviceStateChanged { .. } => {
                    &&& *final(self) == *old(self)
                    &&& r == (FollowUp { refresh: true, tray: TrayRefresh::Keep })
                },
                DeviceChange::DefaultDeviceChanged { role, device_id } => {
                    &&& final(self).devices == old(self).devices
                    &&& final(self).default_device_id == if role == DeviceRole::Console {
                        device_id
                    } else {
                        old(self).default_device_id
                    }
                    &&& final(self).default_communication_device_id == if role
                        == DeviceRole::Communications {
                        device_id
                    } else {
                        old(self).default_communication_device_id
                    }
                    &&& r == (FollowUp { refresh: true, tray: TrayRefresh::TooltipThenIcon })
                },
                DeviceChange::MuteChanged { device_id, is_muted } => {
                    &&& updated_first(old(self).devices@, device_id@, with_mute(is_muted), final(self).devices@)
                    &&& final(self).default_device_id == old(self).default_device_id
                    &&& final(self).default_communication_device_id
                        == old(self).default_communication_device_id
                    &&& !r.refresh
                    &&& r.tray == if names(old(self).default_device_id, device_id@) {
                        TrayRefresh::IconThenTooltip(is_muted)
                    } else {
                        TrayRefresh::Keep
                    }
                },
                DeviceChange::FormatChanged { device_id, format } => {
                    &&& updated_first(old(self).devices@, device_id@, with_format(format), final(self).devices@)
                    &&& final(self).default_device_id == old(self).default_device_id
                    &&& final(self).default_communication_device_id
                        == old(self).default_communication_device_id
                    &&& r == (FollowUp { refresh: false, tray: TrayRefresh::Keep })
                },
            },
    {
        match event {
            DeviceChange::DeviceAdded { .. } | DeviceChange::DeviceRemoved { .. } => {
                FollowUp { refresh: true, tray: TrayRefresh::TooltipThenIcon }
            },
            DeviceChange::DefaultDeviceChanged { role, device_id } => {
                match role {
                    DeviceRole::Console => {
                        self.default_device_id = device_id;
                    },
                    DeviceRole::Communications => {
                        self.default_communication_device_id = device_id;
                    },
                    _ => {},
                }
                FollowUp { refresh: true, tray: TrayRefresh::TooltipThenIcon }
            },
            DeviceChange::MuteChanged { device_id, is_muted } => {
                self.update_device_mute(device_id.as_str(), is_muted);
                if names_device(&self.default_device_id, &device_id) {
                    FollowUp { refresh: false, tray: TrayRefresh::IconThenTooltip(is_muted) }
                } else {
                    FollowUp { refresh: false, tray: TrayRefresh::Keep }
                }
            },
            DeviceChange::FormatChanged { device_id, format } => {
                self.update_device_format(device_id.as_str(), format);
                FollowUp { refresh: false, tray: TrayRefresh::Keep }
            },
            DeviceChange::DeviceStateChanged { .. } => {
                FollowUp { refresh: true, tray: TrayRefresh::Keep }
            },
        }
    }
}

impl Default for AppState {
    fn default() -> (r: AppState)
        ensures
            r.devices@.len() == 0,
            r.default_device_id is None,
            r.default_communication_device_id is None,
            r.window_mode == WindowMode::Flyout,
            r.preferences == (UserPreferences { start_with_windows: false, window_mode: WindowMode::Flyout }),
            r.error_message is None,
            !r.flyout_visible,
            !r.should_exit,
    {
        AppState::new()
    }
}

} // verus!
