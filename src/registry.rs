//! User preferences kept in the registry: what is stored where, how stored
//! values are read back, and which writes saving takes.
use vstd::prelude::*;
use crate::wide::{to_wide, utf16_of};

verus! {

/// Window display mode.
#[derive(Debug, Clone, Copy, PartialEq, Eq, Structural)]
pub enum WindowMode {
    /// The window closes when the user clicks elsewhere.
    Flyout,
    /// The window stays open.
    Docked,
}

impl Default for WindowMode {
    fn default() -> (r: WindowMode)
        ensures
            r == WindowMode::Flyout,
    {
        WindowMode::Flyout
    }
}

/// The stored value of a window mode.
pub open spec fn mode_dword(mode: WindowMode) -> u32 {
    match mode {
        WindowMode::Flyout => 0,
        WindowMode::Docked => 1,
    }
}

/// The window mode that a stored value denotes: one is docked, anything
/// else is the flyout.
pub open spec fn mode_of_dword(value: u32) -> WindowMode {
    if value == 1 {
        WindowMode::Docked
    } else {
        WindowMode::Flyout
    }
}

impl WindowMode {
    /// The value stored for this mode.
    pub fn to_dword(&self) -> (r: u32)
        ensures
            r == mode_dword(*self),
    {
        match self {
            WindowMode::Flyout => 0,
            WindowMode::Docked => 1,
        }
    }

    /// The mode that a stored value denotes.
    pub fn from_dword(value: u32) -> (r: WindowMode)
        ensures
            r == mode_of_dword(value),
    {
        match value {
            1 => WindowMode::Docked,
            _ => WindowMode::Flyout,
        }
    }
}

/// A stored mode reads back as the mode that was stored.
pub proof fn lemma_mode_round_trip(mode: WindowMode)
    ensures
        mode_of_dword(mode_dword(mode)) == mode,
{
}

/// User preferences.
#[derive(Debug, Clone, Copy, PartialEq, Eq, Structural)]
pub struct UserPreferences {
    /// Start the application when the user logs on.
    pub start_with_windows: bool,
    /// Window mode remembered between sessions.
    pub window_mode: WindowMode,
}

impl Default for UserPreferences {
    fn default() -> (r: UserPreferences)
        ensures
            r == (UserPreferences { start_with_windows: false, window_mode: WindowMode::Flyout }),
    {
        UserPreferences { start_with_windows: false, window_mode: WindowMode::Flyout }
    }
}

/// Errors of the preferences service.
#[derive(Debug, Clone, PartialEq, Eq)]
pub enum PreferencesError {
    RegistryAccess(String),
    ReadFailed { key: String },
    WriteFailed { key: String },
    InvalidValue { key: String },
}

/// A registry write that saving preferences takes.
#[derive(Debug, Clone, Copy, PartialEq, Eq, Structural)]
pub enum RegistryWrite {
    /// Create the application key and store `value` as the window mode.
    SetWindowMode { value: u32 },
    /// Open the run key and store the executable's path under the
    /// application's name.
    SetStartupCommand,
    /// Open the run key and delete the application's entry.
    RemoveStartupCommand,
}

/// How a registry write failed.
#[derive(Debug, Clone, Copy, PartialEq, Eq, Structural)]
pub enum WriteFailure {
    /// The key could not be created or opened.
    Key,
    /// The value could not be written, found or removed.
    Value,
}

/// The error, if any, that a failure of `write` makes of saving.
pub open spec fn write_error_is(write: RegistryWrite, failure: WriteFailure, r: Option<PreferencesError>) -> bool {
    match write {
        RegistryWrite::SetWindowMode { .. } => r matches Some(PreferencesError::WriteFailed { key }) && key@ == "WindowMode"@,
        RegistryWrite::SetStartupCommand => match failure {
            WriteFailure::Key => r matches Some(PreferencesError::RegistryAccess(m)) && m@ == "Failed to open Run key"@,
            WriteFailure::Value => r matches Some(PreferencesError::WriteFailed { key }) && key@ == "MicrophoneManager"@,
        },
        RegistryWrite::RemoveStartupCommand => match failure {
            WriteFailure::Key => r matches Some(PreferencesError::RegistryAccess(m)) && m@ == "Failed to open Run key"@,
            WriteFailure::Value => r is None,
        },
    }
}

impl RegistryWrite {
    /// The outcome for saving of this write's outcome: a failure to remove
    /// the startup entry is not an error, every other failure is.
    pub fn outcome(&self, result: Result<(), WriteFailure>) -> (r: Result<(), PreferencesError>)
        ensures
            result is Ok ==> r is Ok,
            result matches Err(f) ==> match r {
                Ok(()) => write_error_is(*self, f, None),
                Err(e) => write_error_is(*self, f, Some(e)),
            },
    {
        match result {
            Ok(()) => Ok(()),
            Err(f) => match self.error_for(f) {
                Some(e) => Err(e),
                None => Ok(()),
            },
        }
    }

    /// The error that a failure of this write gives, if any.
    pub fn error_for(&self, failure: WriteFailure) -> (r: Option<PreferencesError>)
        ensures
            write_error_is(*self, failure, r),
    {
        match self {
            RegistryWrite::SetWindowMode { .. } => Some(PreferencesError::WriteFailed { key: "WindowMode".to_owned() }),
            RegistryWrite::SetStartupCommand => match failure {
                WriteFailure::Key => Some(PreferencesError::RegistryAccess("Failed to open Run key".to_owned())),
                WriteFailure::Value => Some(PreferencesError::WriteFailed { key: "MicrophoneManager".to_owned() }),
            },
            RegistryWrite::RemoveStartupCommand => match failure {
                WriteFailure::Key => Some(PreferencesError::RegistryAccess("Failed to open Run key".to_owned())),
                WriteFailure::Value => None,
            },
        }
    }
}

/// The window mode read back from storage: the stored value if one was
/// read, else the flyout.
pub open spec fn loaded_mode(stored: Option<u32>) -> WindowMode {
    match stored {
        Some(v) => mode_of_dword(v),
        None => WindowMode::Flyout,
    }
}

/// Whether the startup entry counts as present: it was found and holds data.
pub open spec fn startup_present(entry_size: Option<u32>) -> bool {
    entry_size matches Some(n) && n > 0
}

/// Registry-based preferences service: the key paths and the value name it
/// works with, as wide strings.
pub struct RegistryPreferences {
    app_key_path: Vec<u16>,
    run_key_path: Vec<u16>,
    value_name: Vec<u16>,
}

impl RegistryPreferences {
    /// The application's own key path, wide and terminated.
    pub closed spec fn spec_app_key_path(&self) -> Seq<u16> {
        self.app_key_path@
    }

    /// The run key path, wide and terminated.
    pub closed spec fn spec_run_key_path(&self) -> Seq<u16> {
        self.run_key_path@
    }

    /// The name of the startup entry, wide and terminated.
    pub closed spec fn spec_value_name(&self) -> Seq<u16> {
        self.value_name@
    }

    /// A service over the application's key and the per-user run key.
    pub fn new() -> (r: RegistryPreferences)
        ensures
            r.spec_app_key_path() == utf16_of("Software\\MicrophoneManager"@).push(0),
            r.spec_run_key_path() == utf16_of("Software\\Microsoft\\Windows\\CurrentVersion\\Run"@).push(0),
            r.spec_value_name() == utf16_of("MicrophoneManager"@).push(0),
    {
        RegistryPreferences {
            app_key_path: Self::to_wide("Software\\MicrophoneManager"),
            run_key_path: Self::to_wide("Software\\Microsoft\\Windows\\CurrentVersion\\Run"),
            value_name: Self::to_wide("MicrophoneManager"),
        }
    }

    /// `s` as a terminated wide string.
    pub fn to_wide(s: &str) -> (r: Vec<u16>)
        ensures
            r@ == utf16_of(s@).push(0),
    {
        to_wide(s)
    }

    /// The application's key path.
    pub fn app_key_path(&self) -> (r: &Vec<u16>)
        ensures
            r@ == self.spec_app_key_path(),
    {
        &self.app_key_path
    }

    /// The run key path.
    pub fn run_key_path(&self) -> (r: &Vec<u16>)
        ensures
            r@ == self.spec_run_key_path(),
    {
        &self.run_key_path
    }

    /// The name of the startup entry.
    pub fn value_name(&self) -> (r: &Vec<u16>)
        ensures
            r@ == self.spec_value_name(),
    {
        &self.value_name
    }

    /// The name of the value that holds the window mode.
    pub fn window_mode_value_name(&self) -> (r: Vec<u16>)
        ensures
            r@ == utf16_of("WindowMode"@).push(0),
    {
        Self::to_wide("WindowMode")
    }

    /// Preferences from what was read: `stored_mode` is the window mode value
    /// if it could be read, `startup_entry_size` the data size of the startup
    /// entry if it was found. Reading never fails: what is missing reads as
    /// the default.
    pub fn load(&self, stored_mode: Option<u32>, startup_entry_size: Option<u32>) -> (r: Result<UserPreferences, PreferencesError>)
        ensures
            r == Ok::<UserPreferences, PreferencesError>(UserPreferences {
                start_with_windows: startup_present(startup_entry_size),
                window_mode: loaded_mode(stored_mode),
            }),
    {
        let window_mode = match self.load_window_mode(stored_mode) {
            Ok(m) => m,
            Err(_) => WindowMode::default(),
        };
        let start_with_windows = match self.is_startup_enabled(startup_entry_size) {
            Ok(b) => b,
            Err(_) => false,
        };
        Ok(UserPreferences { start_with_windows, window_mode })
    }

    /// The window mode from the stored value, if one could be read.
    pub fn load_window_mode(&self, stored: Option<u32>) -> (r: Result<WindowMode, PreferencesError>)
        ensures
            r == Ok::<WindowMode, PreferencesError>(loaded_mode(stored)),
    {
        match stored {
            Some(v) => Ok(WindowMode::from_dword(v)),
            None => Ok(WindowMode::default()),
        }
    }

    /// Whether starting with Windows is enabled, from the data size of the
    /// startup entry if it was found.
    pub fn is_startup_enabled(&self, entry_size: Option<u32>) -> (r: Result<bool, PreferencesError>)
        ensures
            r == Ok::<bool, PreferencesError>(startup_present(entry_size)),
    {
        match entry_size {
            Some(n) => Ok(n > 0),
            None => Ok(false),
        }
    }

    /// The write that stores `mode`.
    pub fn save_window_mode(&self, mode: WindowMode) -> (r: RegistryWrite)
        ensures
            r == (RegistryWrite::SetWindowMode { value: mode_dword(mode) }),
    {
        RegistryWrite::SetWindowMode { value: mode.to_dword() }
    }

    /// The write that enables or disables starting with Windows.
    pub fn set_startup_enabled(&self, enabled: bool) -> (r: RegistryWrite)
        ensures
            enabled ==> r == RegistryWrite::SetStartupCommand,
            !enabled ==> r == RegistryWrite::RemoveStartupCommand,
    {
        if enabled {
            RegistryWrite::SetStartupCommand
        } else {
            RegistryWrite::RemoveStartupCommand
        }
    }

    /// The writes that save `preferences`, in the order they are made;
    /// saving stops at the first whose outcome is an error.
    pub fn save(&self, preferences: &UserPreferences) -> (r: Vec<RegistryWrite>)
        ensures
            r@ == seq![
                RegistryWrite::SetWindowMode { value: mode_dword(preferences.window_mode) },
                if preferences.start_with_windows {
                    RegistryWrite::SetStartupCommand
                } else {
                    RegistryWrite::RemoveStartupCommand
                },
            ],
    {
        let mut writes: Vec<RegistryWrite> = Vec::new();
        writes.push(self.save_window_mode(preferences.window_mode));
        writes.push(self.set_startup_enabled(preferences.start_with_windows));
        writes
    }
}

impl Default for RegistryPreferences {
    fn default() -> (r: RegistryPreferences)
        ensures
            r.spec_app_key_path() == utf16_of("Software\\MicrophoneManager"@).push(0),
            r.spec_run_key_path() == utf16_of("Software\\Microsoft\\Windows\\CurrentVersion\\Run"@).push(0),
            r.spec_value_name() == utf16_of("MicrophoneManager"@).push(0),
    {
        Self::new()
    }
}

/// Preferences that were saved read back as saved, when the writes
/// succeeded: the window mode as its stored value, and the startup flag as
/// the presence of a non-empty entry.
pub proof fn lemma_saved_preferences_load_back(preferences: UserPreferences, startup_entry_size: u32)
    requires
        preferences.start_with_windows <==> startup_entry_size > 0,
    ensures
        (UserPreferences {
            start_with_windows: startup_present(Some(startup_entry_size)),
            window_mode: loaded_mode(Some(mode_dword(preferences.window_mode))),
        }) == preferences,
{
}

} // verus!
