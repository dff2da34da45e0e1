//! Tray icon state, menu items and errors.
use vstd::prelude::*;
use vstd::string::StringExecFns;
use crate::wide::{to_wide, utf16_of};

verus! {

/// Initial state of the tray icon.
#[derive(Debug, Clone)]
pub struct TrayState {
    /// Tooltip text (device name and mute state).
    pub tooltip: String,
    /// Whether the default microphone is muted.
    pub muted: bool,
}

impl Default for TrayState {
    fn default() -> (r: TrayState)
        ensures
            r.tooltip@ == "Microphone Manager"@,
            !r.muted,
    {
        TrayState { tooltip: String::from_str("Microphone Manager"), muted: false }
    }
}

/// Items of the tray icon's menu.
#[derive(Debug, Clone, Copy, PartialEq, Eq, Structural, Hash)]
pub enum MenuItemId {
    Exit,
    StartWithWindows,
}

/// Errors of the tray service.
#[derive(Debug, Clone, PartialEq, Eq)]
pub enum TrayError {
    CreateFailed(String),
    IconLoadFailed,
    NotInitialized,
    PositionUnavailable,
    MenuFailed(String),
}

/// The tooltip as it fits a fixed buffer of `capacity` code units: the
/// terminated wide string, cut off at the capacity.
pub fn tooltip_units(text: &str, capacity: usize) -> (r: Vec<u16>)
    ensures
        capacity <= utf16_of(text@).len() + 1 ==> r@ == utf16_of(text@).push(0).take(capacity as int),
        capacity > utf16_of(text@).len() + 1 ==> r@ == utf16_of(text@).push(0),
{
    let mut units = to_wide(text);
    units.truncate(capacity);
    units
}

} // verus!
