//! The tray icon's context menu: command identifiers and item labels.
use vstd::prelude::*;
use vstd::string::StringExecFns;

verus! {

/// Command of the exit item.
pub const CMD_EXIT: u32 = 1;
/// Command of the toggle-mute item.
pub const CMD_TOGGLE_MUTE: u32 = 2;
/// Command of the start-with-Windows item.
pub const CMD_TOGGLE_STARTUP: u32 = 3;
/// Command of the first device item; device `i` has this plus `i`.
pub const CMD_DEVICE_BASE: u32 = 100;

/// A command chosen from the context menu.
#[derive(Debug, Clone, Copy, PartialEq, Eq, Structural)]
pub enum MenuCommand {
    Exit,
    ToggleMute,
    ToggleStartup,
    /// Make the device at this position of the list the default.
    SelectDevice(usize),
}

/// The command that identifier `id` stands for, if any.
pub open spec fn command_of(id: u32) -> Option<MenuCommand> {
    if id == 1 {
        Some(MenuCommand::Exit)
    } else if id == 2 {
        Some(MenuCommand::ToggleMute)
    } else if id == 3 {
        Some(MenuCommand::ToggleStartup)
    } else if id >= 100 {
        Some(MenuCommand::SelectDevice((id - 100) as usize))
    } else {
        None
    }
}

impl MenuCommand {
    /// Decodes a menu command identifier.
    pub fn from_id(id: u32) -> (r: Option<MenuCommand>)
        ensures
            r == command_of(id),
    {
        if id == CMD_EXIT {
            Some(MenuCommand::Exit)
        } else if id == CMD_TOGGLE_MUTE {
            Some(MenuCommand::ToggleMute)
        } else if id == CMD_TOGGLE_STARTUP {
            Some(MenuCommand::ToggleStartup)
        } else if id >= CMD_DEVICE_BASE {
            Some(MenuCommand::SelectDevice((id - CMD_DEVICE_BASE) as usize))
        } else {
            None
        }
    }
}

/// The command identifier of the device item at position `index`.
pub fn device_command_id(index: u32) -> (r: u32)
    requires
        index <= u32::MAX - 100,
    ensures
        r == 100 + index,
{
    CMD_DEVICE_BASE + index
}

/// A device item's identifier decodes to selecting that device.
pub proof fn lemma_device_command_round_trip(index: u32)
    requires
        index <= u32::MAX - 100,
    ensures
        command_of((100 + index) as u32) == Some(MenuCommand::SelectDevice(index as usize)),
{
}

/// The label of a device item: a check mark before the default device's
/// name, spaces before the others.
pub open spec fn device_label(name: Seq<char>, is_default: bool) -> Seq<char> {
    if is_default {
        "\u{2713} "@ + name
    } else {
        "   "@ + name
    }
}

/// Builds the label of a device item.
pub fn menu_label(name: &str, is_default: bool) -> (r: String)
    ensures
        r@ == device_label(name@, is_default),
{
    let prefix = if is_default {
        "\u{2713} "
    } else {
        "   "
    };
    let mut s = String::from_str(prefix);
    s.append(name);
    s
}

} // verus!
