//! Microphone management logic: the application state that merges device
//! notifications, polls and user actions; device roles and states; the
//! preferences and the registry writes that store them; the tray icon's
//! bitmaps, menu and tooltips; and the error model of the C interface.

pub mod device;
pub mod ffi;
pub mod icon;
pub mod menu;
pub mod registry;
pub mod state;
pub mod tray;
pub mod wide;
