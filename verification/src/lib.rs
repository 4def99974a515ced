//! SteelMouse: battery reporting for SteelSeries wireless mice.
//!
//! The library holds everything the tray application decides or computes:
//! decoding of HID battery reports, the battery history and its
//! time-remaining estimate, the mock mouse, device selection, tray icon
//! rendering, menu texts and configuration rules. Talking to the HID bus,
//! the tray and the file system is left to the program that uses it.

pub mod autostart;
pub mod config;
pub mod decode;
pub mod hid;
pub mod icon;
pub mod iface;
pub mod log;
pub mod menu;
pub mod raster;
pub mod text;
pub mod tracker;
pub mod tray;
