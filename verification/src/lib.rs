//! Desktop wallpaper host: the rules behind the tray application.
//!
//! Everything here works on plain values. The window handles, screen points and process ids are
//! integers that the caller obtained from the platform, and what has to happen on the platform is
//! returned as a value that says so.

pub mod commands;
pub mod commands_core;
pub mod desktop_clone;
pub mod discord;
pub mod error;
pub mod file_name;
pub mod mouse_leave;
pub mod outside;
pub mod percent;
pub mod platform_text;
pub mod startup;
pub mod system_monitor;
pub mod text;
pub mod updater;
pub mod window_layer;
