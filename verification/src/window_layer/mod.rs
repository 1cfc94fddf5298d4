//! Desktop window layer: injection behind the icons, and mouse and keyboard forwarding.

pub mod class_name;
pub mod desktop;
pub mod dispatch;
pub mod keyboard;
pub mod messages;
pub mod mouse_hook;
pub mod mouse_laws;
pub mod probe;
pub mod process_cache;
