//! Verified core of a QEMU D-Bus display client: the listener's messages,
//! the framebuffer that scanouts and updates build, the VNC client's
//! decisions, and the helpers around them.

pub mod mouse;
pub mod console_listener;
pub mod image;
pub mod client;
pub mod console;
pub mod usbredir;
