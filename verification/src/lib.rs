//! The verified core of a small windowing library: keyboard mapping, the
//! event dispatch of macOS views, and the platform decisions around them.

pub mod clipboard;
pub mod event;
pub mod gl;
pub mod keyboard;
pub mod macos;
pub mod x11;
