//! The decisions, texts and pages of a desktop launcher that starts a local
//! web backend and shows it in a webview window.
//!
//! Everything here is verified with Verus. Windows, sockets, files and the
//! process environment live outside: callers hand in plain values and carry
//! out what the functions of this crate decide.
pub mod address;
pub mod args;
pub mod connection;
pub mod encoding;
pub mod error_page;
pub mod html;
pub mod injection;
pub mod json;
pub mod lifecycle;
pub mod logs;
pub mod page;
pub mod platform;
pub mod splash_page;
pub mod splash_template;
pub mod splash_update;
pub mod startup;
pub mod template;
pub mod text;
pub mod titlebar;
pub mod trust;
pub mod window;
