//! Verified core of a Wayland clipboard tray applet.
pub mod action;
pub mod action_laws;
pub mod cli;
pub mod cli_laws;
pub mod clipboard;
pub mod clipboard_laws;
pub mod clipboard_monitor;
pub mod config;
pub mod deadline;
pub mod debug_log;
pub mod edit_laws;
pub mod editing;
pub mod editor;
pub mod exchange;
pub mod instance;
pub mod laws;
pub mod log_laws;
pub mod notification;
pub mod path;
pub mod session;
pub mod session_laws;
pub mod stack;
pub mod stack_laws;
pub mod text;
pub mod text_laws;
pub mod transfer;
pub mod tray;
pub mod tray_laws;
