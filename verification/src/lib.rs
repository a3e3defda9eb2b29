//! Lifecycle controller of a tray-resident desktop shell.
//!
//! The shell owns one window, a tray icon with a menu, and one shared flag
//! ("always on top"). This crate holds its decisions: what a tray click, a
//! menu selection, a focus change or a second launch does to the shared state,
//! and which window operations follow. It performs none of those operations
//! itself. Each decision hands back a [`procedure::Procedure`]; the caller
//! attempts its steps one by one and reports how each ended.

pub mod command;
pub mod flag;
pub mod focus;
pub mod launch;
pub mod menu;
pub mod procedure;
pub mod shell;
pub mod tray;
pub mod window;
