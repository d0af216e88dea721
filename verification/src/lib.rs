//! Core engine of a terminal dashboard for a message broker's management API:
//! selectable tables, tab management, sliding-window chart buffers, modal
//! overlays (help, confirmation, file browser, notifications), and the
//! keyboard-driven state transitions that tie them together.
//!
//! All I/O (HTTP fetches, terminal rendering, clipboard, filesystem) lives
//! outside this crate; the library works on plain values handed in and hands
//! decisions back as [`Action`](panes::Action) values.

pub mod chart;
pub mod config;
pub mod confirmation;
pub mod endpoints;
pub mod files;
pub mod help;
pub mod keys;
pub mod manager;
pub mod models;
pub mod notif;
pub mod numfmt;
pub mod panes;
pub mod rotate;
pub mod table;
pub mod tabs;

pub use config::AppConfig;
