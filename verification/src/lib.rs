//! Sleepy Cat: a local prompt library that fills a saved prompt into the
//! focused input of another application and optionally submits it.
//!
//! This crate holds the decision logic of the desktop app: which application a
//! prompt may be delivered to, how a delivery transaction is ordered and when it
//! must stop, how the floating button and popover react to their state, and the
//! text formats the app reads from and writes to macOS tools.
pub mod autosend;
pub mod macos_panels;
pub mod platform;
pub mod prompt_button;
pub mod settings;
pub mod targets;
pub mod text;
pub mod windows;
