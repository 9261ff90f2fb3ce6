//! The platform layers: macOS, where prompts are inserted into other
//! applications, and the fallback for other systems.
pub mod macos;
pub mod unsupported;
