//! Automatic low-bitrate scene switching for live broadcasts.
//!
//! The crate holds the decision core of a bitrate-driven scene switcher:
//! connection-health classification against configured thresholds, the
//! debounced per-tick switching decision, scene resolution through
//! per-server overrides and dependency fallbacks, and the bookkeeping of
//! the shared session state that the surrounding tasks mutate.

pub mod broadcasting_software;
pub mod chat;
pub mod config;
pub mod error;
pub mod events;
pub mod state;
pub mod stream_servers;
pub mod switcher;
pub mod text;

pub use error::Error;
