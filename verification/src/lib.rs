//! Edit-history engine for a text editor.
//!
//! The crate records content mutations as a linear, reversible sequence of
//! snapshots, derives an "unsaved changes" signal from that sequence, and
//! coordinates with a live text buffer without feedback loops when history is
//! replayed or the buffer is reset programmatically.

pub mod editor;
pub mod history;
pub mod position;
pub mod settings;
pub mod text;
pub mod types;
pub mod workspace;
pub mod wrap;

pub use editor::{EditorCore, Restore};
pub use history::{History, Snapshot};
pub use position::{offset_to_position, Position};
pub use types::{Encoding, LineEnding};
