//! Delivers text into a running editor's input control: finds or starts the
//! editor, resolves its input control, and decides what text to send, as
//! verified decisions that a thin driver carries out against the OS.

pub mod error;
pub mod handles;
pub mod laws;
pub mod names;
pub mod pipeline;
pub mod scan;
pub mod text;
