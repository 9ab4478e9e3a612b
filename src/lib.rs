//! A nushell plugin command that copies a pipeline value to the clipboard.
//!
//! The library holds the command's logic: reading the plugin configuration,
//! turning a value into text, and deciding what the command emits once the
//! text has been written.
pub mod config;
pub mod error;
pub mod copy;
pub mod format;
