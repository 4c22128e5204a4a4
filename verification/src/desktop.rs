//! The decisions behind the native window: what the shell, the clipboard page and the receive page
//! do with what the user, the system and the network worker report.
pub mod clipboard;
pub mod clipboard_laws;
pub mod laws;
pub mod receive;
pub mod receive_laws;
pub mod shell;
pub mod worker;
