//! Headless core of the File Tunnel desktop app.
pub mod clock;
pub mod crypto;
pub mod desktop;
pub mod encoding;
pub mod formats;
pub mod lifecycle;
pub mod observability;
pub mod parity_contract_v1;
pub mod secrets;
pub mod secure_bluetooth;
pub mod std_text;
pub mod text;
pub mod transfer;
pub mod workspace;
pub mod workspace_snapshot;
