//! The daemon: device management, transfers, and the control-plane handshake.
pub mod backends;
pub mod device;
pub mod discovery;
pub mod handshake;
pub mod manager_laws;
pub mod notices;
pub mod payload;
pub mod power;
pub mod requests;
pub mod sftp;
pub mod stream;
pub mod tls;
pub mod toggles;
pub mod transfer;
pub mod volume;
