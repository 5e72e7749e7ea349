//! Verified core of a remote-control bot: who is authorized, which access
//! codes are outstanding, and where each user currently stands in the file
//! system. The transport, the process runner and the durable store are
//! collaborators that hand plain values in and take plain values back.
pub mod auth_manager;
pub mod bot;
pub mod commands;
pub mod config_manager;
pub mod errors;
pub mod file_manager;
pub mod lifecycle;
pub mod listing;
pub mod log_manager;
pub mod paths;
pub mod render;
pub mod text;
pub mod types;
