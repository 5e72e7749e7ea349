use std::collections::HashMap;
use vstd::prelude::*;

verus! {

/// The numeric key by which the transport identifies a user.
pub type Id = u64;

/// What the bot is started with.
#[derive(Debug, Clone)]
pub struct Config {
    pub telegram_token: String,
    pub users_file_path: String,
    pub log_file_path: String,
}

/// What is kept about an authorized user: the name the transport showed for
/// them, if any, and when they were authorized, in seconds since the epoch.
#[derive(Debug, Clone)]
pub struct AuthorizedRecord {
    pub display_name: Option<String>,
    pub authorized_at: u64,
}

/// The users that have redeemed an access code, each with its record. This is
/// what the durable store holds.
#[derive(Debug, Clone)]
pub struct AuthorizedUsers {
    pub users: HashMap<Id, AuthorizedRecord>,
}

/// What came of reading a stored document: there is none, there is one but
/// it could not be read, it was read but could not be decoded, or it was
/// decoded into a value. Each failure carries the reason.
#[derive(Debug)]
pub enum Loaded<T> {
    Missing(String),
    Unreadable(String),
    Malformed(String),
    Decoded(T),
}

/// What came of writing the authorized users to the durable store.
#[derive(Debug)]
pub enum SaveOutcome {
    Saved,
    EncodingFailed(String),
    WriteFailed(String),
}

/// One entry of a directory: its name, its full path, whether it is itself a
/// directory, and its size in bytes.
#[derive(Debug, Clone)]
pub struct FileItem {
    pub name: String,
    pub path: String,
    pub is_directory: bool,
    pub size: u64,
}

} // verus!
