//! Constants of the service.

use vstd::prelude::*;

verus! {

/// Rounds of password hashing for local accounts.
pub const ENCRYPTION_ROUNDS: u32 = 12;

/// How long a login session lasts: 14 days.
pub const SESSION_LIFETIME_SECONDS: u64 = 3600 * 24 * 14;

/// The display modes and sort keys that a file listing accepts.
#[derive(Debug, Clone)]
pub struct FileConstants {
    pub display_options: Vec<String>,
    pub sort_keys: Vec<String>,
}

/// Name, version and source of the application, shown in page footers.
#[derive(Debug, Clone)]
pub struct GlobalMetadata {
    pub app_name: String,
    pub app_version: String,
    pub repo_url: String,
}

/// Settles process-wide values before the server starts; there are none left to settle.
pub fn init_statics() {
}

} // verus!
