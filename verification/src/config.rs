//! The part of the configuration that the library reads.

use vstd::prelude::*;

verus! {

/// The access data for last.fm.
#[derive(Debug, Clone)]
pub struct LastfmConfig {
    /// Whether plays are reported at all.
    pub enabled: bool,
    pub api_key: String,
    pub api_secret: String,
    /// The key of an authorised session; empty until one has been fetched.
    pub session_key: String,
}

} // verus!
