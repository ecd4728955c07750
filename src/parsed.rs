//! The normalized outcome of one successful resolution.
use vstd::prelude::*;

use crate::platform::Platform;

verus! {

/// What a resolution yields: the room's metadata and its candidate links, in
/// order of preference.
#[derive(Debug, Clone, PartialEq, Eq)]
pub struct ParsedResult {
    pub platform: Platform,
    pub title: String,
    pub anchor: String,
    pub room_id: u64,
    pub category: String,
    pub links: Vec<String>,
}

} // verus!
