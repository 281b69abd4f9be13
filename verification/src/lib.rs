//! Verified core of a bulk image downloader.
//!
//! The library models the whole pipeline: the closed channel and extension
//! vocabularies, the paginated listing envelope, the query parameters sent to
//! the listing endpoint, the flattening of pages into one item collection, the
//! per-item download state machine, and the attempt/failure counters with the
//! progress and summary lines built from them. Everything that talks to the
//! network, the filesystem or the operator lives outside, in `app/`, and only
//! hands plain values in and out.

use vstd::prelude::*;

pub mod channel;
pub mod counters;
pub mod extension;
pub mod fetch;
pub mod item;
pub mod query;
pub mod text;
pub mod worker;

verus! {

/// Listing endpoint that the metadata client queries, one GET per page offset.
pub fn base_url() -> (r: &'static str)
    ensures
        r@ == "https://community-uploads.highwinds-cdn.com/api/v9/community_uploads"@,
{
    "https://community-uploads.highwinds-cdn.com/api/v9/community_uploads"
}

/// User-chosen configuration: how many pages to list, where downloads go, and
/// which channels to pull. Built once at startup, immutable afterwards.
pub struct Settings {
    pub max_pages: u64,
    pub dest_root: String,
    pub channels: Vec<channel::Channel>,
}

impl Settings {
    /// Stores the three operator-chosen values unchanged.
    pub fn new(max_pages: u64, dest_root: String, channels: Vec<channel::Channel>) -> (s:
        Settings)
        ensures
            s.max_pages == max_pages,
            s.dest_root == dest_root,
            s.channels == channels,
    {
        Settings { max_pages, dest_root, channels }
    }
}

} // verus!
