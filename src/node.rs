use vstd::prelude::*;

use crate::platform::{platform_code, Platform};

verus! {

/// A node of a library as stored: its public id, name, platform and the time
/// it was last seen, in milliseconds since the Unix epoch.
#[derive(Debug, Clone)]
pub struct LibraryNode {
    pub uuid: String,
    pub name: String,
    pub platform: Platform,
    pub last_seen: i64,
}

impl LibraryNode {
    /// Builds a node from a stored record, whose platform code must be valid.
    pub fn from_record(pub_id: String, name: String, platform: i32, last_seen: i64) -> (r:
        LibraryNode)
        requires
            0 <= platform <= 5,
        ensures
            r.uuid == pub_id,
            r.name == name,
            platform_code(r.platform) == platform,
            r.last_seen == last_seen,
    {
        let platform = Platform::from_int(platform).unwrap();
        LibraryNode { uuid: pub_id, name, platform, last_seen }
    }
}

} // verus!
