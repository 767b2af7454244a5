//! A plugin fed by a remote signature feed; for now it starts empty.
use vstd::prelude::*;

verus! {

/// Signatures that will later come from a live threat feed.
pub struct CloudSyncPlugin {
    live_signatures: Vec<String>,
}

impl CloudSyncPlugin {
    /// The live signature patterns held.
    pub closed spec fn signatures(self) -> Seq<String> {
        self.live_signatures@
    }

    /// A plugin for the feed reached with `api_key`; the feed is not fetched
    /// yet, so it holds no signature.
    pub fn new(api_key: &str) -> (p: Self)
        ensures
            p.signatures().len() == 0,
    {
        CloudSyncPlugin { live_signatures: Vec::new() }
    }
}

} // verus!
