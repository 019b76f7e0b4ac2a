//! Signatures of the steamworks.
use vstd::prelude::*;

use crate::address::AddressRecord;

verus! {

pub struct ChangeFuel;

impl ChangeFuel {
    pub fn record() -> (r: AddressRecord)
        ensures
            r.identity == 32,
            r.pattern@ == ""@,
            r.offset == 0,
    {
        AddressRecord { identity: 32, name: "steamwork::ChangeFuel", pattern: "", offset: 0 }
    }
}

pub struct FailureJnzPatch;

impl FailureJnzPatch {
    pub fn record() -> (r: AddressRecord)
        ensures
            r.identity == 33,
            r.pattern@ == "BA ?? ?? ?? ?? 44 8D ?? ?? 41 FF D1 44 38 ?? ?? ?? ?? ?? 75 ?? 40 38 ?? ?? ?? ?? ?? 74 ?? BE ?? ?? ?? ?? 4B 8D 0C 64 8B D6 48 8B"@,
            r.offset == -2,
    {
        AddressRecord { identity: 33, name: "steamwork::FailureJnzPatch", pattern: "BA ?? ?? ?? ?? 44 8D ?? ?? 41 FF D1 44 38 ?? ?? ?? ?? ?? 75 ?? 40 38 ?? ?? ?? ?? ?? 74 ?? BE ?? ?? ?? ?? 4B 8D 0C 64 8B D6 48 8B", offset: -2 }
    }
}

} // verus!
