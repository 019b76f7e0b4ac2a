//! Signatures of the game itself.
use vstd::prelude::*;

use crate::address::AddressRecord;

verus! {

pub struct GetGameBuildRevision;

impl GetGameBuildRevision {
    pub fn record() -> (r: AddressRecord)
        ensures
            r.identity == 1,
            r.pattern@ == "48 83 EC 48 48 8B 05 ?? ?? ?? ?? 4C 8D 0D ?? ?? ?? ?? BA 0A 00 00 00"@,
            r.offset == 0,
    {
        AddressRecord { identity: 1, name: "core::GetGameBuildRevision", pattern: "48 83 EC 48 48 8B 05 ?? ?? ?? ?? 4C 8D 0D ?? ?? ?? ?? BA 0A 00 00 00", offset: 0 }
    }
}

} // verus!
