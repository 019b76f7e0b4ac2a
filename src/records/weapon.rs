//! Signatures of weapons.
use vstd::prelude::*;

use crate::address::AddressRecord;

verus! {

pub struct Change;

impl Change {
    pub fn record() -> (r: AddressRecord)
        ensures
            r.identity == 31,
            r.pattern@ == "48 ?? ?? ?? ?? ?? ?? 48 89 ?? ?? 45 8B E0 48 89 ?? ?? 48 8D ?? ?? ?? ?? ?? 4C 89 ?? ??"@,
            r.offset == -6,
    {
        AddressRecord { identity: 31, name: "weapon::Change", pattern: "48 ?? ?? ?? ?? ?? ?? 48 89 ?? ?? 45 8B E0 48 89 ?? ?? 48 8D ?? ?? ?? ?? ?? 4C 89 ?? ??", offset: -6 }
    }
}

} // verus!
