//! Signatures of code patched in place.
use vstd::prelude::*;

use crate::address::AddressRecord;

verus! {

pub struct WeaponATK;

impl WeaponATK {
    pub fn record() -> (r: AddressRecord)
        ensures
            r.identity == 6,
            r.pattern@ == "0F 57 F6 49 63 ?? ?? ?? ?? ?? ?? ?? ?? ?? ?? 85 D2 7E ?? 49 8B ?? ?? ?? ?? ?? 32 C0 48 85 C9 74 ?? 80 79 ?? ?? 0F 93 C0 EB ??"@,
            r.offset == 10,
    {
        AddressRecord { identity: 6, name: "inline::WeaponATK", pattern: "0F 57 F6 49 63 ?? ?? ?? ?? ?? ?? ?? ?? ?? ?? 85 D2 7E ?? 49 8B ?? ?? ?? ?? ?? 32 C0 48 85 C9 74 ?? 80 79 ?? ?? 0F 93 C0 EB ??", offset: 10 }
    }
}

} // verus!
