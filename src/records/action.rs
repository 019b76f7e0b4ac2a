//! Signatures of actions.
use vstd::prelude::*;

use crate::address::AddressRecord;

verus! {

pub struct SetAction;

impl SetAction {
    pub fn record() -> (r: AddressRecord)
        ensures
            r.identity == 30,
            r.pattern@ == "48 63 0A 48 8D ?? ?? 48 ?? ?? ?? 46 3B 04 08 0F ?? ?? ?? ?? ?? 48 03 C9 49 8B ?? ?? ?? 4A ?? ?? ?? ?? 0F ?? ?? ?? ?? ?? 41 C6 ?? ?? ?? ?? ?? ?? 41 8B"@,
            r.offset == -7,
    {
        AddressRecord { identity: 30, name: "action::SetAction", pattern: "48 63 0A 48 8D ?? ?? 48 ?? ?? ?? 46 3B 04 08 0F ?? ?? ?? ?? ?? 48 03 C9 49 8B ?? ?? ?? 4A ?? ?? ?? ?? 0F ?? ?? ?? ?? ?? 41 C6 ?? ?? ?? ?? ?? ?? 41 8B", offset: -7 }
    }
}

} // verus!
