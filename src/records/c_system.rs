//! Signatures of the engine's system objects.
use vstd::prelude::*;

use crate::address::AddressRecord;

verus! {

pub struct Ctor;

impl Ctor {
    pub fn record() -> (r: AddressRecord)
        ensures
            r.identity == 34,
            r.pattern@ == "48 83 C1 08 FF 15 ? ? ? ? 48 8B C3 C6 43 30 01 48 83 C4 20 5B C3"@,
            r.offset == -19,
    {
        AddressRecord { identity: 34, name: "c_system::Ctor", pattern: "48 83 C1 08 FF 15 ? ? ? ? 48 8B C3 C6 43 30 01 48 83 C4 20 5B C3", offset: -19 }
    }
}

} // verus!
