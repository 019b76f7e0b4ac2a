//! Signatures of monsters.
use vstd::prelude::*;

use crate::address::AddressRecord;

verus! {

pub struct Ctor;

impl Ctor {
    pub fn record() -> (r: AddressRecord)
        ensures
            r.identity == 2,
            r.pattern@ == "4C 89 B3 10 76 00 00"@,
            r.offset == -60,
    {
        AddressRecord { identity: 2, name: "monster::Ctor", pattern: "4C 89 B3 10 76 00 00", offset: -60 }
    }
}

pub struct Dtor;

impl Dtor {
    pub fn record() -> (r: AddressRecord)
        ensures
            r.identity == 3,
            r.pattern@ == "48 83 EC 20 48 8B B9 A0 09 00 00"@,
            r.offset == -20,
    {
        AddressRecord { identity: 3, name: "monster::Dtor", pattern: "48 83 EC 20 48 8B B9 A0 09 00 00", offset: -20 }
    }
}

pub struct SetTarget;

impl SetTarget {
    pub fn record() -> (r: AddressRecord)
        ensures
            r.identity == 4,
            r.pattern@ == "48 85 C0 74 ?? 48 89 ?? ?? 48 8B ?? ?? ?? ?? ?? 48 89 ?? ?? 48 89 0A FF ?? ?? ?? ?? ?? 48 89 ?? ?? ?? ?? ?? C3"@,
            r.offset == -7,
    {
        AddressRecord { identity: 4, name: "monster::SetTarget", pattern: "48 85 C0 74 ?? 48 89 ?? ?? 48 8B ?? ?? ?? ?? ?? 48 89 ?? ?? 48 89 0A FF ?? ?? ?? ?? ?? 48 89 ?? ?? ?? ?? ?? C3", offset: -7 }
    }
}

pub struct ProcessThkSegment;

impl ProcessThkSegment {
    pub fn record() -> (r: AddressRecord)
        ensures
            r.identity == 5,
            r.pattern@ == "48 89 ?? ?? ?? 56 57 41 54 48 ?? ?? ?? 48 8B ?? ?? ?? ?? ?? 49 8B F0 48 8B DA 48 8B F9 41"@,
            r.offset == -5,
    {
        AddressRecord { identity: 5, name: "monster::ProcessThkSegment", pattern: "48 89 ?? ?? ?? 56 57 41 54 48 ?? ?? ?? 48 8B ?? ?? ?? ?? ?? 49 8B F0 48 8B DA 48 8B F9 41", offset: -5 }
    }
}

} // verus!
