//! Signatures of the player.
use vstd::prelude::*;

use crate::address::AddressRecord;

verus! {

pub struct Hit;

impl Hit {
    pub fn record() -> (r: AddressRecord)
        ensures
            r.identity == 7,
            r.pattern@ == "8B ?? ?? ?? ?? ?? 48 85 C9 74 ?? E8 ?? ?? ?? ?? 33 C0 48 ?? ?? ?? C3"@,
            r.offset == -5,
    {
        AddressRecord { identity: 7, name: "player::Hit", pattern: "8B ?? ?? ?? ?? ?? 48 85 C9 74 ?? E8 ?? ?? ?? ?? 33 C0 48 ?? ?? ?? C3", offset: -5 }
    }
}

pub struct RemoveCatSkill;

impl RemoveCatSkill {
    pub fn record() -> (r: AddressRecord)
        ensures
            r.identity == 8,
            r.pattern@ == "4D 8B D8 4D 85 C0 75 ?? 4C 8B ?? ?? ?? ?? ?? 45 33 C0 4C 8D ?? ?? 45 8B D0 66 90"@,
            r.offset == -5,
    {
        AddressRecord { identity: 8, name: "player::RemoveCatSkill", pattern: "4D 8B D8 4D 85 C0 75 ?? 4C 8B ?? ?? ?? ?? ?? 45 33 C0 4C 8D ?? ?? 45 8B D0 66 90", offset: -5 }
    }
}

pub struct DrawDamage;

impl DrawDamage {
    pub fn record() -> (r: AddressRecord)
        ensures
            r.identity == 9,
            r.pattern@ == "8B 84 ?? ?? ?? ?? ?? C6 44 ?? ?? ?? C7 44 ?? ?? ?? ?? ?? ?? 89 44 ?? ?? 0F B6 ?? ?? ?? ?? ?? ?? 88 44 ?? ?? 8B 84"@,
            r.offset == -13,
    {
        AddressRecord { identity: 9, name: "player::DrawDamage", pattern: "8B 84 ?? ?? ?? ?? ?? C6 44 ?? ?? ?? C7 44 ?? ?? ?? ?? ?? ?? 89 44 ?? ?? 0F B6 ?? ?? ?? ?? ?? ?? 88 44 ?? ?? 8B 84", offset: -13 }
    }
}

pub struct StealHealth;

impl StealHealth {
    pub fn record() -> (r: AddressRecord)
        ensures
            r.identity == 10,
            r.pattern@ == "0F ?? ?? ?? ?? ?? ?? 73 ?? F3 0F ?? ?? ?? 0F 57 C9 F3 0F 5D C1 F3 0F ?? ?? ?? C3 0F 57 C0 0F 2F C8 72 ?? F3 0F ?? ?? ?? F3 0F 5D C1"@,
            r.offset == -5,
    {
        AddressRecord { identity: 10, name: "player::StealHealth", pattern: "0F ?? ?? ?? ?? ?? ?? 73 ?? F3 0F ?? ?? ?? 0F 57 C9 F3 0F 5D C1 F3 0F ?? ?? ?? C3 0F 57 C0 0F 2F C8 72 ?? F3 0F ?? ?? ?? F3 0F 5D C1", offset: -5 }
    }
}

pub struct MuteCheck;

impl MuteCheck {
    pub fn record() -> (r: AddressRecord)
        ensures
            r.identity == 11,
            r.pattern@ == "0F 57 C0 0F 2F ?? ?? ?? ?? ?? 0F ?? ?? ?? ?? ?? F3 ?? ?? ?? ?? ?? ?? ?? 48 ?? ?? ?? ?? ?? ?? F3 ?? ?? ?? ?? ?? ?? ?? 33 C9 49 89"@,
            r.offset == -10,
    {
        AddressRecord { identity: 11, name: "player::MuteCheck", pattern: "0F 57 C0 0F 2F ?? ?? ?? ?? ?? 0F ?? ?? ?? ?? ?? F3 ?? ?? ?? ?? ?? ?? ?? 48 ?? ?? ?? ?? ?? ?? F3 ?? ?? ?? ?? ?? ?? ?? 33 C9 49 89", offset: -10 }
    }
}

pub struct ClonePlayerShortInfo;

impl ClonePlayerShortInfo {
    pub fn record() -> (r: AddressRecord)
        ensures
            r.identity == 12,
            r.pattern@ == "48 89 ?? ?? ?? 57 48 ?? ?? ?? 48 8B 02 48 8B F1 8B ?? ?? ?? ?? ?? 48 8B CA 48 8B FA FF ?? ?? 3B 58 ?? 0F ?? ?? ?? ?? ?? 0F 10 ?? ?? 0F 11 ?? ?? 0F 10 ?? ?? 0F 11 ?? ?? 8B 46 ?? 89 47 ??"@,
            r.offset == -5,
    {
        AddressRecord { identity: 12, name: "player::ClonePlayerShortInfo", pattern: "48 89 ?? ?? ?? 57 48 ?? ?? ?? 48 8B 02 48 8B F1 8B ?? ?? ?? ?? ?? 48 8B CA 48 8B FA FF ?? ?? 3B 58 ?? 0F ?? ?? ?? ?? ?? 0F 10 ?? ?? 0F 11 ?? ?? 0F 10 ?? ?? 0F 11 ?? ?? 8B 46 ?? 89 47 ??", offset: -5 }
    }
}

pub struct SetSettings;

impl SetSettings {
    pub fn record() -> (r: AddressRecord)
        ensures
            r.identity == 13,
            r.pattern@ == "FF 15 3A 8C AA 01 48 8D 4E 08 40 88 AC 37 D8 03 14 00"@,
            r.offset == -32,
    {
        AddressRecord { identity: 13, name: "player::SetSettings", pattern: "FF 15 3A 8C AA 01 48 8D 4E 08 40 88 AC 37 D8 03 14 00", offset: -32 }
    }
}

pub struct AddHrXp;

impl AddHrXp {
    pub fn record() -> (r: AddressRecord)
        ensures
            r.identity == 14,
            r.pattern@ == "48 89 6C 24 10 48 89 74 24 18 48 89 7C 24 20 41 54 41 56 41 57 48 83 EC 20 48 8B F9 8B F2"@,
            r.offset == -5,
    {
        AddressRecord { identity: 14, name: "player::AddHrXp", pattern: "48 89 6C 24 10 48 89 74 24 18 48 89 7C 24 20 41 54 41 56 41 57 48 83 EC 20 48 8B F9 8B F2", offset: -5 }
    }
}

pub struct AddMrXp;

impl AddMrXp {
    pub fn record() -> (r: AddressRecord)
        ensures
            r.identity == 15,
            r.pattern@ == "48 89 ?? ?? ?? 48 89 ?? ?? ?? 48 89 ?? ?? ?? 41 54 41 56 41 57 48 ?? ?? ?? 48 8B F1 41 0F B6 F8 48 83 C1 08"@,
            r.offset == -5,
    {
        AddressRecord { identity: 15, name: "player::AddMrXp", pattern: "48 89 ?? ?? ?? 48 89 ?? ?? ?? 48 89 ?? ?? ?? 41 54 41 56 41 57 48 ?? ?? ?? 48 8B F1 41 0F B6 F8 48 83 C1 08", offset: -5 }
    }
}

} // verus!
