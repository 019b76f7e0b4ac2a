//! Signatures of quests.
use vstd::prelude::*;

use crate::address::AddressRecord;

verus! {

pub struct Accept;

impl Accept {
    pub fn record() -> (r: AddressRecord)
        ensures
            r.identity == 19,
            r.pattern@ == "40 53 57 41 57 48 83 EC 50 48 8B D9 45 0F B6 F8"@,
            r.offset == 0,
    {
        AddressRecord { identity: 19, name: "quest::Accept", pattern: "40 53 57 41 57 48 83 EC 50 48 8B D9 45 0F B6 F8", offset: 0 }
    }
}

pub struct Enter;

impl Enter {
    pub fn record() -> (r: AddressRecord)
        ensures
            r.identity == 20,
            r.pattern@ == "48 8B C4 55 48 81 EC F0 01 00 00 33 ED"@,
            r.offset == 0,
    {
        AddressRecord { identity: 20, name: "quest::Enter", pattern: "48 8B C4 55 48 81 EC F0 01 00 00 33 ED", offset: 0 }
    }
}

pub struct Return;

impl Return {
    pub fn record() -> (r: AddressRecord)
        ensures
            r.identity == 21,
            r.pattern@ == "40 57 48 83 EC 60 83 79 38 02 48 8B F9"@,
            r.offset == 0,
    {
        AddressRecord { identity: 21, name: "quest::Return", pattern: "40 57 48 83 EC 60 83 79 38 02 48 8B F9", offset: 0 }
    }
}

pub struct Leave;

impl Leave {
    pub fn record() -> (r: AddressRecord)
        ensures
            r.identity == 22,
            r.pattern@ == "00 84 c0 0F 84 BE B0 9E 51 00"@,
            r.offset == -54,
    {
        AddressRecord { identity: 22, name: "quest::Leave", pattern: "00 84 c0 0F 84 BE B0 9E 51 00", offset: -54 }
    }
}

pub struct Abandon;

impl Abandon {
    pub fn record() -> (r: AddressRecord)
        ensures
            r.identity == 23,
            r.pattern@ == "F3 0F 2C C0 F3 0F 11 81 A4 31 01 00"@,
            r.offset == -67,
    {
        AddressRecord { identity: 23, name: "quest::Abandon", pattern: "F3 0F 2C C0 F3 0F 11 81 A4 31 01 00", offset: -67 }
    }
}

pub struct Cancel;

impl Cancel {
    pub fn record() -> (r: AddressRecord)
        ensures
            r.identity == 24,
            r.pattern@ == "48 81 EC 60 02 00 00 45 33 FF 48 8B D9"@,
            r.offset == -28,
    {
        AddressRecord { identity: 24, name: "quest::Cancel", pattern: "48 81 EC 60 02 00 00 45 33 FF 48 8B D9", offset: -28 }
    }
}

pub struct End;

impl End {
    pub fn record() -> (r: AddressRecord)
        ensures
            r.identity == 25,
            r.pattern@ == "41 0F B6 F9 33 D2 41 8B F0 48 8B D9"@,
            r.offset == -37,
    {
        AddressRecord { identity: 25, name: "quest::End", pattern: "41 0F B6 F9 33 D2 41 8B F0 48 8B D9", offset: -37 }
    }
}

pub struct DepartOn;

impl DepartOn {
    pub fn record() -> (r: AddressRecord)
        ensures
            r.identity == 26,
            r.pattern@ == "48 8B C4 53 55 48 81 EC 08 02 00 00"@,
            r.offset == 0,
    {
        AddressRecord { identity: 26, name: "quest::DepartOn", pattern: "48 8B C4 53 55 48 81 EC 08 02 00 00", offset: 0 }
    }
}

pub struct GetQuestname;

impl GetQuestname {
    pub fn record() -> (r: AddressRecord)
        ensures
            r.identity == 27,
            r.pattern@ == "41 56 48 83 EC 20 48 8D B1 A0 AE 00 00"@,
            r.offset == -20,
    {
        AddressRecord { identity: 27, name: "quest::GetQuestname", pattern: "41 56 48 83 EC 20 48 8D B1 A0 AE 00 00", offset: -20 }
    }
}

pub struct PlayerDeath;

impl PlayerDeath {
    pub fn record() -> (r: AddressRecord)
        ensures
            r.identity == 28,
            r.pattern@ == "48 ?? ?? ?? 65 ?? ?? ?? ?? ?? ?? ?? ?? 48 8B F1 44 ?? ?? ?? ?? ?? ?? 41 0F B6 E8 B9 ?? ?? ?? ?? 4C 63 F2 4E 8B 14 C8 41 8B 04 0A 39"@,
            r.offset == -5,
    {
        AddressRecord { identity: 28, name: "quest::PlayerDeath", pattern: "48 ?? ?? ?? 65 ?? ?? ?? ?? ?? ?? ?? ?? 48 8B F1 44 ?? ?? ?? ?? ?? ?? 41 0F B6 E8 B9 ?? ?? ?? ?? 4C 63 F2 4E 8B 14 C8 41 8B 04 0A 39", offset: -5 }
    }
}

pub struct SetTotalPlayers;

impl SetTotalPlayers {
    pub fn record() -> (r: AddressRecord)
        ensures
            r.identity == 29,
            r.pattern@ == "89 91 ?? ?? ?? ?? 48 8B F9 48 ?? ?? ?? ?? ?? ?? BA 01 00 00 00 E8 ?? ?? ?? ?? 85 C0 78 5A"@,
            r.offset == -6,
    {
        AddressRecord { identity: 29, name: "quest::SetTotalPlayers", pattern: "89 91 ?? ?? ?? ?? 48 8B F9 48 ?? ?? ?? ?? ?? ?? BA 01 00 00 00 E8 ?? ?? ?? ?? 85 C0 78 5A", offset: -6 }
    }
}

} // verus!
