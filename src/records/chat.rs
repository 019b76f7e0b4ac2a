//! Signatures of chat.
use vstd::prelude::*;

use crate::address::AddressRecord;

verus! {

pub struct MessageSent;

impl MessageSent {
    pub fn record() -> (r: AddressRecord)
        ensures
            r.identity == 16,
            r.pattern@ == "81 08 10 00 00 48 ?? ?? ?? ?? ?? ?? 66 44 89 01 48 3B D0 74 ?? 44 89"@,
            r.offset == -5,
    {
        AddressRecord { identity: 16, name: "chat::MessageSent", pattern: "81 08 10 00 00 48 ?? ?? ?? ?? ?? ?? 66 44 89 01 48 3B D0 74 ?? 44 89", offset: -5 }
    }
}

pub struct PushMessageToWindow;

impl PushMessageToWindow {
    pub fn record() -> (r: AddressRecord)
        ensures
            r.identity == 17,
            r.pattern@ == "48 89 ?? ?? ?? 55 57 41 54 41 56 41 57 48 8D AC 24 60 FE FF FF 48 81 EC A0 02 00 00 45 33 F6 C6 85"@,
            r.offset == -5,
    {
        AddressRecord { identity: 17, name: "chat::PushMessageToWindow", pattern: "48 89 ?? ?? ?? 55 57 41 54 41 56 41 57 48 8D AC 24 60 FE FF FF 48 81 EC A0 02 00 00 45 33 F6 C6 85", offset: -5 }
    }
}

pub struct SystemMessage;

impl SystemMessage {
    pub fn record() -> (r: AddressRecord)
        ensures
            r.identity == 18,
            r.pattern@ == "0F 29 B4 24 B0 01 00 00 48 8B DA 0F 28 F2 48 8B F9 75 09"@,
            r.offset == -25,
    {
        AddressRecord { identity: 18, name: "chat::SystemMessage", pattern: "0F 29 B4 24 B0 01 00 00 48 8B DA 0F 28 F2 48 8B F9 75 09", offset: -25 }
    }
}

} // verus!
