//! The quest under way.
use vstd::prelude::*;

use crate::memory::{
    field_addr, field_address, i32_at, i8_at, read_i32, read_u64, u64_at, write_i32, write_i8, ProcessMemory,
};
use crate::resources::mt_types::{MtObject, Resource};

verus! {

/// Where the game keeps the address of the current quest.
pub const QUEST_BASE: u64 = 0x14500ED30;

/// The quest under way.
#[derive(Debug, Clone, Copy, PartialEq, Eq, Hash, Structural)]
pub struct Quest {
    instance: u64,
}

impl MtObject for Quest {
    closed spec fn spec_instance(&self) -> u64 {
        self.instance
    }

    fn get_instance(&self) -> (r: u64) {
        self.instance
    }

    fn from_instance(ptr: u64) -> (r: Self) {
        Quest { instance: ptr }
    }
}

impl Resource for Quest {
}

impl Quest {
    /// The current quest; `None` when the stored address is unreadable or
    /// below 0x10000 (no quest).
    pub fn new_static<M: ProcessMemory>(mem: &M) -> (r: Option<Self>)
        ensures
            match u64_at(mem, Some(QUEST_BASE)) {
                Some(p) => if p < 0x10000 { r is None } else { r matches Some(q) && q.spec_instance() == p },
                None => r is None,
            },
    {
        let p = read_u64(mem, Some(QUEST_BASE))?;
        if p < 0x10000 {
            None
        } else {
            Some(Quest { instance: p })
        }
    }

    /// The quest's state number.
    pub fn quest_state<M: ProcessMemory>(&self, mem: &M) -> (r: Option<i32>)
        ensures
            r == i32_at(mem, field_address(self.spec_instance(), 0x38)),
    {
        read_i32(mem, field_addr(self.instance, 0x38))
    }

    /// Sets the quest's state number; says whether it was written.
    pub fn quest_state_mut<M: ProcessMemory>(&self, mem: &mut M, value: i32) -> (r: bool)
        ensures
            r ==> i32_at(final(mem), field_address(self.spec_instance(), 0x38)) == Some(value),
    {
        let ok = write_i32(mem, field_addr(self.instance, 0x38), value);
        ok
    }

    /// Sets the quest's insurance state; says whether it was written.
    pub fn ensurance_state_mut<M: ProcessMemory>(&self, mem: &mut M, value: i8) -> (r: bool)
        ensures
            r ==> i8_at(final(mem), field_address(self.spec_instance(), 0x17384)) == Some(value),
    {
        let ok = write_i8(mem, field_addr(self.instance, 0x17384), value);
        ok
    }
}

} // verus!
