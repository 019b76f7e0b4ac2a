//! Save data: one of three save slots in the loaded save file.
use vstd::prelude::*;

use crate::memory::{follow_chain, i32_at, read_i32, ProcessMemory};
use crate::resources::player::{chain_end, chained_u64, read_chained_u64};

verus! {

/// Where the game keeps the save data.
pub const SAVE_BASE: u64 = 0x145011710;

/// The size of one save slot.
pub const SAVE_SLOT_SIZE: u64 = 0x26CC00;

/// One save slot: the save data's address and the slot's offset in it.
#[derive(Debug, Clone, Copy, PartialEq, Eq, Hash, Structural)]
pub struct SaveData {
    pub instance: u64,
    pub save_offset: u64,
}

/// Slot `index` of the save data, as `from_index` gives it.
pub open spec fn save_at<M: ProcessMemory>(mem: &M, index: i32) -> Option<SaveData> {
    if !(0 <= index <= 2) {
        None
    } else {
        match chained_u64(mem, SAVE_BASE, seq![0xA8i64]) {
            Some(p) => Some(SaveData { instance: p, save_offset: (index * SAVE_SLOT_SIZE) as u64 }),
            None => None,
        }
    }
}

impl SaveData {
    /// Slot `index` (0 to 2) of the save data whose address is stored at
    /// the end of the chain 0xA8 from the save base.
    pub fn from_index<M: ProcessMemory>(mem: &M, index: i32) -> (r: Option<Self>)
        ensures
            r == save_at(mem, index),
    {
        if !(0 <= index && index <= 2) {
            return None;
        }
        let offsets: [i64; 1] = [0xA8];
        assert(offsets@ =~= seq![0xA8i64]);
        let instance = read_chained_u64(mem, SAVE_BASE, offsets.as_slice())?;
        Some(SaveData { instance, save_offset: index as u64 * SAVE_SLOT_SIZE })
    }

    /// The slot in use: its number is the `i32` at the end of the chain
    /// 0xA0 from the save base.
    pub fn current_save<M: ProcessMemory>(mem: &M) -> (r: Option<Self>)
        ensures
            r == match chain_end(mem, SAVE_BASE, seq![0xA0i64]) {
                Some(a) => match i32_at(mem, Some(a)) {
                    Some(slot) => save_at(mem, slot),
                    None => None,
                },
                None => None,
            },
    {
        let offsets: [i64; 1] = [0xA0];
        assert(offsets@ =~= seq![0xA0i64]);
        let a = follow_chain(mem, SAVE_BASE, offsets.as_slice())?;
        let slot = read_i32(mem, Some(a))?;
        Self::from_index(mem, slot)
    }
}

} // verus!
