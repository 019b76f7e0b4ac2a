//! The action state of an entity.
use vstd::prelude::*;

use crate::memory::{field_addr, field_address, i32_at, read_i32, read_u64, u64_at, write_i32, ProcessMemory};
use crate::resources::mt_types::{MtObject, Resource};

verus! {

/// An action: its set and its id within the set.
#[derive(Debug, Clone, Copy, PartialEq, Eq, Hash, Structural)]
pub struct ActionInfo {
    pub set: i32,
    pub id: i32,
}

/// The action at `addr`: two little-endian `i32`, set then id.
pub open spec fn action_at<M: ProcessMemory>(mem: &M, addr: Option<u64>) -> Option<ActionInfo> {
    match addr {
        None => None,
        Some(a) => match (i32_at(mem, Some(a)), i32_at(mem, field_address(a, 4))) {
            (Some(set), Some(id)) => Some(ActionInfo { set, id }),
            _ => None,
        },
    }
}

fn read_action<M: ProcessMemory>(mem: &M, addr: Option<u64>) -> (r: Option<ActionInfo>)
    ensures
        r == action_at(mem, addr),
{
    let a = addr?;
    let set = read_i32(mem, Some(a));
    let id = read_i32(mem, field_addr(a, 4));
    match (set, id) {
        (Some(set), Some(id)) => Some(ActionInfo { set, id }),
        _ => None,
    }
}

/// Drives the actions of one entity.
#[derive(Debug, Clone, Copy, PartialEq, Eq, Hash, Structural)]
pub struct ActionController {
    instance: u64,
}

impl MtObject for ActionController {
    closed spec fn spec_instance(&self) -> u64 {
        self.instance
    }

    fn get_instance(&self) -> (r: u64) {
        self.instance
    }

    fn from_instance(ptr: u64) -> (r: Self) {
        ActionController { instance: ptr }
    }
}

impl Resource for ActionController {
}

impl ActionController {

    /// The action under way.
    pub fn current_action<M: ProcessMemory>(&self, mem: &M) -> (r: Option<ActionInfo>)
        ensures
            r == action_at(mem, field_address(self.spec_instance(), 0xAC)),
    {
        read_action(mem, field_addr(self.instance, 0xAC))
    }

    /// The action queued next.
    pub fn next_action<M: ProcessMemory>(&self, mem: &M) -> (r: Option<ActionInfo>)
        ensures
            r == action_at(mem, field_address(self.spec_instance(), 0xBC)),
    {
        read_action(mem, field_addr(self.instance, 0xBC))
    }

    /// The action before the current one.
    pub fn previous_action<M: ProcessMemory>(&self, mem: &M) -> (r: Option<ActionInfo>)
        ensures
            r == action_at(mem, field_address(self.spec_instance(), 0xC4)),
    {
        read_action(mem, field_addr(self.instance, 0xC4))
    }

    /// Makes `action` the next action; says whether both fields were written.
    pub fn force_derive<M: ProcessMemory>(&self, mem: &mut M, action: ActionInfo) -> (r: bool)
        ensures
            r ==> action_at(final(mem), field_address(self.spec_instance(), 0xBC)) == Some(action),
            r == (field_address(self.spec_instance(), 0xC0) is Some && old(mem).bytes_at(
                self.spec_instance() + 0xBC,
                4,
            ) is Some && old(mem).bytes_at(self.spec_instance() + 0xC0, 4) is Some),
            forall|a: int, n: nat|
                (a + n <= self.spec_instance() + 0xBC || self.spec_instance() + 0xC4 <= a)
                    ==> #[trigger] final(mem).bytes_at(a, n) == old(mem).bytes_at(a, n),
    {
        if field_addr(self.instance, 0xC0).is_none() {
            return false;
        }
        let ghost before = *mem;
        let set_ok = write_i32(mem, field_addr(self.instance, 0xBC), action.set);
        if !set_ok {
            return false;
        }
        let ghost after_set = *mem;
        let id_ok = write_i32(mem, field_addr(self.instance, 0xC0), action.id);
        proof {
            assert(after_set.bytes_at(self.spec_instance() + 0xC0, 4) == before.bytes_at(self.spec_instance() + 0xC0, 4));
            assert forall|a: int, n: nat|
                (a + n <= self.spec_instance() + 0xBC || self.spec_instance() + 0xC4 <= a) implies #[trigger] mem.bytes_at(
                    a,
                    n,
                ) == before.bytes_at(a, n) by {
                assert(after_set.bytes_at(a, n) == before.bytes_at(a, n));
            }
            if id_ok {
                let a = field_address(self.spec_instance(), 0xBC)->Some_0;
                assert(field_address(a, 4) == field_address(self.spec_instance(), 0xC0));
                assert(mem.bytes_at(a as int, 4) == after_set.bytes_at(a as int, 4));
                assert(i32_at(mem, Some(a)) == Some(action.set));
                assert(i32_at(mem, field_address(a, 4)) == Some(action.id));
            }
        }
        id_ok
    }

    /// Address of the entity that owns this controller.
    pub fn owner<M: ProcessMemory>(&self, mem: &M) -> (r: Option<u64>)
        ensures
            r == u64_at(mem, field_address(self.spec_instance(), 0x100)),
    {
        read_u64(mem, field_addr(self.instance, 0x100))
    }
}

/// An entity of the world, with an action controller stored inline.
pub trait Entity: MtObject {
    /// The entity's action controller, at offset 0x61C8 in the entity.
    fn action_controller(&self) -> (r: Option<ActionController>)
        ensures
            match field_address(self.spec_instance(), 0x61C8) {
                Some(a) => r matches Some(c) && c.spec_instance() == a,
                None => r is None,
            },
    ;
}

} // verus!
