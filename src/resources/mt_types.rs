//! Engine objects known by address, and their field access.
use vstd::prelude::*;

use crate::memory::{field_addr, field_address, read_bool, read_u32, u32_at, bool_at, ProcessMemory};

verus! {

/// An object of the game engine, known by its address.
pub trait MtObject: Sized {
    spec fn spec_instance(&self) -> u64;

    fn get_instance(&self) -> (r: u64)
        ensures
            r == self.spec_instance(),
    ;

    fn from_instance(ptr: u64) -> (r: Self)
        ensures
            r.spec_instance() == ptr,
    ;
}

/// An engine object whose fields are read at offsets from its address.
pub trait Resource: MtObject {
}

/// The engine's dynamic array header: length, capacity, ownership flag
/// and a pointer to the elements.
#[derive(Debug, Clone, Copy, PartialEq, Eq, Hash, Structural)]
pub struct MtArray {
    instance: u64,
}

impl MtObject for MtArray {
    closed spec fn spec_instance(&self) -> u64 {
        self.instance
    }

    fn get_instance(&self) -> (r: u64) {
        self.instance
    }

    fn from_instance(ptr: u64) -> (r: Self) {
        MtArray { instance: ptr }
    }
}

impl Resource for MtArray {
}

impl MtArray {
    pub fn new(ptr: u64) -> (r: Self)
        ensures
            r.spec_instance() == ptr,
    {
        MtArray { instance: ptr }
    }

    /// Number of elements.
    pub fn length<M: ProcessMemory>(&self, mem: &M) -> (r: Option<u32>)
        ensures
            r == u32_at(mem, field_address(self.spec_instance(), 0x8)),
    {
        read_u32(mem, field_addr(self.instance, 0x8))
    }

    /// Number of element slots.
    pub fn capacity<M: ProcessMemory>(&self, mem: &M) -> (r: Option<u32>)
        ensures
            r == u32_at(mem, field_address(self.spec_instance(), 0xC)),
    {
        read_u32(mem, field_addr(self.instance, 0xC))
    }

    /// Whether the array frees its elements.
    pub fn auto_delete<M: ProcessMemory>(&self, mem: &M) -> (r: Option<bool>)
        ensures
            r == bool_at(mem, field_address(self.spec_instance(), 0x10)),
    {
        read_bool(mem, field_addr(self.instance, 0x10))
    }

    /// Whether the array holds no element.
    pub fn is_empty<M: ProcessMemory>(&self, mem: &M) -> (r: Option<bool>)
        ensures
            r == (match u32_at(mem, field_address(self.spec_instance(), 0x8)) {
                Some(n) => Some(n == 0),
                None => None::<bool>,
            }),
    {
        let n = self.length(mem)?;
        Some(n == 0)
    }
}

/// Runtime type information of an engine class.
#[derive(Debug, Clone, Copy, PartialEq, Eq, Hash, Structural)]
pub struct MtDti {
    instance: u64,
}

impl MtObject for MtDti {
    closed spec fn spec_instance(&self) -> u64 {
        self.instance
    }

    fn get_instance(&self) -> (r: u64) {
        self.instance
    }

    fn from_instance(ptr: u64) -> (r: Self) {
        MtDti { instance: ptr }
    }
}

} // verus!
