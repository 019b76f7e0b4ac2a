//! Collision data of entities: collision object, node resource, nodes and their geometry.
use vstd::prelude::*;

use crate::memory::{field_addr, field_address, i32_at, read_i32, read_u64, u64_at, ProcessMemory};
use crate::resources::mt_types::{MtObject, Resource};
use crate::resources::mt_types::MtArray;

verus! {

/// An entity's collision object.
#[derive(Debug, Clone, Copy, PartialEq, Eq, Hash, Structural)]
pub struct ObjCollision {
    instance: u64,
}

impl MtObject for ObjCollision {
    closed spec fn spec_instance(&self) -> u64 {
        self.instance
    }

    fn get_instance(&self) -> (r: u64) {
        self.instance
    }

    fn from_instance(ptr: u64) -> (r: Self) {
        ObjCollision { instance: ptr }
    }
}

impl Resource for ObjCollision {
}

impl ObjCollision {
    pub fn new(ptr: u64) -> (r: Self)
        ensures
            r.spec_instance() == ptr,
    {
        ObjCollision { instance: ptr }
    }

    /// The node resource that the object points to.
    pub fn coll_node_resource<M: ProcessMemory>(&self, mem: &M) -> (r: Option<CollNodeResource>)
        ensures
            match u64_at(mem, field_address(self.spec_instance(), 0xB0)) {
                Some(p) => r matches Some(o) && o.spec_instance() == p,
                None => r is None,
            },
    {
        let p = read_u64(mem, field_addr(self.instance, 0xB0))?;
        Some(CollNodeResource::from_instance(p))
    }
}

/// The resource that holds an object's collision nodes.
#[derive(Debug, Clone, Copy, PartialEq, Eq, Hash, Structural)]
pub struct CollNodeResource {
    instance: u64,
}

impl MtObject for CollNodeResource {
    closed spec fn spec_instance(&self) -> u64 {
        self.instance
    }

    fn get_instance(&self) -> (r: u64) {
        self.instance
    }

    fn from_instance(ptr: u64) -> (r: Self) {
        CollNodeResource { instance: ptr }
    }
}

impl Resource for CollNodeResource {
}

impl CollNodeResource {
    pub fn new(ptr: u64) -> (r: Self)
        ensures
            r.spec_instance() == ptr,
    {
        CollNodeResource { instance: ptr }
    }

    /// What the nodes collide as; `None` when unreadable or of an unknown number.
    pub fn node_type<M: ProcessMemory>(&self, mem: &M) -> (r: Option<CollNodeType>)
        ensures
            match i32_at(mem, field_address(self.spec_instance(), 0xA8)) {
                Some(n) => match r {
                    Some(k) => coll_node_type_number(k) == n,
                    None => forall|k: CollNodeType| coll_node_type_number(k) != n,
                },
                None => r is None,
            },
    {
        let n = read_i32(mem, field_addr(self.instance, 0xA8))?;
        CollNodeType::from_number(n)
    }

    /// The array of nodes, stored inline in the resource.
    pub fn nodes(&self) -> (r: Option<MtArray>)
        ensures
            match field_address(self.spec_instance(), 0xB0) {
                Some(a) => r matches Some(o) && o.spec_instance() == a,
                None => r is None,
            },
    {
        let a = field_addr(self.instance, 0xB0)?;
        Some(MtArray::from_instance(a))
    }
}

/// One collision node.
#[derive(Debug, Clone, Copy, PartialEq, Eq, Hash, Structural)]
pub struct CollNode {
    instance: u64,
}

impl MtObject for CollNode {
    closed spec fn spec_instance(&self) -> u64 {
        self.instance
    }

    fn get_instance(&self) -> (r: u64) {
        self.instance
    }

    fn from_instance(ptr: u64) -> (r: Self) {
        CollNode { instance: ptr }
    }
}

impl Resource for CollNode {
}

impl CollNode {
    pub fn new(ptr: u64) -> (r: Self)
        ensures
            r.spec_instance() == ptr,
    {
        CollNode { instance: ptr }
    }

    /// The geometry that the node points to.
    pub fn geometry<M: ProcessMemory>(&self, mem: &M) -> (r: Option<CollGeomResource>)
        ensures
            match u64_at(mem, field_address(self.spec_instance(), 0x8)) {
                Some(p) => r matches Some(o) && o.spec_instance() == p,
                None => r is None,
            },
    {
        let p = read_u64(mem, field_addr(self.instance, 0x8))?;
        Some(CollGeomResource::from_instance(p))
    }
}

/// Collision geometry.
#[derive(Debug, Clone, Copy, PartialEq, Eq, Hash, Structural)]
pub struct CollGeomResource {
    instance: u64,
}

impl MtObject for CollGeomResource {
    closed spec fn spec_instance(&self) -> u64 {
        self.instance
    }

    fn get_instance(&self) -> (r: u64) {
        self.instance
    }

    fn from_instance(ptr: u64) -> (r: Self) {
        CollGeomResource { instance: ptr }
    }
}

impl Resource for CollGeomResource {
}

impl CollGeomResource {
    pub fn new(ptr: u64) -> (r: Self)
        ensures
            r.spec_instance() == ptr,
    {
        CollGeomResource { instance: ptr }
    }
}

/// What a collision node belongs to.
#[derive(Debug, Clone, Copy, PartialEq, Eq, Hash, Structural)]
pub enum CollNodeType {
    Default,
    Player,
    Monster,
    Player3,
    Default4,
    Default5,
    Default6,
}

/// The number of each CollNodeType variant.
pub open spec fn coll_node_type_number(k: CollNodeType) -> i32 {
    match k {
        CollNodeType::Default => 0,
        CollNodeType::Player => 1,
        CollNodeType::Monster => 2,
        CollNodeType::Player3 => 3,
        CollNodeType::Default4 => 4,
        CollNodeType::Default5 => 5,
        CollNodeType::Default6 => 6,
    }
}

impl CollNodeType {
    /// The variant numbered `n`, if any.
    pub fn from_number(n: i32) -> (r: Option<Self>)
        ensures
            r matches Some(k) ==> coll_node_type_number(k) == n,
            r is None ==> forall|k: CollNodeType| coll_node_type_number(k) != n,
    {
        match n {
            0 => Some(CollNodeType::Default),
            1 => Some(CollNodeType::Player),
            2 => Some(CollNodeType::Monster),
            3 => Some(CollNodeType::Player3),
            4 => Some(CollNodeType::Default4),
            5 => Some(CollNodeType::Default5),
            6 => Some(CollNodeType::Default6),
            _ => None,
        }
    }
}

} // verus!
