//! Players: the player entity, its session info, short info and weapon.
use vstd::prelude::*;

use crate::memory::{bool_at, field_addr, field_address, i16_at, i32_at, i8_at, read_bool, read_i16, read_i32, read_i8, read_u64, u64_at, ProcessMemory};
use crate::resources::mt_types::{MtObject, Resource};
use crate::memory::{c_string_at, chain, follow_chain, read_c_string};
use crate::resources::action::{ActionController, Entity};

verus! {

/// Where the game keeps the player table.
pub const PLAYER_BASE: u64 = 0x1450139A0;

/// Where the game keeps the table of players' short info.
pub const PLAYER_SHORT_INFO_BASE: u64 = 0x145013530;

/// The end of the pointer chain from `base`; a null base gives `None`.
pub open spec fn chain_end<M: ProcessMemory>(mem: &M, base: u64, offsets: Seq<i64>) -> Option<u64> {
    if base == 0 { None } else { chain(mem, base, offsets) }
}

/// The address stored at the end of the pointer chain from `base`.
pub open spec fn chained_u64<M: ProcessMemory>(mem: &M, base: u64, offsets: Seq<i64>) -> Option<u64> {
    match chain_end(mem, base, offsets) {
        Some(a) => u64_at(mem, Some(a)),
        None => None,
    }
}

pub(crate) fn read_chained_u64<M: ProcessMemory>(mem: &M, base: u64, offsets: &[i64]) -> (r: Option<u64>)
    ensures
        r == chained_u64(mem, base, offsets@),
{
    let a = follow_chain(mem, base, offsets)?;
    read_u64(mem, Some(a))
}

/// Whether the zero-terminated name at `addr` is readable and not empty.
pub open spec fn has_name<M: ProcessMemory>(mem: &M, addr: Option<u64>) -> bool {
    addr matches Some(a) && exists|len: nat| len > 0 && c_string_at(mem, a as int, len)
}

/// The zero-terminated string at `addr` is `name`.
pub open spec fn name_is<M: ProcessMemory>(mem: &M, addr: Option<u64>, name: Seq<u8>) -> bool {
    addr matches Some(a) && c_string_at(mem, a as int, name.len()) && forall|k: int|
        0 <= k < name.len() ==> crate::memory::u8_at(mem, Some((a + k) as u64)) == Some(#[trigger] name[k])
}

/// Reads the name at `addr`; `None` when unreadable.
fn read_name<M: ProcessMemory>(mem: &M, addr: Option<u64>) -> (r: Option<Vec<u8>>)
    ensures
        r matches Some(v) ==> (v@.len() > 0 <==> has_name(mem, addr)),
        r matches Some(v) ==> name_is(mem, addr, v@),
{
    let a = addr?;
    let v = read_c_string(mem, a)?;
    proof {
        if has_name(mem, addr) {
            let len = choose|len: nat| len > 0 && c_string_at(mem, a as int, len);
            lemma_c_string_unique(mem, a as int, len, v@.len());
        }
    }
    Some(v)
}

/// A zero-terminated string has one length.
proof fn lemma_c_string_unique<M: ProcessMemory>(mem: &M, addr: int, a: nat, b: nat)
    requires
        c_string_at(mem, addr, a),
        c_string_at(mem, addr, b),
    ensures
        a == b,
{
    if a < b {
        assert(u8_at_zero(mem, addr, a));
    } else if b < a {
        assert(u8_at_zero(mem, addr, b));
    }
}

spec fn u8_at_zero<M: ProcessMemory>(mem: &M, addr: int, k: nat) -> bool {
    crate::memory::u8_at(mem, Some((addr + k) as u64)) == Some(0u8)
}

fn same_bytes(a: &Vec<u8>, b: &[u8]) -> (r: bool)
    ensures
        r == (a@ == b@),
{
    if a.len() != b.len() {
        return false;
    }
    let mut i: usize = 0;
    while i < a.len()
        invariant
            i <= a.len(),
            a@.len() == b@.len(),
            forall|k: int| 0 <= k < i ==> a@[k] == b@[k],
        decreases a.len() - i,
    {
        if a[i] != b[i] {
            return false;
        }
        i += 1;
    }
    assert(a@ =~= b@);
    true
}

/// A player entity.
#[derive(Debug, Clone, Copy, PartialEq, Eq, Hash, Structural)]
pub struct Player {
    instance: u64,
}

impl MtObject for Player {
    closed spec fn spec_instance(&self) -> u64 {
        self.instance
    }

    fn get_instance(&self) -> (r: u64) {
        self.instance
    }

    fn from_instance(ptr: u64) -> (r: Self) {
        Player { instance: ptr }
    }
}

impl Resource for Player {
}

impl Entity for Player {
    fn action_controller(&self) -> (r: Option<ActionController>) {
        let a = field_addr(self.instance, 0x61C8)?;
        Some(ActionController::from_instance(a))
    }
}

impl Player {
    /// The local player: the address stored behind the player table at
    /// offset 0x50; `None` when unreadable or null.
    pub fn current_player<M: ProcessMemory>(mem: &M) -> (r: Option<Self>)
        ensures
            match chained_u64(mem, PLAYER_BASE, seq![0x50i64]) {
                Some(p) => if p == 0 { r is None } else { r matches Some(q) && q.spec_instance() == p },
                None => r is None,
            },
    {
        let offsets: [i64; 1] = [0x50];
        let p = read_chained_u64(mem, PLAYER_BASE, offsets.as_slice())?;
        assert(offsets@ =~= seq![0x50i64]);
        if p == 0 {
            return None;
        }
        Some(Player { instance: p })
    }

    /// The player in slot `index` (0 to 19) of the session; slot 3 is the
    /// local player. An address outside 0x10000..0x150000000, other than
    /// 0xFFFFFFFF, gives `None`.
    pub fn from_index<M: ProcessMemory>(mem: &M, index: i64) -> (r: Option<Self>)
        ensures
            !(0 <= index < 20) ==> r is None,
            index == 3 ==> match chained_u64(mem, PLAYER_BASE, seq![0x50i64]) {
                Some(p) => if p == 0 { r is None } else { r matches Some(q) && q.spec_instance() == p },
                None => r is None,
            },
            0 <= index < 20 && index != 3 ==> match chained_u64(mem, PLAYER_BASE, seq![(0x58 + 0x740 * index) as i64]) {
                Some(p) => if (0x10000 <= p < 0x150000000) || p == 0xFFFF_FFFF {
                    r matches Some(q) && q.spec_instance() == p
                } else {
                    r is None
                },
                None => r is None,
            },
    {
        if !(0 <= index && index < 20) {
            return None;
        }
        if index == 3 {
            return Self::current_player(mem);
        }
        let offsets: [i64; 1] = [0x58 + 0x740 * index];
        assert(offsets@ =~= seq![(0x58 + 0x740 * index) as i64]);
        let p = read_chained_u64(mem, PLAYER_BASE, offsets.as_slice())?;
        if !(0x10000 <= p && p < 0x150000000) && p != 0xFFFF_FFFF {
            return None;
        }
        Some(Player { instance: p })
    }

    /// The player's session info: the address stored at the end of the
    /// chain 0x8, 0x78 from the pointer at offset 0xC0.
    pub fn info<M: ProcessMemory>(&self, mem: &M) -> (r: Option<PlayerInfo>)
        ensures
            match field_address(self.spec_instance(), 0xC0) {
                Some(a) => match chained_u64(mem, a, seq![0x8i64, 0x78i64]) {
                    Some(p) => r matches Some(i) && i.spec_instance() == p,
                    None => r is None,
                },
                None => r is None,
            },
    {
        let a = field_addr(self.instance, 0xC0)?;
        let offsets: [i64; 2] = [0x8, 0x78];
        assert(offsets@ =~= seq![0x8i64, 0x78i64]);
        let p = read_chained_u64(mem, a, offsets.as_slice())?;
        Some(PlayerInfo::from_instance(p))
    }

    /// The player's short info, found by the name in its session info.
    pub fn short_info<M: ProcessMemory>(&self, mem: &M) -> (r: Option<PlayerShortInfo>)
        ensures
            r matches Some(s) ==> has_name(mem, field_address(s.spec_instance(), 0x49)),
    {
        let info = self.info(mem)?;
        info.short_info(mem)
    }

    /// The player's weapon info, stored inline at offset 0x76B0; `None`
    /// when the field reads as zero or cannot be read.
    pub fn weapon_info<M: ProcessMemory>(&self, mem: &M) -> (r: Option<PlayerWeaponInfo>)
        ensures
            match u64_at(mem, field_address(self.spec_instance(), 0x76B0)) {
                Some(v) => if v == 0 {
                    r is None
                } else {
                    r matches Some(w) && field_address(self.spec_instance(), 0x76B0) == Some(w.spec_instance())
                },
                None => r is None,
            },
    {
        let a = field_addr(self.instance, 0x76B0);
        let v = read_u64(mem, a)?;
        if v == 0 {
            return None;
        }
        let a = a?;
        Some(PlayerWeaponInfo::from_instance(a))
    }

    /// The player's health record.
    pub fn health<M: ProcessMemory>(&self, mem: &M) -> (r: Option<Health>)
        ensures
            match u64_at(mem, field_address(self.spec_instance(), 0x7630)) {
                Some(p) => r matches Some(o) && o.spec_instance() == p,
                None => r is None,
            },
    {
        let p = read_u64(mem, field_addr(self.instance, 0x7630))?;
        Some(Health::from_instance(p))
    }

    /// The id of the player's quest.
    pub fn quest_id<M: ProcessMemory>(&self, mem: &M) -> (r: Option<i32>)
        ensures
            r == i32_at(mem, field_address(self.spec_instance(), 0x10D8)),
    {
        read_i32(mem, field_addr(self.instance, 0x10D8))
    }
}

/// A player's session info.
#[derive(Debug, Clone, Copy, PartialEq, Eq, Hash, Structural)]
pub struct PlayerInfo {
    instance: u64,
}

impl MtObject for PlayerInfo {
    closed spec fn spec_instance(&self) -> u64 {
        self.instance
    }

    fn get_instance(&self) -> (r: u64) {
        self.instance
    }

    fn from_instance(ptr: u64) -> (r: Self) {
        PlayerInfo { instance: ptr }
    }
}

impl Resource for PlayerInfo {
}

impl PlayerInfo {
    /// The session info of slot `index` (0 to 19): the end of the player
    /// table chain, where it lies in 0x10000..0x150000000 and holds a name.
    pub fn from_index<M: ProcessMemory>(mem: &M, index: i64) -> (r: Option<Self>)
        ensures
            !(0 <= index < 20) ==> r is None,
            r matches Some(i) ==> chain_end(mem, PLAYER_BASE, seq![(0x58 + 0x740 * index) as i64]) == Some(
                i.spec_instance(),
            ) && 0x10000 <= i.spec_instance() < 0x150000000 && has_name(
                mem,
                field_address(i.spec_instance(), 0x78),
            ),
    {
        if !(0 <= index && index < 20) {
            return None;
        }
        let offsets: [i64; 1] = [0x58 + 0x740 * index];
        assert(offsets@ =~= seq![(0x58 + 0x740 * index) as i64]);
        let p = follow_chain(mem, PLAYER_BASE, offsets.as_slice())?;
        if !(0x10000 <= p && p < 0x150000000) {
            return None;
        }
        let name = read_name(mem, field_addr(p, 0x78))?;
        if name.len() == 0 {
            return None;
        }
        Some(PlayerInfo { instance: p })
    }

    /// The player's name: the zero-terminated bytes at offset 0x78.
    pub fn name<M: ProcessMemory>(&self, mem: &M) -> (r: Option<Vec<u8>>)
        ensures
            r matches Some(v) ==> name_is(mem, field_address(self.spec_instance(), 0x78), v@),
    {
        read_name(mem, field_addr(self.instance, 0x78))
    }

    /// The short info with the same name as this session info.
    pub fn short_info<M: ProcessMemory>(&self, mem: &M) -> (r: Option<PlayerShortInfo>)
        ensures
            r matches Some(s) ==> has_name(mem, field_address(s.spec_instance(), 0x49)) && exists|n: Seq<u8>|
                name_is(mem, field_address(self.spec_instance(), 0x78), n) && name_is(
                    mem,
                    field_address(s.spec_instance(), 0x49),
                    n,
                ),
    {
        let name = read_name(mem, field_addr(self.instance, 0x78))?;
        if name.len() == 0 {
            return None;
        }
        PlayerShortInfo::from_name(mem, name.as_slice())
    }

    /// The player's Steam id.
    pub fn steam_id<M: ProcessMemory>(&self, mem: &M) -> (r: Option<u64>)
        ensures
            r == u64_at(mem, field_address(self.spec_instance(), 0xE8)),
    {
        read_u64(mem, field_addr(self.instance, 0xE8))
    }
}

/// A player's short info: name, level, weapon and status.
#[derive(Debug, Clone, Copy, PartialEq, Eq, Hash, Structural)]
pub struct PlayerShortInfo {
    instance: u64,
}

impl MtObject for PlayerShortInfo {
    closed spec fn spec_instance(&self) -> u64 {
        self.instance
    }

    fn get_instance(&self) -> (r: u64) {
        self.instance
    }

    fn from_instance(ptr: u64) -> (r: Self) {
        PlayerShortInfo { instance: ptr }
    }
}

impl Resource for PlayerShortInfo {
}

impl PlayerShortInfo {
    /// The short info of slot `index` (0 to 19), where its address is not
    /// null and it holds a name.
    pub fn from_index<M: ProcessMemory>(mem: &M, index: i64) -> (r: Option<Self>)
        ensures
            !(0 <= index < 20) ==> r is None,
            r matches Some(s) ==> chained_u64(mem, PLAYER_SHORT_INFO_BASE, seq![(0x1AB0 + index * 0x58) as i64])
                == Some(s.spec_instance()) && s.spec_instance() != 0 && has_name(
                mem,
                field_address(s.spec_instance(), 0x49),
            ),
    {
        if !(0 <= index && index < 20) {
            return None;
        }
        let offsets: [i64; 1] = [0x1AB0 + index * 0x58];
        assert(offsets@ =~= seq![(0x1AB0 + index * 0x58) as i64]);
        let p = read_chained_u64(mem, PLAYER_SHORT_INFO_BASE, offsets.as_slice())?;
        if p == 0 {
            return None;
        }
        let name = read_name(mem, field_addr(p, 0x49))?;
        if name.len() == 0 {
            return None;
        }
        Some(PlayerShortInfo { instance: p })
    }

    /// The first short info, over the session's slots, whose name is `name`.
    pub fn from_name<M: ProcessMemory>(mem: &M, name: &[u8]) -> (r: Option<Self>)
        ensures
            r matches Some(s) ==> has_name(mem, field_address(s.spec_instance(), 0x49)) && name_is(
                mem,
                field_address(s.spec_instance(), 0x49),
                name@,
            ),
    {
        let mut i: i64 = 0;
        while i < 28
            invariant
                0 <= i <= 28,
            decreases 28 - i,
        {
            match Self::from_index(mem, i) {
                Some(info) => {
                    match read_name(mem, field_addr(info.instance, 0x49)) {
                        Some(n) => {
                            if same_bytes(&n, name) {
                                return Some(info);
                            }
                        },
                        None => {},
                    }
                },
                None => {},
            }
            i += 1;
        }
        None
    }

    /// The player's name: the zero-terminated bytes at offset 0x49.
    pub fn name<M: ProcessMemory>(&self, mem: &M) -> (r: Option<Vec<u8>>)
        ensures
            r matches Some(v) ==> name_is(mem, field_address(self.spec_instance(), 0x49), v@),
    {
        read_name(mem, field_addr(self.instance, 0x49))
    }

    /// Hunter rank at offset 0x70 and master rank at 0x72.
    pub fn level<M: ProcessMemory>(&self, mem: &M) -> (r: Option<ShortLevelInfo>)
        ensures
            match (i16_at(mem, field_address(self.spec_instance(), 0x70)), i16_at(mem, field_address(self.spec_instance(), 0x72))) {
                (Some(hr), Some(mr)) => r == Some(ShortLevelInfo { hr, mr }),
                _ => r is None,
            },
    {
        let hr = read_i16(mem, field_addr(self.instance, 0x70));
        let mr = read_i16(mem, field_addr(self.instance, 0x72));
        match (hr, mr) {
            (Some(hr), Some(mr)) => Some(ShortLevelInfo { hr, mr }),
            _ => None,
        }
    }

    /// Weapon kind at offset 0x7C and weapon id at 0x74.
    pub fn weapon<M: ProcessMemory>(&self, mem: &M) -> (r: Option<WeaponInfo>)
        ensures
            r == weapon_at(mem, self.spec_instance(), 0x7C, 0x74),
    {
        read_weapon(mem, self.instance, 0x7C, 0x74)
    }

    /// In a quest when the byte at 0x86 is 7, rescuing when the flag at 0x84
    /// is also set; otherwise undefined.
    pub fn status<M: ProcessMemory>(&self, mem: &M) -> (r: Option<PlayerStatus>)
        ensures
            match i8_at(mem, field_address(self.spec_instance(), 0x86)) {
                None => r is None,
                Some(b) => if b != 7 {
                    r == Some(PlayerStatus::Undefined)
                } else {
                    match bool_at(mem, field_address(self.spec_instance(), 0x84)) {
                        None => r is None,
                        Some(rescue) => r == Some(if rescue { PlayerStatus::Rescue } else { PlayerStatus::InQuest }),
                    }
                },
            },
    {
        let basic = read_i8(mem, field_addr(self.instance, 0x86))?;
        if basic == 7 {
            let rescue = read_bool(mem, field_addr(self.instance, 0x84))?;
            if rescue {
                Some(PlayerStatus::Rescue)
            } else {
                Some(PlayerStatus::InQuest)
            }
        } else {
            Some(PlayerStatus::Undefined)
        }
    }
}

/// The weapon kind and id at the given offsets from `base`.
pub open spec fn weapon_at<M: ProcessMemory>(mem: &M, base: u64, kind_at: u64, id_at: u64) -> Option<WeaponInfo> {
    match (i32_at(mem, field_address(base, kind_at)), i32_at(mem, field_address(base, id_at))) {
        (Some(weapon_type), Some(id)) => Some(WeaponInfo { weapon_type, id }),
        _ => None,
    }
}

fn read_weapon<M: ProcessMemory>(mem: &M, base: u64, kind_at: u64, id_at: u64) -> (r: Option<WeaponInfo>)
    ensures
        r == weapon_at(mem, base, kind_at, id_at),
{
    let weapon_type = read_i32(mem, field_addr(base, kind_at));
    let id = read_i32(mem, field_addr(base, id_at));
    match (weapon_type, id) {
        (Some(weapon_type), Some(id)) => Some(WeaponInfo { weapon_type, id }),
        _ => None,
    }
}

/// The weapon a player holds.
#[derive(Debug, Clone, Copy, PartialEq, Eq, Hash, Structural)]
pub struct PlayerWeaponInfo {
    instance: u64,
}

impl MtObject for PlayerWeaponInfo {
    closed spec fn spec_instance(&self) -> u64 {
        self.instance
    }

    fn get_instance(&self) -> (r: u64) {
        self.instance
    }

    fn from_instance(ptr: u64) -> (r: Self) {
        PlayerWeaponInfo { instance: ptr }
    }
}

impl Resource for PlayerWeaponInfo {
}

impl PlayerWeaponInfo {
    /// Weapon kind at offset 0x9F8 and weapon id at 0x9FC.
    pub fn weapon<M: ProcessMemory>(&self, mem: &M) -> (r: Option<WeaponInfo>)
        ensures
            r == weapon_at(mem, self.spec_instance(), 0x9F8, 0x9FC),
    {
        read_weapon(mem, self.instance, 0x9F8, 0x9FC)
    }
}

/// A health record.
#[derive(Debug, Clone, Copy, PartialEq, Eq, Hash, Structural)]
pub struct Health {
    instance: u64,
}

impl MtObject for Health {
    closed spec fn spec_instance(&self) -> u64 {
        self.instance
    }

    fn get_instance(&self) -> (r: u64) {
        self.instance
    }

    fn from_instance(ptr: u64) -> (r: Self) {
        Health { instance: ptr }
    }
}

impl Resource for Health {
}

/// Hunter rank and master rank.
#[derive(Debug, Clone, Copy, PartialEq, Eq, Hash, Structural)]
pub struct ShortLevelInfo {
    pub hr: i16,
    pub mr: i16,
}

/// A weapon's kind number and id.
#[derive(Debug, Clone, Copy, PartialEq, Eq, Hash, Structural)]
pub struct WeaponInfo {
    pub weapon_type: i32,
    pub id: i32,
}

/// Where a player stands in a quest.
#[derive(Debug, Clone, Copy, PartialEq, Eq, Hash, Structural)]
pub enum PlayerStatus {
    Undefined,
    InQuest,
    Rescue,
}

} // verus!
