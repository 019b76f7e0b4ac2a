//! Buffs and debuffs: which consumable, debuff or skill effect is active,
//! and where its timer lies.
use vstd::prelude::*;
use vstd::string::{StrSliceExecFns, StringExecFns};

use crate::memory::{follow_chain, i32_at, read_i32, ProcessMemory};
use crate::keys::str_eq;
use crate::resources::player::chain_end;

verus! {

/// Buffs from consumables.
#[derive(Debug, Clone, Copy, PartialEq, Eq, Hash, Structural)]
pub enum Consumable {
    DashJuice,
    WigglyLitchy,
    AsteraJerky,
    MightSeed,
    MightPill,
    AdamantSeed,
    AdamantPill,
    DemonPowder,
    HardshellPowder,
    Demondrug,
    MegaDemondrug,
    Armorskin,
    MegaArmorskin,
    Cooldrink,
    Hotdrink,
    HealthRegen,
    ColdRes,
    SnowmanHead,
    Powercone,
    IceRes,
}

/// Offset of a consumable's timer in the buff block.
pub open spec fn consumable_timer_offset(k: Consumable) -> u64 {
    match k {
        Consumable::DashJuice => 0x690,
        Consumable::WigglyLitchy => 0x694,
        Consumable::AsteraJerky => 0x698,
        Consumable::MightSeed => 0x6A0,
        Consumable::MightPill => 0x6A0,
        Consumable::AdamantSeed => 0x6B0,
        Consumable::AdamantPill => 0x6B0,
        Consumable::DemonPowder => 0x6C4,
        Consumable::HardshellPowder => 0x6C8,
        Consumable::Demondrug => 0x6D4,
        Consumable::MegaDemondrug => 0x6D4,
        Consumable::Armorskin => 0x6D0,
        Consumable::MegaArmorskin => 0x6D0,
        Consumable::Cooldrink => 0x6EC,
        Consumable::Hotdrink => 0x6F0,
        Consumable::HealthRegen => 0x6F8,
        Consumable::ColdRes => 0x6FC,
        Consumable::SnowmanHead => 0x708,
        Consumable::Powercone => 0x718,
        Consumable::IceRes => 0x71C,
    }
}

/// Offset of the field that tells apart the consumables sharing a timer.
pub open spec fn consumable_category_offset(k: Consumable) -> Option<u64> {
    match k {
        Consumable::MightSeed => Some(0x6A4),
        Consumable::MightPill => Some(0x6A4),
        Consumable::AdamantSeed => Some(0x6B4),
        Consumable::AdamantPill => Some(0x6B4),
        Consumable::Demondrug => Some(0x6D4),
        Consumable::MegaDemondrug => Some(0x6D4),
        Consumable::Armorskin => Some(0x6D8),
        Consumable::MegaArmorskin => Some(0x6D8),
        _ => None,
    }
}

/// The consumables whose buff lasts until the quest ends.
pub open spec fn consumable_is_infinite(k: Consumable) -> bool {
    k == Consumable::Demondrug || k == Consumable::MegaDemondrug || k == Consumable::Armorskin || k
        == Consumable::MegaArmorskin
}

/// Which consumable a category field value stands for, by the field's offset.
pub open spec fn consumable_category(offset: u64, value: i32) -> Consumable {
    if offset == 0x6A4 {
        if value == 25 { Consumable::MightPill } else { Consumable::MightSeed }
    } else if offset == 0x6B4 {
        if value == 1 { Consumable::AdamantPill } else { Consumable::AdamantSeed }
    } else if offset == 0x6D4 {
        if value == 2 { Consumable::MegaDemondrug } else { Consumable::Demondrug }
    } else {
        if value == 2 { Consumable::MegaArmorskin } else { Consumable::Armorskin }
    }
}

impl Consumable {
    /// Offset of the timer.
    pub fn timer_offset(&self) -> (r: u64)
        ensures
            r == consumable_timer_offset(*self),
    {
        match self {
            Consumable::DashJuice => 0x690,
            Consumable::WigglyLitchy => 0x694,
            Consumable::AsteraJerky => 0x698,
            Consumable::MightSeed => 0x6A0,
            Consumable::MightPill => 0x6A0,
            Consumable::AdamantSeed => 0x6B0,
            Consumable::AdamantPill => 0x6B0,
            Consumable::DemonPowder => 0x6C4,
            Consumable::HardshellPowder => 0x6C8,
            Consumable::Demondrug => 0x6D4,
            Consumable::MegaDemondrug => 0x6D4,
            Consumable::Armorskin => 0x6D0,
            Consumable::MegaArmorskin => 0x6D0,
            Consumable::Cooldrink => 0x6EC,
            Consumable::Hotdrink => 0x6F0,
            Consumable::HealthRegen => 0x6F8,
            Consumable::ColdRes => 0x6FC,
            Consumable::SnowmanHead => 0x708,
            Consumable::Powercone => 0x718,
            Consumable::IceRes => 0x71C,
        }
    }

    /// Offset of the category field, for consumables that share a timer.
    pub fn category_offset(&self) -> (r: Option<u64>)
        ensures
            r == consumable_category_offset(*self),
    {
        match self {
            Consumable::MightSeed => Some(0x6A4),
            Consumable::MightPill => Some(0x6A4),
            Consumable::AdamantSeed => Some(0x6B4),
            Consumable::AdamantPill => Some(0x6B4),
            Consumable::Demondrug => Some(0x6D4),
            Consumable::MegaDemondrug => Some(0x6D4),
            Consumable::Armorskin => Some(0x6D8),
            Consumable::MegaArmorskin => Some(0x6D8),
            _ => None,
        }
    }

    /// Whether the buff lasts until the quest ends.
    pub fn is_infinite(&self) -> (r: bool)
        ensures
            r == consumable_is_infinite(*self),
    {
        match self {
            Consumable::Demondrug | Consumable::MegaDemondrug | Consumable::Armorskin | Consumable::MegaArmorskin => true,
            _ => false,
        }
    }
}

/// Debuffs (status ailments and blights).
#[derive(Debug, Clone, Copy, PartialEq, Eq, Hash, Structural)]
pub enum Debuff {
    Poison,
    Venom,
    Fire,
    Thunder,
    Water,
    Ice,
    Dragon,
    Bleed,
    Effluvia,
    DefDown,
    ResDown,
    Blast,
    BlastScourge,
}

/// Offset of a debuff's timer.
pub open spec fn debuff_timer_offset(k: Debuff) -> u64 {
    match k {
        Debuff::Poison => 0x5DC,
        Debuff::Venom => 0x5E0,
        Debuff::Fire => 0x5EC,
        Debuff::Thunder => 0x5F0,
        Debuff::Water => 0x5F4,
        Debuff::Ice => 0x5F8,
        Debuff::Dragon => 0x5FC,
        Debuff::Bleed => 0x600,
        Debuff::Effluvia => 0x608,
        Debuff::DefDown => 0x60C,
        Debuff::ResDown => 0x614,
        Debuff::Blast => 0x620,
        Debuff::BlastScourge => 0x63C,
    }
}

impl Debuff {
    /// Offset of the timer.
    pub fn timer_offset(&self) -> (r: u64)
        ensures
            r == debuff_timer_offset(*self),
    {
        match self {
            Debuff::Poison => 0x5DC,
            Debuff::Venom => 0x5E0,
            Debuff::Fire => 0x5EC,
            Debuff::Thunder => 0x5F0,
            Debuff::Water => 0x5F4,
            Debuff::Ice => 0x5F8,
            Debuff::Dragon => 0x5FC,
            Debuff::Bleed => 0x600,
            Debuff::Effluvia => 0x608,
            Debuff::DefDown => 0x60C,
            Debuff::ResDown => 0x614,
            Debuff::Blast => 0x620,
            Debuff::BlastScourge => 0x63C,
        }
    }
}

/// Buffs from skills.
#[derive(Debug, Clone, Copy, PartialEq, Eq, Hash, Structural)]
pub enum SkillAbnormality {
    DemonAmmo,
    ArmorAmmo,
    Fortify,
    ProtectivePolish,
    AffinitySliding,
    ElementAcceleration,
    LATENTPOWER,
    ADRENALINE,
    CoolCat,
    FROSTCRAFT,
    OffensiveGuard,
    Coalescence,
    EvasionMantle,
    AffinittyBooster,
}

/// Offset of a skill buff's timer.
pub open spec fn skill_timer_offset(k: SkillAbnormality) -> u64 {
    match k {
        SkillAbnormality::DemonAmmo => 0x6CC,
        SkillAbnormality::ArmorAmmo => 0x6D0,
        SkillAbnormality::Fortify => 0x764,
        SkillAbnormality::ProtectivePolish => 0x76C,
        SkillAbnormality::AffinitySliding => 0x770,
        SkillAbnormality::ElementAcceleration => 0x730,
        SkillAbnormality::LATENTPOWER => 0x738,
        SkillAbnormality::ADRENALINE => 0x754,
        SkillAbnormality::CoolCat => 0x7C8,
        SkillAbnormality::FROSTCRAFT => 0x788,
        SkillAbnormality::OffensiveGuard => 0x79C,
        SkillAbnormality::Coalescence => 0x7A0,
        SkillAbnormality::EvasionMantle => 0xFC4,
        SkillAbnormality::AffinittyBooster => 0xFC8,
    }
}

impl SkillAbnormality {
    /// Offset of the timer.
    pub fn timer_offset(&self) -> (r: u64)
        ensures
            r == skill_timer_offset(*self),
    {
        match self {
            SkillAbnormality::DemonAmmo => 0x6CC,
            SkillAbnormality::ArmorAmmo => 0x6D0,
            SkillAbnormality::Fortify => 0x764,
            SkillAbnormality::ProtectivePolish => 0x76C,
            SkillAbnormality::AffinitySliding => 0x770,
            SkillAbnormality::ElementAcceleration => 0x730,
            SkillAbnormality::LATENTPOWER => 0x738,
            SkillAbnormality::ADRENALINE => 0x754,
            SkillAbnormality::CoolCat => 0x7C8,
            SkillAbnormality::FROSTCRAFT => 0x788,
            SkillAbnormality::OffensiveGuard => 0x79C,
            SkillAbnormality::Coalescence => 0x7A0,
            SkillAbnormality::EvasionMantle => 0xFC4,
            SkillAbnormality::AffinittyBooster => 0xFC8,
        }
    }
}

/// Where a buff's timer comes from.
#[derive(Debug, Clone, Copy, PartialEq, Eq, Hash, Structural)]
pub enum TimerSource {
    /// The buff is not active: the timer is zero.
    Inactive,
    /// The buff lasts until the quest ends.
    Infinite,
    /// The timer is the value at the end of the one-step pointer chain from
    /// the block's address with this offset.
    At(u64),
}

/// The category that the block at `instance` shows at `offset`.
pub open spec fn category_value<M: ProcessMemory>(mem: &M, instance: u64, offset: u64) -> Option<i32> {
    match chain_end(mem, instance, seq![offset as i64]) {
        Some(a) => i32_at(mem, Some(a)),
        None => None,
    }
}

fn read_category<M: ProcessMemory>(mem: &M, instance: u64, offset: u64) -> (r: Option<i32>)
    requires
        offset < 0x1000,
    ensures
        r == category_value(mem, instance, offset),
{
    let offsets: [i64; 1] = [offset as i64];
    assert(offsets@ =~= seq![offset as i64]);
    let a = follow_chain(mem, instance, offsets.as_slice())?;
    read_i32(mem, Some(a))
}

/// The consumable buffs of the player, in the buff block at `instance`.
pub struct ConsumableService {
    pub instance: u64,
}

impl ConsumableService {
    pub fn new(instance: u64) -> (r: Self)
        ensures
            r.instance == instance,
    {
        ConsumableService { instance }
    }

    /// Which of the consumables sharing `consumable`'s timer is active;
    /// `None` for a consumable that shares no timer, or an unreadable field.
    pub fn get_category<M: ProcessMemory>(&self, mem: &M, consumable: Consumable) -> (r: Option<Consumable>)
        ensures
            match consumable_category_offset(consumable) {
                None => r is None,
                Some(off) => match category_value(mem, self.instance, off) {
                    None => r is None,
                    Some(v) => r == Some(consumable_category(off, v)),
                },
            },
    {
        let offset = consumable.category_offset()?;
        let value = read_category(mem, self.instance, offset)?;
        if offset == 0x6A4 {
            if value == 25 { Some(Consumable::MightPill) } else { Some(Consumable::MightSeed) }
        } else if offset == 0x6B4 {
            if value == 1 { Some(Consumable::AdamantPill) } else { Some(Consumable::AdamantSeed) }
        } else if offset == 0x6D4 {
            if value == 2 { Some(Consumable::MegaDemondrug) } else { Some(Consumable::Demondrug) }
        } else {
            if value == 2 { Some(Consumable::MegaArmorskin) } else { Some(Consumable::Armorskin) }
        }
    }

    /// Where `consumable`'s timer comes from: inactive when another
    /// consumable of its category is active, infinite for the buffs that
    /// last the quest, else its timer field.
    pub fn timer_source<M: ProcessMemory>(&self, mem: &M, consumable: Consumable) -> (r: TimerSource)
        ensures
            ({
                let other_active = match consumable_category_offset(consumable) {
                    None => false,
                    Some(off) => match category_value(mem, self.instance, off) {
                        None => false,
                        Some(v) => consumable_category(off, v) != consumable,
                    },
                };
                r == if other_active {
                    TimerSource::Inactive
                } else if consumable_is_infinite(consumable) {
                    TimerSource::Infinite
                } else {
                    TimerSource::At(consumable_timer_offset(consumable))
                }
            }),
    {
        match self.get_category(mem, consumable) {
            Some(c) => {
                if c != consumable {
                    return TimerSource::Inactive;
                }
            },
            None => {},
        }
        if consumable.is_infinite() {
            return TimerSource::Infinite;
        }
        TimerSource::At(consumable.timer_offset())
    }
}

/// The debuffs of the player, in the buff block at `instance`.
pub struct DebuffService {
    pub instance: u64,
}

impl DebuffService {
    pub fn new(instance: u64) -> (r: Self)
        ensures
            r.instance == instance,
    {
        DebuffService { instance }
    }

    /// For blast and blastscourge, which one is active: blastscourge when
    /// the field at 0x62C is not zero. `None` for other debuffs, or an
    /// unreadable field.
    pub fn get_category<M: ProcessMemory>(&self, mem: &M, debuff: Debuff) -> (r: Option<Debuff>)
        ensures
            debuff != Debuff::BlastScourge ==> r is None,
            debuff == Debuff::BlastScourge ==> match category_value(mem, self.instance, 0x62C) {
                None => r is None,
                Some(v) => r == Some(if v == 0 { Debuff::Blast } else { Debuff::BlastScourge }),
            },
    {
        if debuff != Debuff::BlastScourge {
            return None;
        }
        let value = read_category(mem, self.instance, 0x62C)?;
        if value == 0 {
            Some(Debuff::Blast)
        } else {
            Some(Debuff::BlastScourge)
        }
    }

    /// Where `debuff`'s timer comes from: inactive when the other debuff of
    /// its category is active, else its timer field.
    pub fn timer_source<M: ProcessMemory>(&self, mem: &M, debuff: Debuff) -> (r: TimerSource)
        ensures
            ({
                let other_active = debuff == Debuff::BlastScourge && category_value(mem, self.instance, 0x62C) == Some(0i32);
                r == if other_active { TimerSource::Inactive } else { TimerSource::At(debuff_timer_offset(debuff)) }
            }),
    {
        match self.get_category(mem, debuff) {
            Some(d) => {
                if d != debuff {
                    return TimerSource::Inactive;
                }
            },
            None => {},
        }
        TimerSource::At(debuff.timer_offset())
    }
}

/// Where the game keeps the address of the player's buff block.
pub const ABNORMALITY_BASE: u64 = 0x145011760;

/// The player's buffs and debuffs.
pub struct AbnormalityService {
    pub instance: u64,
    pub consumable_service: ConsumableService,
    pub debuff_service: DebuffService,
}

impl AbnormalityService {
    /// The service over the buff block at the end of the chain 0x50, 0x7D20
    /// from the abnormality base; `None` when the chain breaks.
    pub fn new<M: ProcessMemory>(mem: &M) -> (r: Option<Self>)
        ensures
            match chain_end(mem, ABNORMALITY_BASE, seq![0x50i64, 0x7D20i64]) {
                Some(a) => r matches Some(s) && s.instance == a && s.consumable_service.instance == a
                    && s.debuff_service.instance == a,
                None => r is None,
            },
    {
        let offsets: [i64; 2] = [0x50, 0x7D20];
        assert(offsets@ =~= seq![0x50i64, 0x7D20i64]);
        let instance = follow_chain(mem, ABNORMALITY_BASE, offsets.as_slice())?;
        Some(AbnormalityService {
            instance,
            consumable_service: ConsumableService::new(instance),
            debuff_service: DebuffService::new(instance),
        })
    }
}


/// The name of each Consumable variant.
pub open spec fn consumable_name(k: Consumable) -> Seq<char> {
    match k {
        Consumable::DashJuice => "DashJuice"@,
        Consumable::WigglyLitchy => "WigglyLitchy"@,
        Consumable::AsteraJerky => "AsteraJerky"@,
        Consumable::MightSeed => "MightSeed"@,
        Consumable::MightPill => "MightPill"@,
        Consumable::AdamantSeed => "AdamantSeed"@,
        Consumable::AdamantPill => "AdamantPill"@,
        Consumable::DemonPowder => "DemonPowder"@,
        Consumable::HardshellPowder => "HardshellPowder"@,
        Consumable::Demondrug => "Demondrug"@,
        Consumable::MegaDemondrug => "MegaDemondrug"@,
        Consumable::Armorskin => "Armorskin"@,
        Consumable::MegaArmorskin => "MegaArmorskin"@,
        Consumable::Cooldrink => "Cooldrink"@,
        Consumable::Hotdrink => "Hotdrink"@,
        Consumable::HealthRegen => "HealthRegen"@,
        Consumable::ColdRes => "ColdRes"@,
        Consumable::SnowmanHead => "SnowmanHead"@,
        Consumable::Powercone => "Powercone"@,
        Consumable::IceRes => "IceRes"@,
    }
}

impl Consumable {
    /// The variant of the given name.
    pub fn from_str(s: &str) -> (r: Option<Self>)
        ensures
            r matches Some(k) ==> consumable_name(k) == s@,
            r is None ==> forall|k: Consumable| consumable_name(k) != s@,
    {
        if str_eq(s, "DashJuice") {
            return Some(Consumable::DashJuice);
        }
        if str_eq(s, "WigglyLitchy") {
            return Some(Consumable::WigglyLitchy);
        }
        if str_eq(s, "AsteraJerky") {
            return Some(Consumable::AsteraJerky);
        }
        if str_eq(s, "MightSeed") {
            return Some(Consumable::MightSeed);
        }
        if str_eq(s, "MightPill") {
            return Some(Consumable::MightPill);
        }
        if str_eq(s, "AdamantSeed") {
            return Some(Consumable::AdamantSeed);
        }
        if str_eq(s, "AdamantPill") {
            return Some(Consumable::AdamantPill);
        }
        if str_eq(s, "DemonPowder") {
            return Some(Consumable::DemonPowder);
        }
        if str_eq(s, "HardshellPowder") {
            return Some(Consumable::HardshellPowder);
        }
        if str_eq(s, "Demondrug") {
            return Some(Consumable::Demondrug);
        }
        if str_eq(s, "MegaDemondrug") {
            return Some(Consumable::MegaDemondrug);
        }
        if str_eq(s, "Armorskin") {
            return Some(Consumable::Armorskin);
        }
        if str_eq(s, "MegaArmorskin") {
            return Some(Consumable::MegaArmorskin);
        }
        if str_eq(s, "Cooldrink") {
            return Some(Consumable::Cooldrink);
        }
        if str_eq(s, "Hotdrink") {
            return Some(Consumable::Hotdrink);
        }
        if str_eq(s, "HealthRegen") {
            return Some(Consumable::HealthRegen);
        }
        if str_eq(s, "ColdRes") {
            return Some(Consumable::ColdRes);
        }
        if str_eq(s, "SnowmanHead") {
            return Some(Consumable::SnowmanHead);
        }
        if str_eq(s, "Powercone") {
            return Some(Consumable::Powercone);
        }
        if str_eq(s, "IceRes") {
            return Some(Consumable::IceRes);
        }
        None
    }
}

/// The name of each Debuff variant.
pub open spec fn debuff_name(k: Debuff) -> Seq<char> {
    match k {
        Debuff::Poison => "Poison"@,
        Debuff::Venom => "Venom"@,
        Debuff::Fire => "Fire"@,
        Debuff::Thunder => "Thunder"@,
        Debuff::Water => "Water"@,
        Debuff::Ice => "Ice"@,
        Debuff::Dragon => "Dragon"@,
        Debuff::Bleed => "Bleed"@,
        Debuff::Effluvia => "Effluvia"@,
        Debuff::DefDown => "DefDown"@,
        Debuff::ResDown => "ResDown"@,
        Debuff::Blast => "Blast"@,
        Debuff::BlastScourge => "BlastScourge"@,
    }
}

impl Debuff {
    /// The variant of the given name.
    pub fn from_str(s: &str) -> (r: Option<Self>)
        ensures
            r matches Some(k) ==> debuff_name(k) == s@,
            r is None ==> forall|k: Debuff| debuff_name(k) != s@,
    {
        if str_eq(s, "Poison") {
            return Some(Debuff::Poison);
        }
        if str_eq(s, "Venom") {
            return Some(Debuff::Venom);
        }
        if str_eq(s, "Fire") {
            return Some(Debuff::Fire);
        }
        if str_eq(s, "Thunder") {
            return Some(Debuff::Thunder);
        }
        if str_eq(s, "Water") {
            return Some(Debuff::Water);
        }
        if str_eq(s, "Ice") {
            return Some(Debuff::Ice);
        }
        if str_eq(s, "Dragon") {
            return Some(Debuff::Dragon);
        }
        if str_eq(s, "Bleed") {
            return Some(Debuff::Bleed);
        }
        if str_eq(s, "Effluvia") {
            return Some(Debuff::Effluvia);
        }
        if str_eq(s, "DefDown") {
            return Some(Debuff::DefDown);
        }
        if str_eq(s, "ResDown") {
            return Some(Debuff::ResDown);
        }
        if str_eq(s, "Blast") {
            return Some(Debuff::Blast);
        }
        if str_eq(s, "BlastScourge") {
            return Some(Debuff::BlastScourge);
        }
        None
    }
}

/// The name of each SkillAbnormality variant.
pub open spec fn skill_name(k: SkillAbnormality) -> Seq<char> {
    match k {
        SkillAbnormality::DemonAmmo => "DemonAmmo"@,
        SkillAbnormality::ArmorAmmo => "ArmorAmmo"@,
        SkillAbnormality::Fortify => "Fortify"@,
        SkillAbnormality::ProtectivePolish => "ProtectivePolish"@,
        SkillAbnormality::AffinitySliding => "AffinitySliding"@,
        SkillAbnormality::ElementAcceleration => "ElementAcceleration"@,
        SkillAbnormality::LATENTPOWER => "LATENTPOWER"@,
        SkillAbnormality::ADRENALINE => "ADRENALINE"@,
        SkillAbnormality::CoolCat => "CoolCat"@,
        SkillAbnormality::FROSTCRAFT => "FROSTCRAFT"@,
        SkillAbnormality::OffensiveGuard => "OffensiveGuard"@,
        SkillAbnormality::Coalescence => "Coalescence"@,
        SkillAbnormality::EvasionMantle => "EvasionMantle"@,
        SkillAbnormality::AffinittyBooster => "AffinittyBooster"@,
    }
}

impl SkillAbnormality {
    /// The variant of the given name.
    pub fn from_str(s: &str) -> (r: Option<Self>)
        ensures
            r matches Some(k) ==> skill_name(k) == s@,
            r is None ==> forall|k: SkillAbnormality| skill_name(k) != s@,
    {
        if str_eq(s, "DemonAmmo") {
            return Some(SkillAbnormality::DemonAmmo);
        }
        if str_eq(s, "ArmorAmmo") {
            return Some(SkillAbnormality::ArmorAmmo);
        }
        if str_eq(s, "Fortify") {
            return Some(SkillAbnormality::Fortify);
        }
        if str_eq(s, "ProtectivePolish") {
            return Some(SkillAbnormality::ProtectivePolish);
        }
        if str_eq(s, "AffinitySliding") {
            return Some(SkillAbnormality::AffinitySliding);
        }
        if str_eq(s, "ElementAcceleration") {
            return Some(SkillAbnormality::ElementAcceleration);
        }
        if str_eq(s, "LATENTPOWER") {
            return Some(SkillAbnormality::LATENTPOWER);
        }
        if str_eq(s, "ADRENALINE") {
            return Some(SkillAbnormality::ADRENALINE);
        }
        if str_eq(s, "CoolCat") {
            return Some(SkillAbnormality::CoolCat);
        }
        if str_eq(s, "FROSTCRAFT") {
            return Some(SkillAbnormality::FROSTCRAFT);
        }
        if str_eq(s, "OffensiveGuard") {
            return Some(SkillAbnormality::OffensiveGuard);
        }
        if str_eq(s, "Coalescence") {
            return Some(SkillAbnormality::Coalescence);
        }
        if str_eq(s, "EvasionMantle") {
            return Some(SkillAbnormality::EvasionMantle);
        }
        if str_eq(s, "AffinittyBooster") {
            return Some(SkillAbnormality::AffinittyBooster);
        }
        None
    }
}

/// A buff or debuff of one of the kinds known here, by kind.
#[derive(Debug, Clone, Copy, PartialEq, Eq, Hash, Structural)]
pub enum Abnormality {
    Skill(SkillAbnormality),
    Consumable(Consumable),
    Debuff(Debuff),
}

/// Whether `s` begins with `prefix`, and what follows it.
pub open spec fn after_prefix(s: Seq<char>, prefix: Seq<char>) -> Option<Seq<char>> {
    if prefix.len() <= s.len() && s.subrange(0, prefix.len() as int) == prefix {
        Some(s.subrange(prefix.len() as int, s.len() as int))
    } else {
        None
    }
}

/// Whether `s` names `a`: `Skill::`, `Consumable::` or `Debuff::` (tried in
/// that order) followed by the variant's name.
pub open spec fn names_abnormality(s: Seq<char>, a: Abnormality) -> bool {
    match a {
        Abnormality::Skill(k) => after_prefix(s, "Skill::"@) == Some(skill_name(k)),
        Abnormality::Consumable(k) => after_prefix(s, "Skill::"@) is None && after_prefix(s, "Consumable::"@) == Some(
            consumable_name(k),
        ),
        Abnormality::Debuff(k) => after_prefix(s, "Skill::"@) is None && after_prefix(s, "Consumable::"@) is None
            && after_prefix(s, "Debuff::"@) == Some(debuff_name(k)),
    }
}

/// What follows `prefix` in `s`, if `s` begins with it.
fn strip_prefix<'a>(s: &'a str, prefix: &str) -> (r: Option<&'a str>)
    ensures
        match after_prefix(s@, prefix@) {
            Some(rest) => r matches Some(t) && t@ == rest,
            None => r is None,
        },
{
    let n = s.unicode_len();
    let p = prefix.unicode_len();
    if p > n {
        return None;
    }
    let head = s.substring_char(0, p);
    if !str_eq(head, prefix) {
        return None;
    }
    Some(s.substring_char(p, n))
}

impl Abnormality {
    /// The abnormality that `s` names, as `Kind::Name`; `Err` with
    /// "Invalid Abnormality" otherwise.
    pub fn from_str(s: &str) -> (r: Result<Self, String>)
        ensures
            r matches Ok(a) ==> names_abnormality(s@, a),
            r is Err ==> forall|a: Abnormality| !names_abnormality(s@, a),
            r matches Err(e) ==> e@ == "Invalid Abnormality"@,
    {
        match Self::from_str_inner(s) {
            Some(a) => Ok(a),
            None => Err(String::from_str("Invalid Abnormality")),
        }
    }

    fn from_str_inner(s: &str) -> (r: Option<Self>)
        ensures
            r matches Some(a) ==> names_abnormality(s@, a),
            r is None ==> forall|a: Abnormality| !names_abnormality(s@, a),
    {
        proof {
            reveal_strlit("Skill::");
            reveal_strlit("Consumable::");
            reveal_strlit("Debuff::");
        }
        match strip_prefix(s, "Skill::") {
            Some(rest) => {
                return match SkillAbnormality::from_str(rest) {
                    Some(k) => Some(Abnormality::Skill(k)),
                    None => None,
                };
            },
            None => {},
        }
        match strip_prefix(s, "Consumable::") {
            Some(rest) => {
                return match Consumable::from_str(rest) {
                    Some(k) => Some(Abnormality::Consumable(k)),
                    None => None,
                };
            },
            None => {},
        }
        match strip_prefix(s, "Debuff::") {
            Some(rest) => match Debuff::from_str(rest) {
                Some(k) => Some(Abnormality::Debuff(k)),
                None => None,
            },
            None => None,
        }
    }
}

} // verus!
