//! Weapon kinds and their numbers in the game's data.
use vstd::prelude::*;

verus! {

/// The fourteen weapon kinds, numbered 0 to 13 in declaration order.
#[derive(Debug, Clone, Copy, PartialEq, Eq, Hash, Structural)]
pub enum WeaponType {
    GreatSowrd,
    SwordAndShield,
    DualBlades,
    LongSword,
    Hammer,
    HuntingHorn,
    Lance,
    Gunlance,
    SwitchAxe,
    ChargeBlade,
    InsectGlaive,
    Bow,
    HeavyBowgun,
    LightBowgun,
}

/// The number of a weapon kind.
pub open spec fn weapon_id(w: WeaponType) -> i32 {
    match w {
        WeaponType::GreatSowrd => 0,
        WeaponType::SwordAndShield => 1,
        WeaponType::DualBlades => 2,
        WeaponType::LongSword => 3,
        WeaponType::Hammer => 4,
        WeaponType::HuntingHorn => 5,
        WeaponType::Lance => 6,
        WeaponType::Gunlance => 7,
        WeaponType::SwitchAxe => 8,
        WeaponType::ChargeBlade => 9,
        WeaponType::InsectGlaive => 10,
        WeaponType::Bow => 11,
        WeaponType::HeavyBowgun => 12,
        WeaponType::LightBowgun => 13,
    }
}

impl WeaponType {
    /// The weapon kind numbered `id`, if there is one.
    pub fn from_i32(id: i32) -> (r: Option<Self>)
        ensures
            r matches Some(w) ==> weapon_id(w) == id,
            r is None <==> !(0 <= id <= 13),
    {
        match id {
            0 => Some(WeaponType::GreatSowrd),
            1 => Some(WeaponType::SwordAndShield),
            2 => Some(WeaponType::DualBlades),
            3 => Some(WeaponType::LongSword),
            4 => Some(WeaponType::Hammer),
            5 => Some(WeaponType::HuntingHorn),
            6 => Some(WeaponType::Lance),
            7 => Some(WeaponType::Gunlance),
            8 => Some(WeaponType::SwitchAxe),
            9 => Some(WeaponType::ChargeBlade),
            10 => Some(WeaponType::InsectGlaive),
            11 => Some(WeaponType::Bow),
            12 => Some(WeaponType::HeavyBowgun),
            13 => Some(WeaponType::LightBowgun),
            _ => None,
        }
    }

    /// The number of this weapon kind.
    pub fn as_i32(&self) -> (r: i32)
        ensures
            r == weapon_id(*self),
    {
        match self {
            WeaponType::GreatSowrd => 0,
            WeaponType::SwordAndShield => 1,
            WeaponType::DualBlades => 2,
            WeaponType::LongSword => 3,
            WeaponType::Hammer => 4,
            WeaponType::HuntingHorn => 5,
            WeaponType::Lance => 6,
            WeaponType::Gunlance => 7,
            WeaponType::SwitchAxe => 8,
            WeaponType::ChargeBlade => 9,
            WeaponType::InsectGlaive => 10,
            WeaponType::Bow => 11,
            WeaponType::HeavyBowgun => 12,
            WeaponType::LightBowgun => 13,
        }
    }
}

impl PartialEq<i32> for WeaponType {
    fn eq(&self, other: &i32) -> (r: bool) {
        self.as_i32() == *other
    }
}

impl vstd::std_specs::cmp::PartialEqSpecImpl<i32> for WeaponType {
    open spec fn obeys_eq_spec() -> bool {
        true
    }

    open spec fn eq_spec(&self, other: &i32) -> bool {
        weapon_id(*self) == *other
    }
}

} // verus!
