//! Monsters.
use vstd::prelude::*;

use crate::memory::{field_addr, field_address, read_u32, read_u64, u32_at, u64_at, ProcessMemory};
use crate::resources::mt_types::{MtObject, Resource};
use crate::resources::action::{ActionController, Entity};

verus! {

/// A monster in the world.
#[derive(Debug, Clone, Copy, PartialEq, Eq, Hash, Structural)]
pub struct Monster {
    instance: u64,
}

impl MtObject for Monster {
    closed spec fn spec_instance(&self) -> u64 {
        self.instance
    }

    fn get_instance(&self) -> (r: u64) {
        self.instance
    }

    fn from_instance(ptr: u64) -> (r: Self) {
        Monster { instance: ptr }
    }
}

impl Resource for Monster {
}

impl Entity for Monster {
    fn action_controller(&self) -> (r: Option<ActionController>) {
        let a = field_addr(self.instance, 0x61C8)?;
        Some(ActionController::from_instance(a))
    }
}

impl Monster {
    pub fn new(ptr: u64) -> (r: Self)
        ensures
            r.spec_instance() == ptr,
    {
        Monster { instance: ptr }
    }

    /// The monster's species; `None` when unreadable or of an unknown number.
    pub fn monster_type<M: ProcessMemory>(&self, mem: &M) -> (r: Option<MonsterType>)
        ensures
            match u32_at(mem, field_address(self.spec_instance(), 0x12280)) {
                Some(n) => match r {
                    Some(k) => monster_type_number(k) == n,
                    None => forall|k: MonsterType| monster_type_number(k) != n,
                },
                None => r is None,
            },
    {
        let n = read_u32(mem, field_addr(self.instance, 0x12280))?;
        MonsterType::from_number(n)
    }

    /// The species variant.
    pub fn variant<M: ProcessMemory>(&self, mem: &M) -> (r: Option<u32>)
        ensures
            r == u32_at(mem, field_address(self.spec_instance(), 0x12288)),
    {
        read_u32(mem, field_addr(self.instance, 0x12288))
    }

    /// Address of the monster's AI data.
    pub fn ai_data<M: ProcessMemory>(&self, mem: &M) -> (r: Option<u64>)
        ensures
            r == u64_at(mem, field_address(self.spec_instance(), 0x12278)),
    {
        read_u64(mem, field_addr(self.instance, 0x12278))
    }
}

/// Monster species, by their number in the game data.
#[derive(Debug, Clone, Copy, PartialEq, Eq, Hash, Structural)]
pub enum MonsterType {
    Anjanath,
    Rathalos,
    Aptonoth,
    Jagras,
    ZorahMagdaros,
    Mosswine,
    Gajau,
    GreatJagras,
    KestodonM,
    Rathian,
    PinkRathian,
    AzureRathalos,
    Diablos,
    BlackDiablos,
    Kirin,
    Behemoth,
    KushalaDaora,
    Lunastra,
    Teostra,
    Lavasioth,
    Deviljho,
    Barroth,
    Uragaan,
    Leshen,
    Pukei,
    Nergigante,
    XenoJiiva,
    KuluYaKu,
    TzitziYaKu,
    Jyuratodus,
    TobiKadachi,
    Paolumu,
    Legiana,
    GreatGirros,
    Odogaron,
    Radobaan,
    VaalHazak,
    Dodogama,
    KulveTaroth,
    Bazelgeuse,
    Apceros,
    KelbiM,
    KelbiF,
    Hornetaur,
    Vespoid,
    Mernos,
    KestodonF,
    Raphinos,
    Shamos,
    Barnos,
    Girros,
    AncientLeshen,
    Gastodon,
    Noios,
    Magmacore,
    Magmacore2,
    Gajalaka,
    SmallBarrel,
    LargeBarrel,
    TrainingPole,
    TrainingWagon,
    Tigrex,
    Nargacuga,
    Barioth,
    SavageDeviljho,
    Brachydios,
    Glavenus,
    AcidicGlavenus,
    FulgurAnjanath,
    CoralPukei,
    RuinerNergigante,
    ViperTobi,
    NightshadePaolumu,
    ShriekingLegiana,
    EbonyOdogaron,
    BlackveilVaal,
    SeethingBazelgeuse,
    Beotodus,
    Banbaro,
    Velkhana,
    Namielle,
    Shara,
    Popo,
    Anteka,
    Wulg,
    Cortos,
    Boaboa,
    Alatreon,
    GoldRathian,
    SilverRathalos,
    YianGaruga,
    Rajang,
    FuriousRajang,
    BruteTigrex,
    Zinogre,
    StygianZinogre,
    RagingBrachy,
    SafiJiiva,
    Unavaliable,
    ScarredYianGaruga,
    FrostfangBarioth,
    Fatalis,
}

/// The number of each MonsterType variant.
pub open spec fn monster_type_number(k: MonsterType) -> u32 {
    match k {
        MonsterType::Anjanath => 0,
        MonsterType::Rathalos => 1,
        MonsterType::Aptonoth => 2,
        MonsterType::Jagras => 3,
        MonsterType::ZorahMagdaros => 4,
        MonsterType::Mosswine => 5,
        MonsterType::Gajau => 6,
        MonsterType::GreatJagras => 7,
        MonsterType::KestodonM => 8,
        MonsterType::Rathian => 9,
        MonsterType::PinkRathian => 10,
        MonsterType::AzureRathalos => 11,
        MonsterType::Diablos => 12,
        MonsterType::BlackDiablos => 13,
        MonsterType::Kirin => 14,
        MonsterType::Behemoth => 15,
        MonsterType::KushalaDaora => 16,
        MonsterType::Lunastra => 17,
        MonsterType::Teostra => 18,
        MonsterType::Lavasioth => 19,
        MonsterType::Deviljho => 20,
        MonsterType::Barroth => 21,
        MonsterType::Uragaan => 22,
        MonsterType::Leshen => 23,
        MonsterType::Pukei => 24,
        MonsterType::Nergigante => 25,
        MonsterType::XenoJiiva => 26,
        MonsterType::KuluYaKu => 27,
        MonsterType::TzitziYaKu => 28,
        MonsterType::Jyuratodus => 29,
        MonsterType::TobiKadachi => 30,
        MonsterType::Paolumu => 31,
        MonsterType::Legiana => 32,
        MonsterType::GreatGirros => 33,
        MonsterType::Odogaron => 34,
        MonsterType::Radobaan => 35,
        MonsterType::VaalHazak => 36,
        MonsterType::Dodogama => 37,
        MonsterType::KulveTaroth => 38,
        MonsterType::Bazelgeuse => 39,
        MonsterType::Apceros => 40,
        MonsterType::KelbiM => 41,
        MonsterType::KelbiF => 42,
        MonsterType::Hornetaur => 43,
        MonsterType::Vespoid => 44,
        MonsterType::Mernos => 45,
        MonsterType::KestodonF => 46,
        MonsterType::Raphinos => 47,
        MonsterType::Shamos => 48,
        MonsterType::Barnos => 49,
        MonsterType::Girros => 50,
        MonsterType::AncientLeshen => 51,
        MonsterType::Gastodon => 52,
        MonsterType::Noios => 53,
        MonsterType::Magmacore => 54,
        MonsterType::Magmacore2 => 55,
        MonsterType::Gajalaka => 56,
        MonsterType::SmallBarrel => 57,
        MonsterType::LargeBarrel => 58,
        MonsterType::TrainingPole => 59,
        MonsterType::TrainingWagon => 60,
        MonsterType::Tigrex => 61,
        MonsterType::Nargacuga => 62,
        MonsterType::Barioth => 63,
        MonsterType::SavageDeviljho => 64,
        MonsterType::Brachydios => 65,
        MonsterType::Glavenus => 66,
        MonsterType::AcidicGlavenus => 67,
        MonsterType::FulgurAnjanath => 68,
        MonsterType::CoralPukei => 69,
        MonsterType::RuinerNergigante => 70,
        MonsterType::ViperTobi => 71,
        MonsterType::NightshadePaolumu => 72,
        MonsterType::ShriekingLegiana => 73,
        MonsterType::EbonyOdogaron => 74,
        MonsterType::BlackveilVaal => 75,
        MonsterType::SeethingBazelgeuse => 76,
        MonsterType::Beotodus => 77,
        MonsterType::Banbaro => 78,
        MonsterType::Velkhana => 79,
        MonsterType::Namielle => 80,
        MonsterType::Shara => 81,
        MonsterType::Popo => 82,
        MonsterType::Anteka => 83,
        MonsterType::Wulg => 84,
        MonsterType::Cortos => 85,
        MonsterType::Boaboa => 86,
        MonsterType::Alatreon => 87,
        MonsterType::GoldRathian => 88,
        MonsterType::SilverRathalos => 89,
        MonsterType::YianGaruga => 90,
        MonsterType::Rajang => 91,
        MonsterType::FuriousRajang => 92,
        MonsterType::BruteTigrex => 93,
        MonsterType::Zinogre => 94,
        MonsterType::StygianZinogre => 95,
        MonsterType::RagingBrachy => 96,
        MonsterType::SafiJiiva => 97,
        MonsterType::Unavaliable => 98,
        MonsterType::ScarredYianGaruga => 99,
        MonsterType::FrostfangBarioth => 100,
        MonsterType::Fatalis => 101,
    }
}

impl MonsterType {
    /// The variant numbered `n`, if any.
    pub fn from_number(n: u32) -> (r: Option<Self>)
        ensures
            r matches Some(k) ==> monster_type_number(k) == n,
            r is None ==> forall|k: MonsterType| monster_type_number(k) != n,
    {
        match n {
            0 => Some(MonsterType::Anjanath),
            1 => Some(MonsterType::Rathalos),
            2 => Some(MonsterType::Aptonoth),
            3 => Some(MonsterType::Jagras),
            4 => Some(MonsterType::ZorahMagdaros),
            5 => Some(MonsterType::Mosswine),
            6 => Some(MonsterType::Gajau),
            7 => Some(MonsterType::GreatJagras),
            8 => Some(MonsterType::KestodonM),
            9 => Some(MonsterType::Rathian),
            10 => Some(MonsterType::PinkRathian),
            11 => Some(MonsterType::AzureRathalos),
            12 => Some(MonsterType::Diablos),
            13 => Some(MonsterType::BlackDiablos),
            14 => Some(MonsterType::Kirin),
            15 => Some(MonsterType::Behemoth),
            16 => Some(MonsterType::KushalaDaora),
            17 => Some(MonsterType::Lunastra),
            18 => Some(MonsterType::Teostra),
            19 => Some(MonsterType::Lavasioth),
            20 => Some(MonsterType::Deviljho),
            21 => Some(MonsterType::Barroth),
            22 => Some(MonsterType::Uragaan),
            23 => Some(MonsterType::Leshen),
            24 => Some(MonsterType::Pukei),
            25 => Some(MonsterType::Nergigante),
            26 => Some(MonsterType::XenoJiiva),
            27 => Some(MonsterType::KuluYaKu),
            28 => Some(MonsterType::TzitziYaKu),
            29 => Some(MonsterType::Jyuratodus),
            30 => Some(MonsterType::TobiKadachi),
            31 => Some(MonsterType::Paolumu),
            32 => Some(MonsterType::Legiana),
            33 => Some(MonsterType::GreatGirros),
            34 => Some(MonsterType::Odogaron),
            35 => Some(MonsterType::Radobaan),
            36 => Some(MonsterType::VaalHazak),
            37 => Some(MonsterType::Dodogama),
            38 => Some(MonsterType::KulveTaroth),
            39 => Some(MonsterType::Bazelgeuse),
            40 => Some(MonsterType::Apceros),
            41 => Some(MonsterType::KelbiM),
            42 => Some(MonsterType::KelbiF),
            43 => Some(MonsterType::Hornetaur),
            44 => Some(MonsterType::Vespoid),
            45 => Some(MonsterType::Mernos),
            46 => Some(MonsterType::KestodonF),
            47 => Some(MonsterType::Raphinos),
            48 => Some(MonsterType::Shamos),
            49 => Some(MonsterType::Barnos),
            50 => Some(MonsterType::Girros),
            51 => Some(MonsterType::AncientLeshen),
            52 => Some(MonsterType::Gastodon),
            53 => Some(MonsterType::Noios),
            54 => Some(MonsterType::Magmacore),
            55 => Some(MonsterType::Magmacore2),
            56 => Some(MonsterType::Gajalaka),
            57 => Some(MonsterType::SmallBarrel),
            58 => Some(MonsterType::LargeBarrel),
            59 => Some(MonsterType::TrainingPole),
            60 => Some(MonsterType::TrainingWagon),
            61 => Some(MonsterType::Tigrex),
            62 => Some(MonsterType::Nargacuga),
            63 => Some(MonsterType::Barioth),
            64 => Some(MonsterType::SavageDeviljho),
            65 => Some(MonsterType::Brachydios),
            66 => Some(MonsterType::Glavenus),
            67 => Some(MonsterType::AcidicGlavenus),
            68 => Some(MonsterType::FulgurAnjanath),
            69 => Some(MonsterType::CoralPukei),
            70 => Some(MonsterType::RuinerNergigante),
            71 => Some(MonsterType::ViperTobi),
            72 => Some(MonsterType::NightshadePaolumu),
            73 => Some(MonsterType::ShriekingLegiana),
            74 => Some(MonsterType::EbonyOdogaron),
            75 => Some(MonsterType::BlackveilVaal),
            76 => Some(MonsterType::SeethingBazelgeuse),
            77 => Some(MonsterType::Beotodus),
            78 => Some(MonsterType::Banbaro),
            79 => Some(MonsterType::Velkhana),
            80 => Some(MonsterType::Namielle),
            81 => Some(MonsterType::Shara),
            82 => Some(MonsterType::Popo),
            83 => Some(MonsterType::Anteka),
            84 => Some(MonsterType::Wulg),
            85 => Some(MonsterType::Cortos),
            86 => Some(MonsterType::Boaboa),
            87 => Some(MonsterType::Alatreon),
            88 => Some(MonsterType::GoldRathian),
            89 => Some(MonsterType::SilverRathalos),
            90 => Some(MonsterType::YianGaruga),
            91 => Some(MonsterType::Rajang),
            92 => Some(MonsterType::FuriousRajang),
            93 => Some(MonsterType::BruteTigrex),
            94 => Some(MonsterType::Zinogre),
            95 => Some(MonsterType::StygianZinogre),
            96 => Some(MonsterType::RagingBrachy),
            97 => Some(MonsterType::SafiJiiva),
            98 => Some(MonsterType::Unavaliable),
            99 => Some(MonsterType::ScarredYianGaruga),
            100 => Some(MonsterType::FrostfangBarioth),
            101 => Some(MonsterType::Fatalis),
            _ => None,
        }
    }
}

} // verus!
