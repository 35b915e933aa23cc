//! Character statistics, classes and facings shared by the game's client
//! and server.

use vstd::prelude::*;

verus! {

/// The five base statistics of a character.
#[derive(Debug, Clone, Copy, PartialEq, Eq, Structural)]
pub struct Stats {
    pub str_stat: i32,
    pub dex_stat: i32,
    pub int_stat: i32,
    pub wis_stat: i32,
    pub con_stat: i32,
}

/// Sum of the five statistics.
pub open spec fn stats_total(s: Stats) -> int {
    s.str_stat + s.dex_stat + s.int_stat + s.wis_stat + s.con_stat
}

impl Stats {
    pub fn new(str_stat: i32, dex_stat: i32, int_stat: i32, wis_stat: i32, con_stat: i32) -> (r: Stats)
        ensures
            r == (Stats { str_stat, dex_stat, int_stat, wis_stat, con_stat }),
    {
        Stats { str_stat, dex_stat, int_stat, wis_stat, con_stat }
    }

    /// Ten points in every statistic.
    pub fn default_stats() -> (r: Stats)
        ensures
            r == (Stats { str_stat: 10, dex_stat: 10, int_stat: 10, wis_stat: 10, con_stat: 10 }),
    {
        Stats::default()
    }

    /// All stat points together.
    pub fn total(&self) -> (r: i32)
        requires
            i32::MIN <= stats_total(*self) <= i32::MAX,
        ensures
            r == stats_total(*self),
    {
        let a = self.str_stat as i64 + self.dex_stat as i64 + self.int_stat as i64 + self.wis_stat as i64
            + self.con_stat as i64;
        a as i32
    }
}

impl Default for Stats {
    fn default() -> (r: Stats)
        ensures
            r == (Stats { str_stat: 10, dex_stat: 10, int_stat: 10, wis_stat: 10, con_stat: 10 }),
    {
        Stats { str_stat: 10, dex_stat: 10, int_stat: 10, wis_stat: 10, con_stat: 10 }
    }
}

/// Direction a character moves or faces.
#[derive(Debug, Clone, Copy, PartialEq, Eq, Structural)]
pub enum Direction {
    Up,
    Down,
    Left,
    Right,
}

/// The playable classes.
#[derive(Debug, Clone, Copy, PartialEq, Eq, Structural)]
pub enum PlayerClass {
    Warrior,
    Rogue,
    Mage,
    Cleric,
    MartialArtist,
}

/// The statistics a class invests in.
#[derive(Debug, Clone, Copy, PartialEq, Eq, Structural)]
pub enum StatType {
    Strength,
    Dexterity,
    Intelligence,
    Vitality,
    Luck,
}

/// Starting statistics of a class, one value per `StatType`.
#[derive(Debug, Clone, Copy, PartialEq, Eq, Structural)]
pub struct ClassStats {
    pub strength: i32,
    pub dexterity: i32,
    pub intelligence: i32,
    pub vitality: i32,
    pub luck: i32,
}

/// The starting statistics of each class.
pub open spec fn base_stats_of(c: PlayerClass) -> ClassStats {
    match c {
        PlayerClass::Warrior => ClassStats { strength: 10, dexterity: 5, intelligence: 3, vitality: 10, luck: 3 },
        PlayerClass::Rogue => ClassStats { strength: 7, dexterity: 10, intelligence: 3, vitality: 5, luck: 5 },
        PlayerClass::Mage => ClassStats { strength: 3, dexterity: 4, intelligence: 10, vitality: 3, luck: 3 },
        PlayerClass::Cleric => ClassStats { strength: 4, dexterity: 4, intelligence: 7, vitality: 5, luck: 3 },
        PlayerClass::MartialArtist => ClassStats {
            strength: 8,
            dexterity: 8,
            intelligence: 3,
            vitality: 8,
            luck: 3,
        },
    }
}

impl PlayerClass {
    /// The class's display name.
    pub fn name(&self) -> (r: &'static str)
        ensures
            r@ == match *self {
                PlayerClass::Warrior => "전사"@,
                PlayerClass::Rogue => "도적"@,
                PlayerClass::Mage => "마법사"@,
                PlayerClass::Cleric => "성직자"@,
                PlayerClass::MartialArtist => "무도가"@,
            },
    {
        match self {
            PlayerClass::Warrior => "전사",
            PlayerClass::Rogue => "도적",
            PlayerClass::Mage => "마법사",
            PlayerClass::Cleric => "성직자",
            PlayerClass::MartialArtist => "무도가",
        }
    }

    /// A one-line description of the class.
    pub fn description(&self) -> (r: &'static str)
        ensures
            r@ == match *self {
                PlayerClass::Warrior => "강인한 체력과 파괴력을 지닌 전사"@,
                PlayerClass::Rogue => "빠른 몸놀림과 기습에 능한 도적"@,
                PlayerClass::Mage => "강력한 마법으로 적을 섬멸하는 마법사"@,
                PlayerClass::Cleric => "신성한 힘으로 아군을 치유하는 성직자"@,
                PlayerClass::MartialArtist => "극한의 신체 능력을 지닌 무도가"@,
            },
    {
        match self {
            PlayerClass::Warrior => "강인한 체력과 파괴력을 지닌 전사",
            PlayerClass::Rogue => "빠른 몸놀림과 기습에 능한 도적",
            PlayerClass::Mage => "강력한 마법으로 적을 섬멸하는 마법사",
            PlayerClass::Cleric => "신성한 힘으로 아군을 치유하는 성직자",
            PlayerClass::MartialArtist => "극한의 신체 능력을 지닌 무도가",
        }
    }

    /// The class's starting statistics.
    pub fn get_base_stats(&self) -> (r: ClassStats)
        ensures
            r == base_stats_of(*self),
    {
        match self {
            PlayerClass::Warrior => ClassStats { strength: 10, dexterity: 5, intelligence: 3, vitality: 10, luck: 3 },
            PlayerClass::Rogue => ClassStats { strength: 7, dexterity: 10, intelligence: 3, vitality: 5, luck: 5 },
            PlayerClass::Mage => ClassStats { strength: 3, dexterity: 4, intelligence: 10, vitality: 3, luck: 3 },
            PlayerClass::Cleric => ClassStats { strength: 4, dexterity: 4, intelligence: 7, vitality: 5, luck: 3 },
            PlayerClass::MartialArtist => ClassStats {
                strength: 8,
                dexterity: 8,
                intelligence: 3,
                vitality: 8,
                luck: 3,
            },
        }
    }
}

} // verus!
