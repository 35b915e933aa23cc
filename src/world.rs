//! Static world data: map tiles and the records that describe maps,
//! spawns, NPCs, portals, dungeons and skills.

use vstd::prelude::*;

verus! {

/// One tile of a map layout.
#[derive(Debug, Clone, Copy, PartialEq, Eq, Structural)]
pub enum MapTile {
    Grass,
    Stone,
    Water,
    Wall,
    Door,
    Fountain,
    Tree,
    Building,
}

/// The tile a layout character stands for; unknown characters are grass.
pub open spec fn tile_of(c: char) -> MapTile {
    if c == 'G' {
        MapTile::Grass
    } else if c == 'S' {
        MapTile::Stone
    } else if c == 'W' {
        MapTile::Water
    } else if c == 'X' {
        MapTile::Wall
    } else if c == 'D' {
        MapTile::Door
    } else if c == 'F' {
        MapTile::Fountain
    } else if c == 'T' {
        MapTile::Tree
    } else if c == 'B' {
        MapTile::Building
    } else {
        MapTile::Grass
    }
}

impl MapTile {
    /// Reads one character of a map layout.
    pub fn from_char(c: char) -> (r: MapTile)
        ensures
            r == tile_of(c),
    {
        match c {
            'G' => MapTile::Grass,
            'S' => MapTile::Stone,
            'W' => MapTile::Water,
            'X' => MapTile::Wall,
            'D' => MapTile::Door,
            'F' => MapTile::Fountain,
            'T' => MapTile::Tree,
            'B' => MapTile::Building,
            _ => MapTile::Grass,
        }
    }

    /// Grass, stone and doors can be walked on; nothing else can.
    pub fn is_walkable(&self) -> (r: bool)
        ensures
            r == (*self == MapTile::Grass || *self == MapTile::Stone || *self == MapTile::Door),
    {
        matches!(self, MapTile::Grass | MapTile::Stone | MapTile::Door)
    }
}

/// A map: its ids and texts, size in tiles, level range and rules.
#[derive(Debug, Clone)]
pub struct MapDef {
    pub id: &'static str,
    pub name: &'static str,
    pub name_key: &'static str,
    pub description_key: &'static str,
    pub width: usize,
    pub height: usize,
    pub tile_size: usize,
    pub min_level: i32,
    pub max_level: i32,
    pub pvp_enabled: bool,
    pub is_dungeon: bool,
    pub bgm_path: &'static str,
}

/// Where a monster appears, and how soon it comes back.
#[derive(Debug, Clone)]
pub struct SpawnPoint {
    pub x: i32,
    pub y: i32,
    pub monster_name: &'static str,
    pub respawn_time_ms: u64,
}

/// What talking to an NPC opens.
#[derive(Debug, Clone, Copy, PartialEq, Eq, Structural)]
pub enum NpcType {
    Shop,
    Inn,
    Blacksmith,
    QuestGiver,
    Guide,
}

/// An NPC placed on a map.
#[derive(Debug, Clone)]
pub struct NpcDef {
    pub id: &'static str,
    pub name_key: &'static str,
    pub x: i32,
    pub y: i32,
    pub interaction_type: NpcType,
    pub dialogue_key: &'static str,
}

/// A tile that moves the player to a position on another map.
#[derive(Debug, Clone)]
pub struct PortalDef {
    pub x: i32,
    pub y: i32,
    pub target_map: &'static str,
    pub target_x: i32,
    pub target_y: i32,
}

/// A dungeon in the progression: its map, entry level and how many clears
/// open the next one.
#[derive(Debug, Clone)]
pub struct DungeonDef {
    pub id: i32,
    pub map_id: &'static str,
    pub name_key: &'static str,
    pub level_req: i32,
    pub required_clears_for_next: i32,
}

/// What a skill does to its target.
#[derive(Debug, Clone, Copy, PartialEq, Eq, Structural)]
pub enum SkillEffectType {
    Damage,
    Heal,
    Buff,
    Debuff,
}

/// A skill: its class (none for every class), level, costs and effect.
#[derive(Debug, Clone)]
pub struct SkillDef {
    pub id: i32,
    pub name: &'static str,
    pub name_key: &'static str,
    pub class_id: Option<i32>,
    pub req_level: i32,
    pub mp_cost: i32,
    pub cooldown_ms: i32,
    pub description_key: &'static str,
    pub effect_type: SkillEffectType,
    pub base_value: i32,
    pub icon_path: &'static str,
}

} // verus!
