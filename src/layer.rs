//! Layer stack of a paper-doll character: one optional sprite per layer
//! type, always handed out in fixed z-order.

use vstd::prelude::*;
use vstd::string::*;

use crate::search::{first_index, first_index_from, lemma_first_index, lemma_first_index_push, lemma_first_index_update};

verus! {

/// A rendering slot of the paper doll. The declaration order is the draw
/// order: `Shadow` is drawn first, `Effect` last.
#[derive(Debug, Clone, Copy, PartialEq, Eq, Structural, Hash, PartialOrd, Ord)]
pub enum LayerType {
    Shadow,
    Body,
    Pants,
    Armor,
    Hair,
    Helmet,
    Weapon,
    Shield,
    Cape,
    Effect,
}

/// Number of layer types; also the number of slots of a layer stack.
pub const LAYER_COUNT: usize = 10;

/// Draw position of a layer type: 0 for `Shadow` up to 9 for `Effect`.
pub open spec fn z_of(t: LayerType) -> int {
    match t {
        LayerType::Shadow => 0,
        LayerType::Body => 1,
        LayerType::Pants => 2,
        LayerType::Armor => 3,
        LayerType::Hair => 4,
        LayerType::Helmet => 5,
        LayerType::Weapon => 6,
        LayerType::Shield => 7,
        LayerType::Cape => 8,
        LayerType::Effect => 9,
    }
}

/// The layer type drawn at position `z` (for `0 <= z < 10`).
pub open spec fn layer_at(z: int) -> LayerType {
    if z <= 0 {
        LayerType::Shadow
    } else if z == 1 {
        LayerType::Body
    } else if z == 2 {
        LayerType::Pants
    } else if z == 3 {
        LayerType::Armor
    } else if z == 4 {
        LayerType::Hair
    } else if z == 5 {
        LayerType::Helmet
    } else if z == 6 {
        LayerType::Weapon
    } else if z == 7 {
        LayerType::Shield
    } else if z == 8 {
        LayerType::Cape
    } else {
        LayerType::Effect
    }
}

/// Every layer type in draw order.
pub open spec fn all_layers_spec() -> Seq<LayerType> {
    seq![
        LayerType::Shadow,
        LayerType::Body,
        LayerType::Pants,
        LayerType::Armor,
        LayerType::Hair,
        LayerType::Helmet,
        LayerType::Weapon,
        LayerType::Shield,
        LayerType::Cape,
        LayerType::Effect,
    ]
}

/// `z_of` and `layer_at` are inverse to each other.
pub proof fn lemma_z_roundtrip(t: LayerType)
    ensures
        0 <= z_of(t) < 10,
        layer_at(z_of(t)) == t,
{
}

impl LayerType {
    /// Draw position of this layer; lower values are drawn first.
    pub fn z_order(&self) -> (r: i32)
        ensures
            r == z_of(*self),
    {
        match self {
            LayerType::Shadow => 0,
            LayerType::Body => 1,
            LayerType::Pants => 2,
            LayerType::Armor => 3,
            LayerType::Hair => 4,
            LayerType::Helmet => 5,
            LayerType::Weapon => 6,
            LayerType::Shield => 7,
            LayerType::Cape => 8,
            LayerType::Effect => 9,
        }
    }

    /// All layer types, in draw order.
    pub fn all_ordered() -> (r: Vec<LayerType>)
        ensures
            r@ == all_layers_spec(),
            forall|i: int| 0 <= i < r@.len() ==> z_of(#[trigger] r@[i]) == i,
    {
        let r = vec![
            LayerType::Shadow,
            LayerType::Body,
            LayerType::Pants,
            LayerType::Armor,
            LayerType::Hair,
            LayerType::Helmet,
            LayerType::Weapon,
            LayerType::Shield,
            LayerType::Cape,
            LayerType::Effect,
        ];
        assert(r@ =~= all_layers_spec());
        r
    }

    /// Only the body layer is mandatory.
    pub fn is_required(&self) -> (r: bool)
        ensures
            r == (*self == LayerType::Body),
    {
        matches!(self, LayerType::Body)
    }
}

/// Scale of a layer drawn at its sprite's own size, in percent.
pub const FULL_SCALE_PERCENT: u32 = 100;

/// One sprite of the paper doll: which slot it fills, which sprite it
/// shows, where relative to the body, how large (in percent), tinted how,
/// and whether it is drawn at all.
#[derive(Debug, Clone)]
pub struct LayerInfo {
    pub layer_type: LayerType,
    pub manifest_id: String,
    pub offset_x: i32,
    pub offset_y: i32,
    pub scale_percent: u32,
    pub tint: Option<String>,
    pub visible: bool,
}

/// The scale a layer has unless another is given.
pub fn default_scale() -> (r: u32)
    ensures
        r == FULL_SCALE_PERCENT,
{
    FULL_SCALE_PERCENT
}

/// Layers are visible unless hidden.
pub fn default_true() -> (r: bool)
    ensures
        r,
{
    true
}

impl LayerInfo {
    /// A visible, untinted layer at the body's origin and full scale.
    pub fn new(layer_type: LayerType, manifest_id: &str) -> (r: LayerInfo)
        ensures
            r.layer_type == layer_type,
            r.manifest_id@ == manifest_id@,
            r.offset_x == 0,
            r.offset_y == 0,
            r.scale_percent == FULL_SCALE_PERCENT,
            r.tint is None,
            r.visible,
    {
        LayerInfo {
            layer_type,
            manifest_id: manifest_id.to_string(),
            offset_x: 0,
            offset_y: 0,
            scale_percent: default_scale(),
            tint: None,
            visible: default_true(),
        }
    }

    /// The same layer shifted to `(x, y)` relative to the body.
    pub fn with_offset(self, x: i32, y: i32) -> (r: LayerInfo)
        ensures
            r == (LayerInfo { offset_x: x, offset_y: y, ..self }),
    {
        LayerInfo { offset_x: x, offset_y: y, ..self }
    }

    /// The same layer tinted with a colour such as `#RRGGBBAA`.
    pub fn with_tint(self, tint: &str) -> (r: LayerInfo)
        ensures
            r.layer_type == self.layer_type,
            r.manifest_id == self.manifest_id,
            r.offset_x == self.offset_x,
            r.offset_y == self.offset_y,
            r.scale_percent == self.scale_percent,
            r.visible == self.visible,
            r.tint is Some,
            r.tint->Some_0@ == tint@,
    {
        LayerInfo { tint: Some(tint.to_string()), ..self }
    }
}

/// The layers of `slots` that are present and visible, in slot order.
pub open spec fn visible_in(slots: Seq<Option<LayerInfo>>) -> Seq<LayerInfo>
    decreases slots.len(),
{
    if slots.len() == 0 {
        Seq::empty()
    } else {
        let rest = visible_in(slots.drop_last());
        match slots.last() {
            Some(l) => if l.visible {
                rest.push(l)
            } else {
                rest
            },
            None => rest,
        }
    }
}

/// The look of one character: its body type and hair, and its layer stack,
/// one slot per layer type in draw order.
#[derive(Debug, Clone)]
pub struct CharacterAppearance {
    pub character_id: String,
    pub body_type: String,
    pub hair_style: String,
    pub hair_color: String,
    pub layers: Vec<Option<LayerInfo>>,
}

impl CharacterAppearance {
    /// One slot per layer type, each holding only a layer of its own type.
    pub open spec fn wf(self) -> bool {
        &&& self.layers@.len() == LAYER_COUNT
        &&& forall|i: int|
            0 <= i < LAYER_COUNT && (#[trigger] self.layers@[i]) is Some ==> z_of(
                self.layers@[i]->Some_0.layer_type,
            ) == i
    }

    /// The layer of type `t`, if one is set.
    pub open spec fn layer(self, t: LayerType) -> Option<LayerInfo> {
        self.layers@[z_of(t)]
    }

    /// The same character with only its layer stack changed.
    pub open spec fn same_but_layers(self, other: CharacterAppearance) -> bool {
        &&& self.character_id == other.character_id
        &&& self.body_type == other.body_type
        &&& self.hair_style == other.hair_style
        &&& self.hair_color == other.hair_color
    }

    /// A character wearing nothing but the body of its type.
    pub fn new(character_id: &str, body_type: &str) -> (r: CharacterAppearance)
        ensures
            r.wf(),
            r.character_id@ == character_id@,
            r.body_type@ == body_type@,
            r.hair_style@ == "default"@,
            r.hair_color@ == "#8B4513"@,
            r.layer(LayerType::Body) is Some,
            r.layer(LayerType::Body)->Some_0.manifest_id@ == "body_"@ + body_type@,
            r.layer(LayerType::Body)->Some_0.offset_x == 0,
            r.layer(LayerType::Body)->Some_0.offset_y == 0,
            r.layer(LayerType::Body)->Some_0.scale_percent == FULL_SCALE_PERCENT,
            r.layer(LayerType::Body)->Some_0.tint is None,
            r.layer(LayerType::Body)->Some_0.visible,
            forall|t: LayerType| t != LayerType::Body ==> (#[trigger] r.layer(t)) is None,
    {
        let body_id = String::from_str("body_").concat(body_type);
        let body_layer = LayerInfo::new(LayerType::Body, body_id.as_str());
        let mut layers: Vec<Option<LayerInfo>> = Vec::new();
        let mut i: usize = 0;
        while i < LAYER_COUNT
            invariant
                i <= LAYER_COUNT,
                layers@.len() == i,
                forall|j: int| 0 <= j < i ==> (#[trigger] layers@[j]) is None,
            decreases LAYER_COUNT - i,
        {
            layers.push(None);
            i += 1;
        }
        layers.set(1, Some(body_layer));
        let r = CharacterAppearance {
            character_id: character_id.to_string(),
            body_type: body_type.to_string(),
            hair_style: String::from_str("default"),
            hair_color: String::from_str("#8B4513"),
            layers,
        };
        assert forall|t: LayerType| t != LayerType::Body implies (#[trigger] r.layer(t)) is None by {
            lemma_z_roundtrip(t);
        }
        r
    }

    /// Puts a layer into the slot of its type, replacing what was there.
    pub fn set_layer(&mut self, layer: LayerInfo)
        requires
            old(self).wf(),
        ensures
            final(self).wf(),
            final(self).same_but_layers(*old(self)),
            forall|t: LayerType| #[trigger]
                final(self).layer(t) == if t == layer.layer_type {
                    Some(layer)
                } else {
                    old(self).layer(t)
                },
    {
        let ghost t0 = layer.layer_type;
        let z = layer.layer_type.z_order() as usize;
        self.layers.set(z, Some(layer));
        assert forall|t: LayerType| #[trigger]
            self.layer(t) == if t == t0 {
                Some(layer)
            } else {
                old(self).layer(t)
            } by {
            lemma_z_roundtrip(t);
            lemma_z_roundtrip(t0);
        }
    }

    /// Empties the slot of a layer type; the body layer is never removed.
    pub fn remove_layer(&mut self, layer_type: LayerType)
        requires
            old(self).wf(),
        ensures
            final(self).wf(),
            layer_type == LayerType::Body ==> *final(self) == *old(self),
            layer_type != LayerType::Body ==> {
                &&& final(self).same_but_layers(*old(self))
                &&& forall|t: LayerType| #[trigger]
                    final(self).layer(t) == if t == layer_type {
                        None
                    } else {
                        old(self).layer(t)
                    }
            },
    {
        if !layer_type.is_required() {
            let z = layer_type.z_order() as usize;
            self.layers.set(z, None);
            assert forall|t: LayerType| #[trigger]
                self.layer(t) == if t == layer_type {
                    None
                } else {
                    old(self).layer(t)
                } by {
                lemma_z_roundtrip(t);
                lemma_z_roundtrip(layer_type);
            }
        }
    }

    /// The layer of a type, if one is set.
    pub fn get_layer(&self, layer_type: LayerType) -> (r: Option<&LayerInfo>)
        requires
            self.wf(),
        ensures
            match r {
                Some(l) => self.layer(layer_type) == Some(*l),
                None => self.layer(layer_type) is None,
            },
    {
        let z = layer_type.z_order() as usize;
        match &self.layers[z] {
            Some(l) => Some(l),
            None => None,
        }
    }

    /// The visible layers, in ascending z-order.
    pub fn visible_layers(&self) -> (r: Vec<&LayerInfo>)
        requires
            self.wf(),
        ensures
            r@.len() == visible_in(self.layers@).len(),
            forall|i: int| 0 <= i < r@.len() ==> *(#[trigger] r@[i]) == visible_in(self.layers@)[i],
            forall|i: int, j: int|
                0 <= i < j < r@.len() ==> z_of((#[trigger] r@[i]).layer_type) < z_of(
                    (#[trigger] r@[j]).layer_type,
                ),
    {
        let mut r: Vec<&LayerInfo> = Vec::new();
        let mut i: usize = 0;
        while i < self.layers.len()
            invariant
                self.wf(),
                i <= self.layers@.len(),
                r@.len() == visible_in(self.layers@.subrange(0, i as int)).len(),
                forall|k: int| 0 <= k < r@.len() ==> *(#[trigger] r@[k]) == visible_in(
                    self.layers@.subrange(0, i as int),
                )[k],
                forall|k: int| 0 <= k < r@.len() ==> z_of((#[trigger] r@[k]).layer_type) < i,
                forall|k: int, j: int|
                    0 <= k < j < r@.len() ==> z_of((#[trigger] r@[k]).layer_type) < z_of(
                        (#[trigger] r@[j]).layer_type,
                    ),
            decreases self.layers@.len() - i,
        {
            let ghost prefix = self.layers@.subrange(0, i as int);
            let ghost next = self.layers@.subrange(0, i as int + 1);
            assert(next.drop_last() =~= prefix);
            assert(next.last() == self.layers@[i as int]);
            match &self.layers[i] {
                Some(l) => {
                    if l.visible {
                        r.push(l);
                    }
                },
                None => {},
            }
            i += 1;
        }
        assert(self.layers@.subrange(0, self.layers@.len() as int) =~= self.layers@);
        r
    }

    /// Changes the hairstyle and colour and shows the matching hair layer.
    pub fn set_hair_style(&mut self, style: &str, color: &str)
        requires
            old(self).wf(),
        ensures
            final(self).wf(),
            final(self).character_id == old(self).character_id,
            final(self).body_type == old(self).body_type,
            final(self).hair_style@ == style@,
            final(self).hair_color@ == color@,
            final(self).layer(LayerType::Hair) is Some,
            final(self).layer(LayerType::Hair)->Some_0.manifest_id@ == "hair_"@ + style@,
            final(self).layer(LayerType::Hair)->Some_0.offset_x == 0,
            final(self).layer(LayerType::Hair)->Some_0.offset_y == 0,
            final(self).layer(LayerType::Hair)->Some_0.scale_percent == FULL_SCALE_PERCENT,
            final(self).layer(LayerType::Hair)->Some_0.tint is Some,
            final(self).layer(LayerType::Hair)->Some_0.tint->Some_0@ == color@,
            final(self).layer(LayerType::Hair)->Some_0.visible,
            forall|t: LayerType|
                t != LayerType::Hair ==> #[trigger] final(self).layer(t) == old(self).layer(t),
    {
        self.hair_style = style.to_string();
        self.hair_color = color.to_string();
        let hair_id = String::from_str("hair_").concat(style);
        let hair_layer = LayerInfo::new(LayerType::Hair, hair_id.as_str()).with_tint(color);
        self.set_layer(hair_layer);
    }

    /// Shows a weapon in the weapon slot.
    pub fn equip_weapon(&mut self, weapon_id: &str)
        requires
            old(self).wf(),
        ensures
            final(self).wf(),
            final(self).same_but_layers(*old(self)),
            final(self).layer(LayerType::Weapon) is Some,
            final(self).layer(LayerType::Weapon)->Some_0.manifest_id@ == "weapon_"@ + weapon_id@,
            final(self).layer(LayerType::Weapon)->Some_0.offset_x == 0,
            final(self).layer(LayerType::Weapon)->Some_0.offset_y == 0,
            final(self).layer(LayerType::Weapon)->Some_0.scale_percent == FULL_SCALE_PERCENT,
            final(self).layer(LayerType::Weapon)->Some_0.tint is None,
            final(self).layer(LayerType::Weapon)->Some_0.visible,
            forall|t: LayerType|
                t != LayerType::Weapon ==> #[trigger] final(self).layer(t) == old(self).layer(t),
    {
        let weapon_id = String::from_str("weapon_").concat(weapon_id);
        self.set_layer(LayerInfo::new(LayerType::Weapon, weapon_id.as_str()));
    }

    /// Shows armour in the armour slot.
    pub fn equip_armor(&mut self, armor_id: &str)
        requires
            old(self).wf(),
        ensures
            final(self).wf(),
            final(self).same_but_layers(*old(self)),
            final(self).layer(LayerType::Armor) is Some,
            final(self).layer(LayerType::Armor)->Some_0.manifest_id@ == "armor_"@ + armor_id@,
            final(self).layer(LayerType::Armor)->Some_0.offset_x == 0,
            final(self).layer(LayerType::Armor)->Some_0.offset_y == 0,
            final(self).layer(LayerType::Armor)->Some_0.scale_percent == FULL_SCALE_PERCENT,
            final(self).layer(LayerType::Armor)->Some_0.tint is None,
            final(self).layer(LayerType::Armor)->Some_0.visible,
            forall|t: LayerType|
                t != LayerType::Armor ==> #[trigger] final(self).layer(t) == old(self).layer(t),
    {
        let armor_id = String::from_str("armor_").concat(armor_id);
        self.set_layer(LayerInfo::new(LayerType::Armor, armor_id.as_str()));
    }
}

/// An equipment slot of the inventory.
#[derive(Debug, Clone, Copy, PartialEq, Eq, Structural, Hash)]
pub enum EquipmentSlot {
    Weapon,
    Shield,
    Helmet,
    Armor,
    Pants,
    Cape,
}

impl EquipmentSlot {
    /// The layer an item in this slot is drawn on.
    pub fn to_layer_type(&self) -> (r: LayerType)
        ensures
            r == match *self {
                EquipmentSlot::Weapon => LayerType::Weapon,
                EquipmentSlot::Shield => LayerType::Shield,
                EquipmentSlot::Helmet => LayerType::Helmet,
                EquipmentSlot::Armor => LayerType::Armor,
                EquipmentSlot::Pants => LayerType::Pants,
                EquipmentSlot::Cape => LayerType::Cape,
            },
    {
        match self {
            EquipmentSlot::Weapon => LayerType::Weapon,
            EquipmentSlot::Shield => LayerType::Shield,
            EquipmentSlot::Helmet => LayerType::Helmet,
            EquipmentSlot::Armor => LayerType::Armor,
            EquipmentSlot::Pants => LayerType::Pants,
            EquipmentSlot::Cape => LayerType::Cape,
        }
    }
}

/// The layers visible in a well-formed stack come out strictly ordered by
/// z-order, so no two share a layer type: setting a layer of a type that is
/// already present replaces it rather than adding a second one.
pub proof fn lemma_visible_strictly_ordered(a: CharacterAppearance)
    requires
        a.wf(),
    ensures
        forall|i: int, j: int|
            0 <= i < j < visible_in(a.layers@).len() ==> z_of(
                (#[trigger] visible_in(a.layers@)[i]).layer_type,
            ) < z_of((#[trigger] visible_in(a.layers@)[j]).layer_type),
        forall|i: int, j: int|
            0 <= i < j < visible_in(a.layers@).len() ==> (#[trigger] visible_in(a.layers@)[i]).layer_type
                != (#[trigger] visible_in(a.layers@)[j]).layer_type,
{
    lemma_visible_prefix_ordered(a.layers@, a.layers@.len() as int);
    assert(a.layers@.subrange(0, a.layers@.len() as int) =~= a.layers@);
}

proof fn lemma_visible_prefix_ordered(slots: Seq<Option<LayerInfo>>, n: int)
    requires
        0 <= n <= slots.len(),
        forall|i: int|
            0 <= i < slots.len() && (#[trigger] slots[i]) is Some ==> z_of(slots[i]->Some_0.layer_type)
                == i,
    ensures
        ({
            let v = visible_in(slots.subrange(0, n));
            &&& forall|k: int| 0 <= k < v.len() ==> z_of((#[trigger] v[k]).layer_type) < n
            &&& forall|i: int, j: int|
                0 <= i < j < v.len() ==> z_of((#[trigger] v[i]).layer_type) < z_of(
                    (#[trigger] v[j]).layer_type,
                )
        }),
    decreases n,
{
    if n > 0 {
        lemma_visible_prefix_ordered(slots, n - 1);
        let next = slots.subrange(0, n);
        assert(next.drop_last() =~= slots.subrange(0, n - 1));
        assert(next.last() == slots[n - 1]);
    }
}

/// One cached appearance, under the character id it was registered with.
#[derive(Debug)]
pub struct CacheEntry {
    pub id: String,
    pub appearance: CharacterAppearance,
}

/// Selects the entries registered under one character id.
pub open spec fn entry_key(id: Seq<char>) -> spec_fn(CacheEntry) -> bool {
    |e: CacheEntry| e.id@ == id
}

/// The appearance of the first entry registered under `id`.
pub open spec fn appearance_in(entries: Seq<CacheEntry>, id: Seq<char>) -> Option<CharacterAppearance> {
    let k = first_index(entries, entry_key(id));
    if 0 <= k < entries.len() {
        Some(entries[k].appearance)
    } else {
        None
    }
}

/// Changing the appearance of the first entry under `id` changes what `id`
/// looks up and nothing else.
proof fn lemma_cache_replace(entries: Seq<CacheEntry>, k: int, id: Seq<char>)
    requires
        k == first_index(entries, entry_key(id)),
        0 <= k < entries.len(),
    ensures
        forall|a: CharacterAppearance, other: Seq<char>| #[trigger]
            appearance_in(entries.update(k, CacheEntry { id: entries[k].id, appearance: a }), other)
                == if other == id {
                Some(a)
            } else {
                appearance_in(entries, other)
            },
{
    lemma_first_index(entries, entry_key(id));
    assert forall|a: CharacterAppearance, other: Seq<char>| #[trigger]
        appearance_in(entries.update(k, CacheEntry { id: entries[k].id, appearance: a }), other)
            == if other == id {
            Some(a)
        } else {
            appearance_in(entries, other)
        } by {
        let e = CacheEntry { id: entries[k].id, appearance: a };
        let p = entry_key(other);
        lemma_first_index(entries, p);
        lemma_first_index_update(entries, p, k, e);
    }
}

/// The appearances of the characters on screen, by character id.
#[derive(Debug)]
pub struct LayerCache {
    entries: Vec<CacheEntry>,
}

impl LayerCache {
    /// The appearance registered under `id`; when several are, the first.
    pub closed spec fn appearance(self, id: Seq<char>) -> Option<CharacterAppearance> {
        appearance_in(self.entries@, id)
    }

    /// An empty cache.
    pub fn new() -> (r: LayerCache)
        ensures
            forall|id: Seq<char>| #[trigger] r.appearance(id) is None,
    {
        LayerCache { entries: Vec::new() }
    }

    fn find(&self, id: &String) -> (r: Option<usize>)
        ensures
            match r {
                Some(k) => k == first_index(self.entries@, entry_key(id@)) && k < self.entries@.len(),
                None => first_index(self.entries@, entry_key(id@)) == -1,
            },
    {
        let ghost p = entry_key(id@);
        let mut i: usize = 0;
        while i < self.entries.len()
            invariant
                i <= self.entries@.len(),
                p == entry_key(id@),
                first_index(self.entries@, p) == first_index_from(self.entries@, p, i as int),
            decreases self.entries@.len() - i,
        {
            let hit = self.entries[i].id == *id;
            assert(hit == p(self.entries@[i as int]));
            if hit {
                return Some(i);
            }
            i += 1;
        }
        None
    }

    /// Registers an appearance under its character id, replacing the one
    /// registered there before.
    pub fn register_appearance(&mut self, appearance: CharacterAppearance)
        ensures
            forall|id: Seq<char>| #[trigger]
                final(self).appearance(id) == if id == appearance.character_id@ {
                    Some(appearance)
                } else {
                    old(self).appearance(id)
                },
    {
        let ghost old_entries = self.entries@;
        let ghost a = appearance;
        let id = appearance.character_id.clone();
        let entry = CacheEntry { id, appearance };
        let ghost e = entry;
        proof {
            lemma_first_index(old_entries, entry_key(a.character_id@));
        }
        match self.find(&entry.id) {
            Some(k) => {
                self.entries.set(k, entry);
                assert forall|id: Seq<char>| #[trigger]
                    self.appearance(id) == if id == a.character_id@ {
                        Some(a)
                    } else {
                        old(self).appearance(id)
                    } by {
                    let p = entry_key(id);
                    lemma_first_index(old_entries, p);
                    lemma_first_index_update(old_entries, p, k as int, e);
                }
            },
            None => {
                self.entries.push(entry);
                assert forall|id: Seq<char>| #[trigger]
                    self.appearance(id) == if id == a.character_id@ {
                        Some(a)
                    } else {
                        old(self).appearance(id)
                    } by {
                    let p = entry_key(id);
                    lemma_first_index(old_entries, p);
                    lemma_first_index_push(old_entries, p, e);
                }
            },
        }
    }

    /// The appearance registered under a character id.
    pub fn get_appearance(&self, character_id: &str) -> (r: Option<&CharacterAppearance>)
        ensures
            match r {
                Some(a) => self.appearance(character_id@) == Some(*a),
                None => self.appearance(character_id@) is None,
            },
    {
        let key = character_id.to_string();
        proof {
            lemma_first_index(self.entries@, entry_key(character_id@));
        }
        match self.find(&key) {
            Some(k) => Some(&self.entries[k].appearance),
            None => None,
        }
    }

    /// The appearance registered under a character id, to be changed in
    /// place; the entries under other ids stay as they are.
    pub fn get_appearance_mut(&mut self, character_id: &str) -> (r: Option<&mut CharacterAppearance>)
        ensures
            match r {
                Some(a) => {
                    &&& old(self).appearance(character_id@) == Some(*a)
                    &&& forall|id: Seq<char>| #[trigger]
                        final(self).appearance(id) == if id == character_id@ {
                            Some(*final(a))
                        } else {
                            old(self).appearance(id)
                        }
                },
                None => {
                    &&& old(self).appearance(character_id@) is None
                    &&& *final(self) == *old(self)
                },
            },
    {
        let key = character_id.to_string();
        let ghost old_entries = self.entries@;
        proof {
            lemma_first_index(old_entries, entry_key(character_id@));
        }
        match self.find(&key) {
            Some(k) => {
                proof {
                    lemma_cache_replace(old_entries, k as int, character_id@);
                }
                Some(&mut self.entries[k].appearance)
            },
            None => None,
        }
    }
}

impl Default for LayerCache {
    fn default() -> (r: LayerCache)
        ensures
            forall|id: Seq<char>| #[trigger] r.appearance(id) is None,
    {
        LayerCache::new()
    }
}

} // verus!
