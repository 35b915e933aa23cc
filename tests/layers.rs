use paper_doll::layer::{
    default_scale, default_true, CharacterAppearance, EquipmentSlot, LayerCache, LayerInfo,
    LayerType,
};

#[test]
fn test_layer_ordering() {
    let layers = LayerType::all_ordered();
    assert_eq!(layers[0], LayerType::Shadow);
    assert_eq!(layers[layers.len() - 1], LayerType::Effect);
}

#[test]
fn test_character_appearance() {
    let mut appearance = CharacterAppearance::new("player1", "male_human");

    appearance.equip_weapon("iron_sword");
    assert!(appearance.get_layer(LayerType::Weapon).is_some());

    appearance.equip_armor("leather_armor");
    assert!(appearance.get_layer(LayerType::Armor).is_some());

    let visible = appearance.visible_layers();
    assert!(visible.len() >= 2);
}

#[test]
fn z_orders_follow_declaration() {
    let all = LayerType::all_ordered();
    for (i, t) in all.iter().enumerate() {
        assert_eq!(t.z_order(), i as i32);
    }
    assert_eq!(LayerType::Weapon.z_order(), 6);
    assert!(LayerType::Body.is_required());
    assert!(!LayerType::Cape.is_required());
}

#[test]
fn new_appearance_has_only_the_body() {
    let appearance = CharacterAppearance::new("p", "female_elf");
    assert_eq!(appearance.hair_style, "default");
    assert_eq!(appearance.hair_color, "#8B4513");
    let visible = appearance.visible_layers();
    assert_eq!(visible.len(), 1);
    assert_eq!(visible[0].layer_type, LayerType::Body);
    assert_eq!(visible[0].manifest_id, "body_female_elf");
    assert_eq!(visible[0].scale_percent, 100);
    assert!(visible[0].tint.is_none());
}

#[test]
fn visible_layers_come_out_in_z_order() {
    let mut appearance = CharacterAppearance::new("p", "male_human");
    appearance.set_layer(LayerInfo::new(LayerType::Effect, "aura"));
    appearance.equip_weapon("axe");
    appearance.set_layer(LayerInfo::new(LayerType::Shadow, "shadow"));
    appearance.set_layer(LayerInfo::new(LayerType::Cape, "red_cape"));
    appearance.equip_armor("plate");
    appearance.set_hair_style("short", "#000000FF");
    let order: Vec<LayerType> = appearance
        .visible_layers()
        .iter()
        .map(|l| l.layer_type)
        .collect();
    assert_eq!(
        order,
        vec![
            LayerType::Shadow,
            LayerType::Body,
            LayerType::Armor,
            LayerType::Hair,
            LayerType::Weapon,
            LayerType::Cape,
            LayerType::Effect
        ]
    );
    let z: Vec<i32> = appearance
        .visible_layers()
        .iter()
        .map(|l| l.layer_type.z_order())
        .collect();
    assert!(z.windows(2).all(|w| w[0] < w[1]));
}

#[test]
fn second_weapon_replaces_first() {
    let mut appearance = CharacterAppearance::new("p", "male_human");
    appearance.equip_weapon("iron_sword");
    appearance.equip_weapon("bow");
    let weapons: Vec<String> = appearance
        .visible_layers()
        .iter()
        .filter(|l| l.layer_type == LayerType::Weapon)
        .map(|l| l.manifest_id.clone())
        .collect();
    assert_eq!(weapons, vec!["weapon_bow".to_string()]);
}

#[test]
fn body_layer_cannot_be_removed() {
    let mut appearance = CharacterAppearance::new("p", "male_human");
    appearance.remove_layer(LayerType::Body);
    assert!(appearance.get_layer(LayerType::Body).is_some());
    appearance.equip_armor("robe");
    appearance.remove_layer(LayerType::Armor);
    assert!(appearance.get_layer(LayerType::Armor).is_none());
    appearance.remove_layer(LayerType::Helmet);
    assert_eq!(appearance.visible_layers().len(), 1);
}

#[test]
fn hidden_layers_are_not_visible() {
    let mut appearance = CharacterAppearance::new("p", "male_human");
    let mut hidden = LayerInfo::new(LayerType::Helmet, "cap");
    hidden.visible = false;
    appearance.set_layer(hidden);
    assert!(appearance.get_layer(LayerType::Helmet).is_some());
    assert_eq!(appearance.visible_layers().len(), 1);
}

#[test]
fn hair_style_sets_tinted_hair_layer() {
    let mut appearance = CharacterAppearance::new("p", "male_human");
    appearance.set_hair_style("ponytail", "#FF0000FF");
    assert_eq!(appearance.hair_style, "ponytail");
    assert_eq!(appearance.hair_color, "#FF0000FF");
    let hair = appearance.get_layer(LayerType::Hair).unwrap();
    assert_eq!(hair.manifest_id, "hair_ponytail");
    assert_eq!(hair.tint.as_deref(), Some("#FF0000FF"));
}

#[test]
fn equip_names_follow_scheme() {
    let mut appearance = CharacterAppearance::new("p", "male_human");
    appearance.equip_weapon("iron_sword");
    appearance.equip_armor("leather_armor");
    assert_eq!(
        appearance.get_layer(LayerType::Weapon).unwrap().manifest_id,
        "weapon_iron_sword"
    );
    assert_eq!(
        appearance.get_layer(LayerType::Armor).unwrap().manifest_id,
        "armor_leather_armor"
    );
}

#[test]
fn layer_info_builders() {
    let info = LayerInfo::new(LayerType::Shield, "kite").with_offset(-3, 4).with_tint("#00FF00FF");
    assert_eq!(info.layer_type, LayerType::Shield);
    assert_eq!(info.manifest_id, "kite");
    assert_eq!((info.offset_x, info.offset_y), (-3, 4));
    assert_eq!(info.tint.as_deref(), Some("#00FF00FF"));
    assert!(info.visible);
    assert_eq!(default_scale(), 100);
    assert!(default_true());
}

#[test]
fn equipment_slots_map_to_layers() {
    assert_eq!(EquipmentSlot::Weapon.to_layer_type(), LayerType::Weapon);
    assert_eq!(EquipmentSlot::Shield.to_layer_type(), LayerType::Shield);
    assert_eq!(EquipmentSlot::Helmet.to_layer_type(), LayerType::Helmet);
    assert_eq!(EquipmentSlot::Armor.to_layer_type(), LayerType::Armor);
    assert_eq!(EquipmentSlot::Pants.to_layer_type(), LayerType::Pants);
    assert_eq!(EquipmentSlot::Cape.to_layer_type(), LayerType::Cape);
}

#[test]
fn layer_cache_by_character_id() {
    let mut cache = LayerCache::new();
    assert!(cache.get_appearance("a").is_none());
    cache.register_appearance(CharacterAppearance::new("a", "male_human"));
    cache.register_appearance(CharacterAppearance::new("b", "female_elf"));
    cache.register_appearance(CharacterAppearance::new("a", "orc"));
    assert_eq!(cache.get_appearance("a").unwrap().body_type, "orc");
    assert_eq!(cache.get_appearance("b").unwrap().body_type, "female_elf");
    cache.get_appearance_mut("b").unwrap().equip_weapon("staff");
    assert!(cache
        .get_appearance("b")
        .unwrap()
        .get_layer(LayerType::Weapon)
        .is_some());
    assert!(cache.get_appearance_mut("c").is_none());
    assert!(LayerCache::default().get_appearance("a").is_none());
}
