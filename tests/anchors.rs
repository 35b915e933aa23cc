use paper_doll::anchor::{
    AnchorType, AnimationAnchors, CharacterAnchors, EquipmentRenderer, FrameAnchors, Point2D,
};
use paper_doll::animation::{AnimDirection, AnimState};

#[test]
fn test_anchor_mirroring() {
    let frame = FrameAnchors::new()
        .with_anchor(AnchorType::RightHand, 40, 30)
        .with_anchor(AnchorType::LeftHand, 8, 30);

    let mirrored = frame.mirrored(48);

    let right = mirrored.get(AnchorType::RightHand).unwrap();
    let left = mirrored.get(AnchorType::LeftHand).unwrap();

    assert_eq!(right.x, 40);
    assert_eq!(left.x, 8);
}

#[test]
fn test_default_character_anchors() {
    let anchors = CharacterAnchors::default_character("warrior_male");

    let walk_right = anchors.get_anchors(AnimState::Walk, AnimDirection::Right, 0);
    assert!(walk_right.is_some());

    let walk_left = anchors.get_anchors(AnimState::Walk, AnimDirection::Left, 0);
    assert!(walk_left.is_some());
}

#[test]
fn test_attack_rotation() {
    let anchors = CharacterAnchors::default_character("test");

    let attack_frame_0 = anchors
        .get_anchors(AnimState::Attack, AnimDirection::Right, 0)
        .unwrap();

    assert!(attack_frame_0.rotation.abs() > 0);
}

#[test]
fn mirroring_twice_restores_every_anchor() {
    let mut frame = FrameAnchors::new()
        .with_anchor(AnchorType::Head, 24, 8)
        .with_anchor(AnchorType::RightHand, 44, 34)
        .with_anchor(AnchorType::LeftHand, 10, 36)
        .with_anchor(AnchorType::Feet, -5, 62);
    frame.rotation = 45;
    frame.z_offset = 3;
    let once = frame.mirrored(48);
    assert_ne!(once, frame);
    assert_eq!(once.rotation, -45);
    assert_eq!(once.z_offset, 3);
    assert_eq!(once.get(AnchorType::Feet), Some(Point2D::new(53, 62)));
    assert_eq!(once.get(AnchorType::Body), None);
    let twice = once.mirrored(48);
    assert_eq!(twice, frame);
}

#[test]
fn mirroring_swaps_hands() {
    let frame = FrameAnchors::new()
        .with_anchor(AnchorType::RightHand, 40, 30)
        .with_anchor(AnchorType::LeftHand, 8, 31);
    let m = frame.mirrored(48);
    assert_eq!(m.get(AnchorType::RightHand), Some(Point2D::new(48 - 8, 31)));
    assert_eq!(m.get(AnchorType::LeftHand), Some(Point2D::new(48 - 40, 30)));
}

#[test]
fn point_mirror_reflects_x_only() {
    let p = Point2D::new(10, 20);
    assert_eq!(p.mirror(48), Point2D::new(38, 20));
    assert_eq!(p.mirror(0), Point2D::new(-10, 20));
}

#[test]
fn mirrorable_rejects_unrepresentable_frames() {
    let far = FrameAnchors::new().with_anchor(AnchorType::Head, -2_147_483_600, 0);
    assert!(!far.mirrorable(48));
    let mut tilted = FrameAnchors::new();
    tilted.rotation = i32::MIN;
    assert!(!tilted.mirrorable(48));
    assert!(FrameAnchors::new().with_anchor(AnchorType::Head, 1, 1).mirrorable(48));
}

#[test]
fn anchor_types_are_all_listed() {
    let all = AnchorType::all();
    assert_eq!(all.len(), 7);
    assert_eq!(all[0], AnchorType::Head);
    assert_eq!(all[6], AnchorType::EffectCenter);
}

#[test]
fn animation_anchors_index_frames() {
    let mut anim = AnimationAnchors::new(AnimState::Walk, AnimDirection::Down, 2);
    assert_eq!(anim.frames.len(), 2);
    anim.frames[1] = FrameAnchors::new().with_anchor(AnchorType::Back, 3, 4);
    assert_eq!(anim.get_anchor(1, AnchorType::Back), Some(Point2D::new(3, 4)));
    assert_eq!(anim.get_anchor(0, AnchorType::Back), None);
    assert!(anim.get_frame(2).is_none());
    assert_eq!(anim.get_anchor(2, AnchorType::Back), None);
}

#[test]
fn left_lookup_falls_back_to_mirrored_right() {
    let mut table = CharacterAnchors::new("archer", 48, 64);
    let mut anim = AnimationAnchors::new(AnimState::Walk, AnimDirection::Right, 1);
    let mut frame = FrameAnchors::new()
        .with_anchor(AnchorType::RightHand, 40, 30)
        .with_anchor(AnchorType::LeftHand, 8, 30);
    frame.rotation = 10;
    anim.frames[0] = frame;
    table.add_animation(anim);

    let left = table
        .get_anchors(AnimState::Walk, AnimDirection::Left, 0)
        .unwrap();
    assert_eq!(left.get(AnchorType::RightHand), Some(Point2D::new(40, 30)));
    assert_eq!(left.get(AnchorType::LeftHand), Some(Point2D::new(8, 30)));
    assert_eq!(left.rotation, -10);

    assert!(table.get_anchors(AnimState::Idle, AnimDirection::Left, 0).is_none());
    assert!(table.get_anchors(AnimState::Walk, AnimDirection::Up, 0).is_none());
    assert!(table.get_anchors(AnimState::Walk, AnimDirection::Left, 1).is_none());
}

#[test]
fn right_lookup_falls_back_to_mirrored_left() {
    let mut table = CharacterAnchors::new("lefty", 32, 32);
    let mut anim = AnimationAnchors::new(AnimState::Idle, AnimDirection::Left, 1);
    anim.frames[0] = FrameAnchors::new().with_anchor(AnchorType::Body, 5, 6);
    table.add_animation(anim);
    let right = table
        .get_anchors(AnimState::Idle, AnimDirection::Right, 0)
        .unwrap();
    assert_eq!(right.get(AnchorType::Body), Some(Point2D::new(27, 6)));
}

#[test]
fn unmirrorable_fallback_yields_none() {
    let mut table = CharacterAnchors::new("far", 48, 64);
    let mut anim = AnimationAnchors::new(AnimState::Walk, AnimDirection::Right, 1);
    anim.frames[0] = FrameAnchors::new().with_anchor(AnchorType::Head, -2_147_483_600, 0);
    table.add_animation(anim);
    assert!(table.get_anchors(AnimState::Walk, AnimDirection::Right, 0).is_some());
    assert!(table.get_anchors(AnimState::Walk, AnimDirection::Left, 0).is_none());
}

#[test]
fn add_animation_replaces_same_state_and_facing() {
    let mut table = CharacterAnchors::new("knight", 48, 64);
    table.add_animation(AnimationAnchors::new(AnimState::Hit, AnimDirection::Down, 2));
    table.add_animation(AnimationAnchors::new(AnimState::Hit, AnimDirection::Down, 5));
    assert_eq!(table.animations.len(), 1);
    assert!(table.get_anchors(AnimState::Hit, AnimDirection::Down, 4).is_some());
    assert!(table.get_anchors(AnimState::Hit, AnimDirection::Down, 5).is_none());
}

#[test]
fn warrior_attack_frame_two_scenario() {
    let anchors = CharacterAnchors::default_character("warrior_male");
    assert_eq!(anchors.frame_width, 48);
    assert_eq!(anchors.frame_height, 64);

    let right = anchors
        .get_anchors(AnimState::Attack, AnimDirection::Right, 2)
        .unwrap();
    assert_eq!(right.rotation, 45);
    assert_eq!(right.get(AnchorType::RightHand), Some(Point2D::new(44, 34)));

    let left = anchors
        .get_anchors(AnimState::Attack, AnimDirection::Left, 2)
        .unwrap();
    assert_eq!(left.rotation, -45);
    assert_eq!(left.get(AnchorType::LeftHand), Some(Point2D::new(4, 34)));
    assert_eq!(left.get(AnchorType::RightHand), Some(Point2D::new(38, 36)));
}

#[test]
fn default_table_attack_curve_and_rest_pose() {
    let anchors = CharacterAnchors::default_character("hero");
    let rotations: Vec<i32> = (0..4)
        .map(|i| {
            anchors
                .get_anchors(AnimState::Attack, AnimDirection::Down, i)
                .unwrap()
                .rotation
        })
        .collect();
    assert_eq!(rotations, vec![-30, 0, 45, 30]);
    let idle = anchors
        .get_anchors(AnimState::Idle, AnimDirection::Up, 3)
        .unwrap();
    assert_eq!(idle.rotation, 0);
    assert_eq!(idle.get(AnchorType::Head), Some(Point2D::new(24, 8)));
    assert_eq!(idle.get(AnchorType::Feet), Some(Point2D::new(24, 62)));
    assert_eq!(idle.get(AnchorType::RightHand), Some(Point2D::new(38, 36)));
    assert!(anchors
        .get_anchors(AnimState::Die, AnimDirection::Right, 4)
        .is_none());
    assert_eq!(anchors.animations.len(), 15);
}

#[test]
fn equipment_position_is_bottom_centered() {
    let mut renderer = EquipmentRenderer::new();
    renderer.register_character(CharacterAnchors::default_character("warrior_male"));

    let info = renderer
        .calculate_equipment_position(
            "warrior_male",
            Point2D::new(100, 200),
            AnimState::Attack,
            AnimDirection::Right,
            2,
            AnchorType::RightHand,
        )
        .unwrap();
    assert_eq!(info.position, Point2D::new(120, 170));
    assert_eq!(info.rotation, 45);
    assert_eq!(info.z_order, 0);
    assert!(!info.flip_x);
    assert!(info.sprite_path.is_empty());

    let left = renderer
        .calculate_equipment_position(
            "warrior_male",
            Point2D::new(100, 200),
            AnimState::Attack,
            AnimDirection::Left,
            2,
            AnchorType::RightHand,
        )
        .unwrap();
    assert_eq!(left.position, Point2D::new(114, 172));
    assert_eq!(left.rotation, -45);
    assert!(left.flip_x);
}

#[test]
fn equipment_position_missing_data_yields_none() {
    let mut renderer = EquipmentRenderer::default();
    renderer.register_character(CharacterAnchors::new("bare", 48, 64));
    renderer.register_character(CharacterAnchors::default_character("warrior_male"));
    let pos = Point2D::new(0, 0);
    assert!(renderer
        .calculate_equipment_position("ghost", pos, AnimState::Idle, AnimDirection::Down, 0, AnchorType::Head)
        .is_none());
    assert!(renderer
        .calculate_equipment_position("bare", pos, AnimState::Idle, AnimDirection::Down, 0, AnchorType::Head)
        .is_none());
    assert!(renderer
        .calculate_equipment_position("warrior_male", pos, AnimState::Idle, AnimDirection::Down, 9, AnchorType::Head)
        .is_none());
    let far = Point2D::new(i32::MAX, 0);
    assert!(renderer
        .calculate_equipment_position("warrior_male", far, AnimState::Idle, AnimDirection::Down, 0, AnchorType::RightHand)
        .is_none());
    let edge = renderer
        .calculate_equipment_position("warrior_male", far, AnimState::Idle, AnimDirection::Down, 0, AnchorType::Head)
        .unwrap();
    assert_eq!(edge.position.x, i32::MAX);
}

#[test]
fn equipment_position_missing_anchor_yields_none() {
    let mut table = CharacterAnchors::new("slime", 32, 32);
    let mut anim = AnimationAnchors::new(AnimState::Idle, AnimDirection::Down, 1);
    anim.frames[0] = FrameAnchors::new().with_anchor(AnchorType::Feet, 16, 30);
    table.add_animation(anim);
    let mut renderer = EquipmentRenderer::new();
    renderer.register_character(table);
    let pos = Point2D::new(50, 50);
    assert!(renderer
        .calculate_equipment_position("slime", pos, AnimState::Idle, AnimDirection::Down, 0, AnchorType::RightHand)
        .is_none());
    let feet = renderer
        .calculate_equipment_position("slime", pos, AnimState::Idle, AnimDirection::Down, 0, AnchorType::Feet)
        .unwrap();
    assert_eq!(feet.position, Point2D::new(50, 48));
}

#[test]
fn register_character_replaces_same_id() {
    let mut renderer = EquipmentRenderer::new();
    renderer.register_character(CharacterAnchors::new("mage", 48, 64));
    renderer.register_character(CharacterAnchors::default_character("mage"));
    assert!(renderer
        .calculate_equipment_position("mage", Point2D::new(0, 0), AnimState::Walk, AnimDirection::Up, 1, AnchorType::Head)
        .is_some());
}
