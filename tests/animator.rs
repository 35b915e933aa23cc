use paper_doll::animation::{
    AnimDirection, AnimState, AnimationConfig, Animator, CharacterAnimations, FrameRect,
    FrameTimer, MonsterAnimations, SpriteSize,
};
use paper_doll::models::Direction;

fn sheet() -> AnimationConfig {
    AnimationConfig {
        columns: 4,
        rows: 4,
        frame_width: 48,
        frame_height: 64,
        fps: 8,
    }
}

#[test]
fn walk_frames_wrap_after_four() {
    let mut animator = Animator::new(sheet());
    animator.set_state(AnimState::Walk);
    let mut seen = Vec::new();
    for _ in 0..4 {
        animator.advance();
        seen.push(animator.current_frame);
    }
    assert_eq!(seen, vec![1, 2, 3, 0]);
}

#[test]
fn looping_state_returns_after_frame_count_advances() {
    let mut animator = Animator::new(sheet());
    animator.advance();
    let start = animator.current_frame;
    for _ in 0..animator.frame_count {
        animator.advance();
    }
    assert_eq!(animator.current_frame, start);
    assert!(animator.playing);
}

#[test]
fn one_shot_attack_stops_on_last_frame() {
    let mut animator = Animator::new(sheet());
    animator.set_state(AnimState::Attack);
    assert!(!animator.looping);
    animator.advance();
    animator.advance();
    assert_eq!(animator.current_frame, 2);
    assert!(animator.playing);
    assert!(!animator.is_finished());
    animator.advance();
    assert_eq!(animator.current_frame, 3);
    assert!(!animator.playing);
    assert!(animator.is_finished());
    let stopped = animator;
    animator.advance();
    animator.advance();
    assert_eq!(animator, stopped);
}

#[test]
fn one_shot_of_one_frame_stops_on_first_advance() {
    let mut animator = Animator::new(sheet());
    animator.frame_count = 1;
    animator.set_state(AnimState::Hit);
    assert!(animator.playing);
    animator.advance();
    assert_eq!(animator.current_frame, 0);
    assert!(animator.is_finished());
}

#[test]
fn hit_and_die_are_one_shot() {
    let mut animator = Animator::new(sheet());
    animator.set_state(AnimState::Hit);
    assert!(!animator.looping);
    animator.set_state(AnimState::Die);
    assert!(!animator.looping);
    animator.set_state(AnimState::Idle);
    assert!(animator.looping);
}

#[test]
fn set_state_resets_frame_and_timer_mid_animation() {
    let mut animator = Animator::new(sheet());
    animator.set_state(AnimState::Walk);
    animator.advance();
    animator.advance();
    animator.tick(50_000_000);
    assert_eq!(animator.timer.elapsed_ns, 50_000_000);
    animator.set_state(AnimState::Attack);
    assert_eq!(animator.current_frame, 0);
    assert_eq!(animator.timer.elapsed_ns, 0);
    assert!(animator.playing);
    assert_eq!(animator.state, AnimState::Attack);
}

#[test]
fn set_state_to_current_state_changes_nothing() {
    let mut animator = Animator::new(sheet());
    animator.advance();
    animator.tick(10);
    let before = animator;
    animator.set_state(AnimState::Idle);
    assert_eq!(animator, before);
}

#[test]
fn finished_one_shot_restarts_on_new_state() {
    let mut animator = Animator::new(sheet());
    animator.set_state(AnimState::Die);
    for _ in 0..10 {
        animator.advance();
    }
    assert!(animator.is_finished());
    animator.set_state(AnimState::Idle);
    assert!(!animator.is_finished());
    assert!(animator.playing);
    assert_eq!(animator.current_frame, 0);
}

#[test]
fn sprite_index_uses_state_row() {
    let mut animator = Animator::new(sheet());
    animator.set_state(AnimState::Attack);
    animator.advance();
    animator.advance();
    assert_eq!(animator.sprite_index(), 10);
    animator.set_state(AnimState::Die);
    assert_eq!(animator.sprite_index(), 12);
    animator.set_state(AnimState::Hit);
    animator.advance();
    assert_eq!(animator.sprite_index(), 13);
}

#[test]
fn sprite_index_with_fewer_frames_than_columns() {
    let mut animator = Animator::new(sheet());
    animator.frame_count = 2;
    animator.set_state(AnimState::Walk);
    animator.advance();
    animator.advance();
    assert_eq!(animator.current_frame, 0);
    animator.advance();
    assert_eq!(animator.sprite_index(), 4 + 1);
}

#[test]
fn row_indices() {
    assert_eq!(AnimState::Idle.row_index(), 0);
    assert_eq!(AnimState::Walk.row_index(), 1);
    assert_eq!(AnimState::Attack.row_index(), 2);
    assert_eq!(AnimState::Hit.row_index(), 3);
    assert_eq!(AnimState::Die.row_index(), 3);
}

#[test]
fn timer_fires_once_per_interval() {
    let mut timer = FrameTimer::from_fps(8);
    assert_eq!(timer.duration_ns, 125_000_000);
    assert!(!timer.tick(100_000_000));
    assert_eq!(timer.elapsed_ns, 100_000_000);
    assert!(timer.tick(30_000_000));
    assert_eq!(timer.elapsed_ns, 5_000_000);
    assert!(timer.tick(u64::MAX));
    assert_eq!(timer.elapsed_ns, (5_000_000 + (u64::MAX % 125_000_000)) % 125_000_000);
    timer.reset();
    assert_eq!(timer.elapsed_ns, 0);
}

#[test]
fn tick_advances_only_when_interval_ends() {
    let mut animator = Animator::new(sheet());
    animator.set_state(AnimState::Walk);
    assert!(!animator.tick(100_000_000));
    assert_eq!(animator.current_frame, 0);
    assert!(animator.tick(30_000_000));
    assert_eq!(animator.current_frame, 1);
    assert_eq!(animator.timer.elapsed_ns, 5_000_000);
}

#[test]
fn tick_ignores_time_once_finished() {
    let mut animator = Animator::new(sheet());
    animator.set_state(AnimState::Hit);
    for _ in 0..4 {
        animator.advance();
    }
    assert!(animator.is_finished());
    let before = animator;
    assert!(!animator.tick(1_000_000_000));
    assert_eq!(animator, before);
}

#[test]
fn frame_rect_of_current_frame() {
    let mut animator = Animator::new(sheet());
    animator.set_state(AnimState::Attack);
    animator.advance();
    assert_eq!(
        animator.frame_rect(),
        FrameRect {
            min_x: 48,
            min_y: 128,
            max_x: 96,
            max_y: 192
        }
    );
}

#[test]
fn set_direction_keeps_animation() {
    let mut animator = Animator::new(sheet());
    animator.advance();
    animator.set_direction(AnimDirection::Left);
    assert_eq!(animator.direction, AnimDirection::Left);
    assert_eq!(animator.current_frame, 1);
}

#[test]
fn default_animator_idles_facing_down() {
    let animator = Animator::default();
    assert_eq!(animator.state, AnimState::Idle);
    assert_eq!(animator.direction, AnimDirection::Down);
    assert_eq!(animator.frame_count, 4);
    assert_eq!(animator.timer.duration_ns, 125_000_000);
    assert_eq!(animator.config, AnimationConfig::default());
    assert_eq!(AnimationConfig::default(), sheet());
}

#[test]
fn sheet_configs() {
    assert_eq!(CharacterAnimations::get_config("mage"), sheet());
    let boss = MonsterAnimations::get_config(&SpriteSize::Boss);
    assert_eq!((boss.frame_width, boss.frame_height, boss.fps), (128, 128, 6));
    let small = MonsterAnimations::get_config(&SpriteSize::Small);
    assert_eq!((small.frame_width, small.frame_height, small.fps), (32, 32, 8));
    let medium = MonsterAnimations::get_config(&SpriteSize::Medium);
    assert_eq!((medium.frame_width, medium.frame_height, medium.fps), (48, 48, 8));
    let large = MonsterAnimations::get_config(&SpriteSize::Large);
    assert_eq!((large.frame_width, large.frame_height, large.fps), (64, 64, 6));
    assert_eq!((large.columns, large.rows), (4, 4));
}

#[test]
fn facing_from_direction() {
    assert_eq!(AnimDirection::from(Direction::Left), AnimDirection::Left);
    assert_eq!(AnimDirection::from(Direction::Up), AnimDirection::Up);
    assert_eq!(AnimDirection::from(Direction::Down), AnimDirection::Down);
    assert_eq!(AnimDirection::from(Direction::Right), AnimDirection::Right);
}

#[test]
fn basic_states_and_facings() {
    assert_eq!(AnimState::basic_states().len(), 5);
    assert_eq!(AnimDirection::all().len(), 4);
    assert!(AnimState::Walk.is_looping());
    assert!(!AnimState::Attack.is_looping());
}
