use opentfa::animation::{
    animate_player, animate_ui_icons, set_animation, sprite_sheet_columns, sprite_sheet_path,
    AnimationTimer, AtlasFrame, PlayerAnimation, PlayerMotion, PlayerSprites, SpriteFrame,
    UiAtlasAnimation, PLAYER_FRAME_NANOS, UI_ICON_FRAME_NANOS,
};
use opentfa::registry::GameRegistry;

fn sheets() -> PlayerSprites {
    PlayerSprites {
        walking_texture: 1,
        walking_layout: 11,
        jumping_texture: 2,
        jumping_layout: 12,
        falling_texture: 3,
        falling_layout: 13,
        sliding_texture: 4,
        sliding_layout: 14,
    }
}

fn still() -> PlayerMotion {
    PlayerMotion { grabbing_ledge: false, sliding: false, jumping: false, falling: false, walking: false }
}

fn frame(image: u64, layout: u64, index: usize) -> SpriteFrame {
    SpriteFrame { image, texture_atlas: Some(AtlasFrame { layout, index }) }
}

#[test]
fn frame_times_match_f32_seconds() {
    assert_eq!(PLAYER_FRAME_NANOS, std::time::Duration::from_secs_f32(0.1).as_nanos() as u64);
    assert_eq!(UI_ICON_FRAME_NANOS, std::time::Duration::from_secs_f32(0.4).as_nanos() as u64);
}

#[test]
fn set_animation_switches_once() {
    let mut sprite = SpriteFrame { image: 9, texture_atlas: None };
    assert!(set_animation(&mut sprite, 1, 11, 3));
    assert_eq!(sprite, frame(1, 11, 3));
    assert!(!set_animation(&mut sprite, 1, 11, 0));
    assert_eq!(sprite, frame(1, 11, 3));
    assert!(set_animation(&mut sprite, 1, 12, 0));
    assert_eq!(sprite, frame(1, 12, 0));
}

#[test]
fn walking_steps_through_four_frames() {
    let mut sprite = frame(1, 11, 3);
    let mut timer = AnimationTimer::new();
    let walking = PlayerMotion { walking: true, ..still() };
    animate_player(&walking, &mut sprite, &sheets(), &mut timer, 50_000_000);
    assert_eq!(sprite, frame(1, 11, 3));
    animate_player(&walking, &mut sprite, &sheets(), &mut timer, 60_000_000);
    assert_eq!(sprite, frame(1, 11, 0));
    animate_player(&walking, &mut sprite, &sheets(), &mut timer, 100_000_001);
    assert_eq!(sprite, frame(1, 11, 1));
}

#[test]
fn standing_shows_first_walking_frame() {
    let mut sprite = frame(1, 11, 2);
    let mut timer = AnimationTimer::new();
    animate_player(&still(), &mut sprite, &sheets(), &mut timer, 500_000_000);
    assert_eq!(sprite, frame(1, 11, 0));
    assert!(!timer.is_finished());
}

#[test]
fn falling_restarts_and_alternates() {
    let mut sprite = frame(1, 11, 2);
    let mut timer = AnimationTimer::new();
    let falling = PlayerMotion { falling: true, walking: true, ..still() };
    animate_player(&falling, &mut sprite, &sheets(), &mut timer, 100_000_001);
    assert_eq!(sprite, frame(3, 13, 1));
    animate_player(&falling, &mut sprite, &sheets(), &mut timer, 100_000_001);
    assert_eq!(sprite, frame(3, 13, 0));
}

#[test]
fn sliding_and_ledge_take_precedence() {
    let mut sprite = frame(1, 11, 2);
    let mut timer = AnimationTimer::new();
    let ledge = PlayerMotion { grabbing_ledge: true, jumping: true, falling: true, ..still() };
    animate_player(&ledge, &mut sprite, &sheets(), &mut timer, 100_000_001);
    assert_eq!(sprite, frame(4, 14, 0));
    let jumping = PlayerMotion { jumping: true, falling: true, ..still() };
    animate_player(&jumping, &mut sprite, &sheets(), &mut timer, 100_000_001);
    assert_eq!(sprite, frame(2, 12, 0));
}

#[test]
fn ui_icon_alternates_frames() {
    let mut anim = UiAtlasAnimation::new(vec![3, 8], UI_ICON_FRAME_NANOS);
    let mut atlas = Some(3usize);
    assert_eq!(animate_ui_icons(&mut anim, &mut atlas, 100), None);
    assert_eq!(atlas, Some(3));
    assert_eq!(animate_ui_icons(&mut anim, &mut atlas, UI_ICON_FRAME_NANOS), Some(true));
    assert_eq!(atlas, Some(8));
    assert_eq!(anim.current_idx, 1);
    assert_eq!(animate_ui_icons(&mut anim, &mut atlas, UI_ICON_FRAME_NANOS), Some(false));
    assert_eq!(atlas, Some(3));
    let mut no_atlas: Option<usize> = None;
    assert_eq!(animate_ui_icons(&mut anim, &mut no_atlas, UI_ICON_FRAME_NANOS), Some(true));
    assert_eq!(no_atlas, None);
}

#[test]
fn sprite_sheets_of_a_character() {
    let registry = GameRegistry::default();
    assert_eq!(sprite_sheet_path(&registry, 0, PlayerAnimation::Walking), "sprites/blue_archer/walking.png");
    assert_eq!(sprite_sheet_path(&registry, 1, PlayerAnimation::Sliding), "sprites/green_archer/sliding.png");
    assert_eq!(sprite_sheet_columns(PlayerAnimation::Walking), 4);
    assert_eq!(sprite_sheet_columns(PlayerAnimation::Jumping), 1);
    assert_eq!(sprite_sheet_columns(PlayerAnimation::Falling), 2);
    assert_eq!(sprite_sheet_columns(PlayerAnimation::Sliding), 2);
}

#[test]
fn repeating_timer_finishes_each_period() {
    let mut anim = UiAtlasAnimation::new(vec![0, 1, 2], 1_000);
    let mut atlas = Some(0usize);
    assert_eq!(animate_ui_icons(&mut anim, &mut atlas, 2_500), Some(true));
    assert_eq!(animate_ui_icons(&mut anim, &mut atlas, 400), None);
    assert_eq!(animate_ui_icons(&mut anim, &mut atlas, 100), Some(false));
    assert_eq!(atlas, Some(2));
    assert_eq!(animate_ui_icons(&mut anim, &mut atlas, 999), None);
    assert_eq!(animate_ui_icons(&mut anim, &mut atlas, 1), Some(false));
    assert_eq!(atlas, Some(0));
}

#[test]
fn huge_frame_index_wraps() {
    let mut sprite = frame(1, 11, usize::MAX);
    let mut timer = AnimationTimer::new();
    let walking = PlayerMotion { walking: true, ..still() };
    animate_player(&walking, &mut sprite, &sheets(), &mut timer, PLAYER_FRAME_NANOS);
    // (usize::MAX + 1) % 4 == 0
    assert_eq!(sprite, frame(1, 11, 0));
}
