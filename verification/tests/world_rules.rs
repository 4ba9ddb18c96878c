use opentfa::arrow::{collect_arrows, ArrowState, ArrowType};
use opentfa::camera::viewport_offset;
use opentfa::controls::{
    gamepad_char_select_input_map, keyboard_char_select_input_map, CharSelectAction, InputBinding,
    KeyName, PadButton, StickDirection, UIControls,
};
use opentfa::icons::{input_icon, GamepadBtns, KeyboardBtns, UiIconSprite, UiIcons};
use opentfa::level::{layer_placement, resolve_level_size, LayerPlacement, LevelLookup, LevelSize};
use opentfa::menu::{PlayerConfig, PlayerDevice};
use opentfa::movement::{
    first_collision, horizontal_input, jump_action, ledge_grab_detected, ledge_grab_possible,
    ledge_hold, sliding_now, wall_contact, JumpAction, LedgeHold, Side,
};
use opentfa::registry::GameRegistry;
use opentfa::menu::MatchConfig;
use opentfa::screens::{char_select_panel, char_select_slots, list_entries, world_names, EntryStyle, SlotPanel};

#[test]
fn level_size_first_sized_level() {
    let lookups = vec![
        LevelLookup::Found { px_wid: 0, px_hei: 100 },
        LevelLookup::Found { px_wid: 256, px_hei: 184 },
    ];
    assert_eq!(resolve_level_size(&lookups), Some(LevelSize { width: 256, height: 184 }));
    assert_eq!(resolve_level_size(&vec![]), None);
    let missing = vec![LevelLookup::ProjectNotLoaded, LevelLookup::Found { px_wid: 8, px_hei: 8 }];
    assert_eq!(resolve_level_size(&missing), None);
    let no_level = vec![LevelLookup::Found { px_wid: -1, px_hei: 8 }, LevelLookup::LevelNotFound];
    assert_eq!(resolve_level_size(&no_level), None);
}

#[test]
fn layers_by_name() {
    assert_eq!(layer_placement("VisualBackground"), LayerPlacement::Background);
    assert_eq!(layer_placement("VisualForeground"), LayerPlacement::Foreground);
    assert_eq!(layer_placement("Collisions"), LayerPlacement::Unchanged);
    assert_eq!(layer_placement("Entities"), LayerPlacement::Unchanged);
    assert_eq!(layer_placement("collisions"), LayerPlacement::Unrecognized);
    assert_eq!(layer_placement("Decor"), LayerPlacement::Unrecognized);
}

#[test]
fn viewport_is_centred() {
    assert_eq!(viewport_offset(960, 640), 160);
    assert_eq!(viewport_offset(961, 640), 160);
    assert_eq!(viewport_offset(640, 960), 0);
}

#[test]
fn menu_bindings_table() {
    let map = UIControls::default_input_map();
    assert_eq!(map.len(), 24);
    assert_eq!(map[0], (UIControls::Up, InputBinding::Key(KeyName::ArrowUp)));
    assert_eq!(map[3], (UIControls::Up, InputBinding::LeftStick(StickDirection::Up)));
    assert!(map.contains(&(UIControls::Back, InputBinding::Key(KeyName::Escape))));
    assert!(map.contains(&(UIControls::Menu, InputBinding::Key(KeyName::Escape))));
    assert_eq!(map[23], (UIControls::Menu, InputBinding::Pad(PadButton::Start)));
    let kb = keyboard_char_select_input_map();
    assert_eq!(kb.len(), 7);
    assert_eq!(kb[6], (CharSelectAction::Leave, InputBinding::Key(KeyName::Backspace)));
    let pad = gamepad_char_select_input_map();
    assert_eq!(pad.len(), 6);
    assert_eq!(pad[4], (CharSelectAction::ToggleReady, InputBinding::Pad(PadButton::South)));
}

#[test]
fn icon_frames() {
    assert_eq!(UiIconSprite::GhostIcon.atlas_index(), 5);
    assert_eq!(UiIconSprite::GamepadButtonYPressed.atlas_index(), 18);
    let ghost = input_icon(UiIcons::GhostIcon);
    assert_eq!(ghost.index, 5);
    assert!(ghost.animation.is_none());
    let enter = input_icon(UiIcons::KeyboardButton(KeyboardBtns::Enter));
    assert_eq!(enter.index, 3);
    assert_eq!(enter.animation.as_ref().unwrap().frames, vec![3, 8]);
    assert!(enter.label.is_none());
    let other = input_icon(UiIcons::KeyboardButton(KeyboardBtns::Other("Q".to_string())));
    assert_eq!(other.index, 1);
    assert_eq!(other.label.as_deref(), Some("Q"));
    let b = input_icon(UiIcons::GamepadButton(GamepadBtns::B));
    assert_eq!(b.animation.unwrap().frames, vec![11, 16]);
}

#[test]
fn movement_keys() {
    let both = horizontal_input(true, true);
    assert_eq!(both.axis, 0);
    assert_eq!(both.facing, Some(Side::Right));
    assert_eq!(horizontal_input(true, false).axis, -1);
    assert_eq!(horizontal_input(false, false).facing, None);
}

#[test]
fn ledge_hold_choices() {
    assert_eq!(ledge_hold(true, None, true, false, false), LedgeHold::ClimbUp);
    assert_eq!(ledge_hold(false, None, false, true, true), LedgeHold::LostWall);
    assert_eq!(ledge_hold(false, Some(Side::Left), false, true, false), LedgeHold::Hold);
    assert_eq!(ledge_hold(false, Some(Side::Left), false, false, true), LedgeHold::LetGo);
    assert_eq!(ledge_hold(false, Some(Side::Right), true, false, true), LedgeHold::LetGo);
}

#[test]
fn jumps() {
    assert_eq!(jump_action(false, false, None), JumpAction::NoJump);
    assert_eq!(jump_action(true, false, Some(Side::Left)), JumpAction::FromGround);
    assert_eq!(jump_action(true, true, Some(Side::Left)), JumpAction::OffWall(Side::Left));
    assert_eq!(jump_action(true, true, None), JumpAction::NoJump);
}

#[test]
fn walls_and_ledges() {
    assert_eq!(first_collision(&vec![false, true, true]), Some(1));
    assert_eq!(first_collision(&vec![false]), None);
    assert_eq!(wall_contact(&vec![(false, false), (false, true), (true, false)]), Some(Side::Right));
    assert_eq!(wall_contact(&vec![(true, true)]), Some(Side::Left));
    assert_eq!(wall_contact(&vec![]), None);
    assert!(sliding_now(Some(Side::Left), true, true, -1));
    assert!(!sliding_now(Some(Side::Left), true, true, 1));
    assert!(!sliding_now(None, true, true, 0));
    assert!(ledge_grab_possible(true, true, Some(Side::Right), 1, Side::Right));
    assert!(!ledge_grab_possible(true, true, Some(Side::Right), 1, Side::Left));
    assert!(ledge_grab_detected(&vec![(false, false, false), (false, false, true)]));
    assert!(!ledge_grab_detected(&vec![(false, false, true), (false, true, false)]));
    assert!(!ledge_grab_detected(&vec![(false, false, false)]));
}

#[test]
fn arrows_picked_up_by_touching_players() {
    let arrows = vec![
        (ArrowType::Normal, ArrowState::Stuck),
        (ArrowType::Normal, ArrowState::Flying),
        (ArrowType::Normal, ArrowState::Stuck),
    ];
    let touching = vec![vec![true, true], vec![true, false], vec![false, false]];
    let mut inventories = vec![vec![], vec![ArrowType::Normal]];
    let picked = collect_arrows(&arrows, &touching, &mut inventories);
    assert_eq!(picked, vec![0]);
    assert_eq!(inventories[0], vec![ArrowType::Normal]);
    assert_eq!(inventories[1], vec![ArrowType::Normal, ArrowType::Normal]);
}

#[test]
fn selection_lists() {
    let registry = GameRegistry::default();
    let worlds = list_entries(&world_names(&registry), 0, false);
    assert_eq!(worlds[0].text, "> Cave");
    assert_eq!(worlds[0].style, EntryStyle::Selected);
    let names = vec!["a".to_string(), "b".to_string()];
    let entries = list_entries(&names, 1, true);
    assert_eq!(entries[0].text, "  a");
    assert_eq!(entries[0].style, EntryStyle::Unselected);
    assert_eq!(entries[1].style, EntryStyle::Confirmed);
}

#[test]
fn char_select_panels() {
    let registry = GameRegistry::default();
    let keyboard = PlayerConfig { device: PlayerDevice::Keyboard, char_register_id: 1, ready: false };
    let panel = char_select_panel(&keyboard, &registry);
    assert_eq!(panel.entries[0].text, "  Blue Archer");
    assert_eq!(panel.entries[1].text, "> Green Archer");
    assert_eq!(panel.status, "Choosing...");
    assert_eq!(panel.ready_label, "Ready");
    assert!(matches!(panel.ready_hint, UiIcons::KeyboardButton(KeyboardBtns::Space)));
    assert!(matches!(panel.leave_hint, Some(UiIcons::KeyboardButton(KeyboardBtns::Backspace))));
    let pad = PlayerConfig { device: PlayerDevice::Gamepad(3), char_register_id: 0, ready: true };
    let panel = char_select_panel(&pad, &registry);
    assert_eq!(panel.entries[0].style, EntryStyle::Confirmed);
    assert_eq!(panel.status, "READY!");
    assert_eq!(panel.ready_label, "Unready");
    assert!(matches!(panel.ready_hint, UiIcons::GamepadButton(GamepadBtns::A)));
    assert!(panel.leave_hint.is_none());
}

#[test]
fn slot_panels_in_order() {
    let registry = GameRegistry::default();
    let mut cfg = MatchConfig::default();
    cfg.players[1] = Some(PlayerConfig { device: PlayerDevice::Keyboard, char_register_id: 0, ready: false });
    let slots = char_select_slots(&cfg, &registry);
    assert_eq!(slots.len(), 4);
    match &slots[1] {
        SlotPanel::Taken { header, panel } => {
            assert_eq!(header, "Player 2");
            assert_eq!(panel.entries[0].text, "> Blue Archer");
        }
        SlotPanel::Free { .. } => panic!("slot 2 is taken"),
    }
    match &slots[3] {
        SlotPanel::Free { icon, label, join_hints, footer } => {
            assert!(matches!(icon, UiIcons::GhostIcon));
            assert_eq!(label, "P4");
            assert_eq!(join_hints.len(), 2);
            assert!(matches!(join_hints[0], UiIcons::KeyboardButton(KeyboardBtns::Enter)));
            assert!(matches!(join_hints[1], UiIcons::GamepadButton(GamepadBtns::A)));
            assert_eq!(footer, "to join");
        }
        SlotPanel::Taken { .. } => panic!("slot 4 is free"),
    }
    assert!(matches!(&slots[0], SlotPanel::Free { label, .. } if label == "P1"));
}
