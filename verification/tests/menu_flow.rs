use opentfa::controls::{CharSelectInput, UiInput};
use opentfa::menu::{
    controller_already_joined, handle_char_select, handle_level_select, handle_main_menu,
    handle_players_join, handle_world_loading, handle_world_select, setup_char_select,
    setup_world_loading, CharSelectController, MatchConfig, PlayerConfig, PlayerDevice,
    PlayerIndex, ReadyCooldown, READY_COOLDOWN_NANOS, playing_character,
};
use opentfa::registry::GameRegistry;
use opentfa::states::{GameState, MenuState};

fn no_input() -> UiInput {
    UiInput { up: false, down: false, left: false, right: false, confirm: false, back: false, menu: false }
}

fn no_actions() -> CharSelectInput {
    CharSelectInput { up: false, down: false, toggle_ready: false, leave: false }
}

fn player(device: PlayerDevice, id: usize, ready: bool) -> Option<PlayerConfig> {
    Some(PlayerConfig { device, char_register_id: id, ready })
}

fn controller(slot: usize, actions: CharSelectInput) -> CharSelectController {
    CharSelectController { player_index: PlayerIndex(slot), cooldown: ReadyCooldown::new(), actions }
}

#[test]
fn default_match_config_is_empty() {
    let cfg = MatchConfig::default();
    assert!(cfg.players.iter().all(|p| p.is_none()));
    assert_eq!(cfg.world_register_id, 0);
    assert_eq!(cfg.ldtk_handle, None);
    assert_eq!(cfg.level_index, 0);
    let fresh = setup_char_select();
    assert!(fresh.players.iter().all(|p| p.is_none()));
}

#[test]
fn ready_cooldown_matches_f32_seconds() {
    let expected = std::time::Duration::from_secs_f32(0.3).as_nanos() as u64;
    assert_eq!(READY_COOLDOWN_NANOS, expected);
}

#[test]
fn main_menu_confirm_and_quit() {
    let mut input = no_input();
    let out = handle_main_menu(&input);
    assert_eq!(out.next_menu, None);
    assert!(!out.exit);
    input.confirm = true;
    assert_eq!(handle_main_menu(&input).next_menu, Some(MenuState::CharSelect));
    input.menu = true;
    assert!(handle_main_menu(&input).exit);
}

#[test]
fn keyboard_joins_first_free_slot() {
    let mut cfg = MatchConfig::default();
    cfg.players[0] = player(PlayerDevice::Gamepad(7), 1, false);
    let joined = handle_players_join(&mut cfg, true, false, &vec![]);
    assert_eq!(joined.len(), 1);
    assert_eq!(joined[0].player_index, PlayerIndex(1));
    assert_eq!(joined[0].device, PlayerDevice::Keyboard);
    assert!(!joined[0].cooldown.is_finished());
    assert_eq!(cfg.players[1], player(PlayerDevice::Keyboard, 0, false));
    assert!(controller_already_joined(&cfg, PlayerDevice::Keyboard));
    assert!(controller_already_joined(&cfg, PlayerDevice::Gamepad(7)));
    assert!(!controller_already_joined(&cfg, PlayerDevice::Gamepad(8)));
}

#[test]
fn joined_device_does_not_join_twice() {
    let mut cfg = MatchConfig::default();
    handle_players_join(&mut cfg, false, true, &vec![]);
    let again = handle_players_join(&mut cfg, true, true, &vec![(3, false)]);
    assert_eq!(again.len(), 0);
    assert_eq!(cfg.players[1], None);
}

#[test]
fn devices_joining_in_one_frame_share_the_slot() {
    let mut cfg = MatchConfig::default();
    let joined = handle_players_join(&mut cfg, true, false, &vec![(5, true), (6, false), (9, true)]);
    let devices: Vec<PlayerDevice> = joined.iter().map(|j| j.device).collect();
    assert_eq!(devices, vec![PlayerDevice::Keyboard, PlayerDevice::Gamepad(5), PlayerDevice::Gamepad(9)]);
    assert!(joined.iter().all(|j| j.player_index == PlayerIndex(0)));
    assert_eq!(cfg.players[0], player(PlayerDevice::Gamepad(9), 0, false));
    assert_eq!(cfg.players[1], None);
}

#[test]
fn no_join_when_all_slots_taken() {
    let mut cfg = MatchConfig::default();
    for i in 0..4 {
        cfg.players[i] = player(PlayerDevice::Gamepad(i as u64), 0, false);
    }
    let joined = handle_players_join(&mut cfg, true, true, &vec![(10, true)]);
    assert!(joined.is_empty());
    assert!(!controller_already_joined(&cfg, PlayerDevice::Keyboard));
}

#[test]
fn cooldown_holds_back_fresh_slot() {
    let mut cfg = MatchConfig::default();
    cfg.players[0] = player(PlayerDevice::Keyboard, 0, false);
    let mut ctrls = vec![controller(0, CharSelectInput { down: true, ..no_actions() })];
    let out = handle_char_select(&mut cfg, 2, &mut ctrls, 100_000_000, &no_input());
    assert_eq!(cfg.players[0], player(PlayerDevice::Keyboard, 0, false));
    assert!(out.leaving.is_empty());
    assert_eq!(out.next_menu, None);
    assert!(!ctrls[0].cooldown.is_finished());
    let out = handle_char_select(&mut cfg, 2, &mut ctrls, 250_000_000, &no_input());
    assert!(ctrls[0].cooldown.is_finished());
    assert_eq!(cfg.players[0], player(PlayerDevice::Keyboard, 1, false));
    assert_eq!(out.next_menu, None);
}

#[test]
fn character_choice_wraps_around() {
    let mut cfg = MatchConfig::default();
    cfg.players[2] = player(PlayerDevice::Gamepad(4), 0, false);
    let mut ctrls = vec![controller(2, CharSelectInput { up: true, ..no_actions() })];
    handle_char_select(&mut cfg, 3, &mut ctrls, READY_COOLDOWN_NANOS, &no_input());
    assert_eq!(cfg.players[2].unwrap().char_register_id, 2);
    ctrls[0].actions = CharSelectInput { down: true, ..no_actions() };
    handle_char_select(&mut cfg, 3, &mut ctrls, 0, &no_input());
    assert_eq!(cfg.players[2].unwrap().char_register_id, 0);
    ctrls[0].actions = CharSelectInput { down: true, up: true, ..no_actions() };
    handle_char_select(&mut cfg, 3, &mut ctrls, 0, &no_input());
    assert_eq!(cfg.players[2].unwrap().char_register_id, 0);
}

#[test]
fn everyone_ready_moves_to_world_select() {
    let mut cfg = MatchConfig::default();
    cfg.players[0] = player(PlayerDevice::Keyboard, 1, true);
    cfg.players[1] = player(PlayerDevice::Gamepad(2), 0, false);
    let mut ctrls = vec![
        controller(0, no_actions()),
        controller(1, CharSelectInput { toggle_ready: true, ..no_actions() }),
    ];
    let out = handle_char_select(&mut cfg, 2, &mut ctrls, READY_COOLDOWN_NANOS, &no_input());
    assert_eq!(cfg.players[1], player(PlayerDevice::Gamepad(2), 0, true));
    assert_eq!(out.next_menu, Some(MenuState::WorldSelect));
}

#[test]
fn ready_player_only_unreadies() {
    let mut cfg = MatchConfig::default();
    cfg.players[0] = player(PlayerDevice::Keyboard, 1, true);
    let mut ctrls = vec![controller(0, CharSelectInput { toggle_ready: true, down: true, ..no_actions() })];
    let out = handle_char_select(&mut cfg, 2, &mut ctrls, READY_COOLDOWN_NANOS, &no_input());
    assert_eq!(cfg.players[0], player(PlayerDevice::Keyboard, 1, false));
    assert_eq!(out.next_menu, None);
}

#[test]
fn leaving_frees_slot_and_back_is_ignored_that_frame() {
    let mut cfg = MatchConfig::default();
    cfg.players[3] = player(PlayerDevice::Keyboard, 0, false);
    let mut ctrls = vec![controller(3, CharSelectInput { leave: true, ..no_actions() })];
    let back = UiInput { back: true, ..no_input() };
    let out = handle_char_select(&mut cfg, 2, &mut ctrls, READY_COOLDOWN_NANOS, &back);
    assert_eq!(cfg.players[3], None);
    assert_eq!(out.leaving, vec![0]);
    assert_eq!(out.next_menu, None);
    let mut none: Vec<CharSelectController> = vec![];
    let out = handle_char_select(&mut cfg, 2, &mut none, 0, &back);
    assert_eq!(out.next_menu, Some(MenuState::Main));
}

#[test]
fn char_select_without_characters_does_nothing() {
    let mut cfg = MatchConfig::default();
    cfg.players[0] = player(PlayerDevice::Keyboard, 0, false);
    let mut ctrls = vec![controller(0, CharSelectInput { leave: true, ..no_actions() })];
    let menu = UiInput { menu: true, ..no_input() };
    let out = handle_char_select(&mut cfg, 0, &mut ctrls, READY_COOLDOWN_NANOS, &menu);
    assert_eq!(out.next_menu, None);
    assert!(out.leaving.is_empty());
    assert!(cfg.players[0].is_some());
    assert!(!ctrls[0].cooldown.is_finished());
}

#[test]
fn menu_action_wins_in_char_select() {
    let mut cfg = MatchConfig::default();
    cfg.players[0] = player(PlayerDevice::Keyboard, 0, true);
    let mut ctrls: Vec<CharSelectController> = vec![];
    let menu = UiInput { menu: true, ..no_input() };
    let out = handle_char_select(&mut cfg, 2, &mut ctrls, 0, &menu);
    assert_eq!(out.next_menu, Some(MenuState::Main));
}

#[test]
fn world_select_cycles_and_navigates() {
    let registry = GameRegistry::default();
    let mut cfg = MatchConfig::default();
    let up = UiInput { up: true, ..no_input() };
    assert_eq!(handle_world_select(&up, &registry, &mut cfg), None);
    assert_eq!(cfg.world_register_id, 0);
    let confirm = UiInput { confirm: true, ..no_input() };
    assert_eq!(handle_world_select(&confirm, &registry, &mut cfg), Some(MenuState::WorldLoading));
    let back = UiInput { back: true, confirm: true, ..no_input() };
    assert_eq!(handle_world_select(&back, &registry, &mut cfg), Some(MenuState::CharSelect));
    let menu = UiInput { menu: true, back: true, ..no_input() };
    assert_eq!(handle_world_select(&menu, &registry, &mut cfg), Some(MenuState::Main));
}

#[test]
fn world_loading_requests_project_path() {
    let registry = GameRegistry::default();
    let mut cfg = MatchConfig::default();
    assert_eq!(handle_world_loading(&no_input(), true, &cfg), None);
    let path = setup_world_loading(&registry, &mut cfg);
    assert_eq!(path, "levels/cave.ldtk");
    assert_eq!(cfg.ldtk_handle.as_deref(), Some("levels/cave.ldtk"));
    assert_eq!(handle_world_loading(&no_input(), false, &cfg), None);
    assert_eq!(handle_world_loading(&no_input(), true, &cfg), Some(MenuState::LevelSelect));
    let back = UiInput { back: true, ..no_input() };
    assert_eq!(handle_world_loading(&back, true, &cfg), Some(MenuState::WorldSelect));
    let menu = UiInput { menu: true, back: true, ..no_input() };
    assert_eq!(handle_world_loading(&menu, true, &cfg), Some(MenuState::Main));
}

#[test]
fn level_select_without_levels_returns_to_main() {
    let mut cfg = MatchConfig::default();
    let confirm = UiInput { confirm: true, ..no_input() };
    let out = handle_level_select(&confirm, Some(3), &mut cfg);
    assert_eq!(out.next_menu, Some(MenuState::Main));
    assert_eq!(out.next_game, None);
    cfg.ldtk_handle = Some("levels/cave.ldtk".to_string());
    let out = handle_level_select(&confirm, None, &mut cfg);
    assert_eq!(out.next_menu, Some(MenuState::Main));
    let out = handle_level_select(&confirm, Some(0), &mut cfg);
    assert_eq!(out.next_game, None);
}

#[test]
fn level_select_starts_match_and_cycles() {
    let mut cfg = MatchConfig::default();
    cfg.ldtk_handle = Some("levels/cave.ldtk".to_string());
    let up = UiInput { up: true, ..no_input() };
    let out = handle_level_select(&up, Some(3), &mut cfg);
    assert_eq!(cfg.level_index, 2);
    assert_eq!(out.next_menu, None);
    let down = UiInput { down: true, ..no_input() };
    handle_level_select(&down, Some(3), &mut cfg);
    assert_eq!(cfg.level_index, 0);
    let confirm = UiInput { confirm: true, ..no_input() };
    let out = handle_level_select(&confirm, Some(3), &mut cfg);
    assert_eq!(out.next_menu, Some(MenuState::Disabled));
    assert_eq!(out.next_game, Some(GameState::InGame));
    let both = UiInput { confirm: true, back: true, ..no_input() };
    let out = handle_level_select(&both, Some(3), &mut cfg);
    assert_eq!(out.next_menu, Some(MenuState::WorldSelect));
    assert_eq!(out.next_game, Some(GameState::InGame));
}

#[test]
fn registry_lists_archers_and_cave() {
    let registry = GameRegistry::default();
    let names: Vec<&str> = registry.characters.iter().map(|c| c.name.as_str()).collect();
    assert_eq!(names, vec!["Blue Archer", "Green Archer"]);
    assert_eq!(registry.characters[1].sprite_path, "sprites/green_archer");
    assert_eq!(registry.worlds.len(), 1);
    assert_eq!(registry.worlds[0].name, "Cave");
}

#[test]
fn default_states() {
    assert_eq!(GameState::default(), GameState::Menu);
    assert_eq!(MenuState::default(), MenuState::Disabled);
}

#[test]
fn cooldown_stays_run_out() {
    let mut cfg = MatchConfig::default();
    cfg.players[0] = player(PlayerDevice::Keyboard, 0, false);
    let mut ctrls = vec![controller(0, no_actions())];
    handle_char_select(&mut cfg, 2, &mut ctrls, READY_COOLDOWN_NANOS + 5, &no_input());
    assert!(ctrls[0].cooldown.is_finished());
    ctrls[0].actions = CharSelectInput { toggle_ready: true, ..no_actions() };
    let out = handle_char_select(&mut cfg, 2, &mut ctrls, 1, &no_input());
    assert!(ctrls[0].cooldown.is_finished());
    assert_eq!(cfg.players[0], player(PlayerDevice::Keyboard, 0, true));
    assert_eq!(out.next_menu, Some(MenuState::WorldSelect));
}

#[test]
fn only_acting_slots_change() {
    let mut cfg = MatchConfig::default();
    cfg.players[0] = player(PlayerDevice::Keyboard, 0, false);
    cfg.players[1] = player(PlayerDevice::Gamepad(3), 1, false);
    let mut warm = vec![controller(0, no_actions())];
    handle_char_select(&mut cfg, 3, &mut warm, READY_COOLDOWN_NANOS, &no_input());
    let mut first = warm.pop().unwrap();
    first.actions = CharSelectInput { down: true, ..no_actions() };
    let second = controller(1, CharSelectInput { down: true, ..no_actions() });
    let mut ctrls = vec![first, second];
    let out = handle_char_select(&mut cfg, 3, &mut ctrls, 0, &no_input());
    assert_eq!(cfg.players[0], player(PlayerDevice::Keyboard, 1, false));
    assert_eq!(cfg.players[1], player(PlayerDevice::Gamepad(3), 1, false));
    assert_eq!(cfg.players[2], None);
    assert!(out.leaving.is_empty());
}

#[test]
fn presses_of_joined_devices_change_nothing() {
    let mut cfg = MatchConfig::default();
    cfg.players[1] = player(PlayerDevice::Keyboard, 1, true);
    cfg.players[3] = player(PlayerDevice::Gamepad(8), 0, false);
    let joined = handle_players_join(&mut cfg, true, true, &vec![(8, true), (9, false)]);
    assert!(joined.is_empty());
    assert_eq!(cfg.players[0], None);
    assert_eq!(cfg.players[1], player(PlayerDevice::Keyboard, 1, true));
    assert_eq!(cfg.players[2], None);
    assert_eq!(cfg.players[3], player(PlayerDevice::Gamepad(8), 0, false));
}

#[test]
fn joins_fill_only_first_free_slot() {
    let mut cfg = MatchConfig::default();
    cfg.players[0] = player(PlayerDevice::Gamepad(1), 1, true);
    let joined = handle_players_join(&mut cfg, true, false, &vec![(2, true)]);
    assert_eq!(joined.len(), 2);
    assert_eq!(cfg.players[0], player(PlayerDevice::Gamepad(1), 1, true));
    assert_eq!(cfg.players[1], player(PlayerDevice::Gamepad(2), 0, false));
    assert_eq!(cfg.players[2], None);
    assert_eq!(cfg.players[3], None);
}

#[test]
fn huge_indices_still_wrap() {
    let registry = GameRegistry::default();
    let mut cfg = MatchConfig::default();
    cfg.world_register_id = usize::MAX;
    let down = UiInput { down: true, ..no_input() };
    handle_world_select(&down, &registry, &mut cfg);
    assert_eq!(cfg.world_register_id, 0);
    let mut cfg = MatchConfig::default();
    cfg.players[0] = player(PlayerDevice::Keyboard, usize::MAX, false);
    let mut ctrls = vec![controller(0, CharSelectInput { down: true, ..no_actions() })];
    handle_char_select(&mut cfg, 2, &mut ctrls, READY_COOLDOWN_NANOS, &no_input());
    // (usize::MAX + 1) % 2 == 0
    assert_eq!(cfg.players[0].unwrap().char_register_id, 0);
    ctrls[0].actions = CharSelectInput { up: true, ..no_actions() };
    cfg.players[0] = player(PlayerDevice::Keyboard, usize::MAX, false);
    handle_char_select(&mut cfg, 3, &mut ctrls, 0, &no_input());
    // (usize::MAX + 3 - 1) % 3 == 2
    assert_eq!(cfg.players[0].unwrap().char_register_id, 2);
}

#[test]
fn first_taken_slot_plays() {
    let mut cfg = MatchConfig::default();
    assert_eq!(playing_character(&cfg), 0);
    cfg.players[2] = player(PlayerDevice::Keyboard, 1, true);
    cfg.players[3] = player(PlayerDevice::Gamepad(4), 0, true);
    assert_eq!(playing_character(&cfg), 1);
}
