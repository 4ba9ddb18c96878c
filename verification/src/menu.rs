//! The menu flow of a local match: players join and pick characters, then a
//! world and a level are chosen.

use vstd::prelude::*;

use crate::controls::{CharSelectInput, UiInput};
use crate::cycle::{next_in_cycle, previous_in_cycle};
use crate::registry::GameRegistry;
use crate::states::{GameState, MenuState};
use crate::timer::{ActionTimer, TimerModel};

verus! {

/// Number of player slots of a match.
pub const MAX_PLAYERS: usize = 4;

/// How long a freshly joined slot ignores its actions: 0.3 s taken as an
/// `f32` number of seconds, in nanoseconds.
pub const READY_COOLDOWN_NANOS: u64 = 300_000_012;

/// The device a player plays with; a gamepad is named by its entity's bits.
#[derive(Clone, Copy, Debug, PartialEq, Eq, Structural)]
pub enum PlayerDevice {
    Keyboard,
    Gamepad(u64),
}

/// A taken player slot: its device, the index of the chosen character in the
/// registry, and whether the player is ready.
#[derive(Clone, Copy, Debug, PartialEq, Eq, Structural)]
pub struct PlayerConfig {
    pub device: PlayerDevice,
    pub char_register_id: usize,
    pub ready: bool,
}

/// The settings of the match being prepared: the four player slots, the chosen
/// world, the asset path of the world's LDtk project once it was requested, and
/// the chosen level.
#[derive(Debug)]
pub struct MatchConfig {
    pub players: [Option<PlayerConfig>; 4],
    pub world_register_id: usize,
    pub ldtk_handle: Option<String>,
    pub level_index: usize,
}

/// A slot of the character selection screen that a device controls.
#[derive(Clone, Copy, Debug, PartialEq, Eq, Structural)]
pub struct PlayerIndex(pub usize);

/// The delay before a freshly joined slot reacts to its actions.
pub struct ReadyCooldown(pub ActionTimer);

impl ReadyCooldown {
    /// A cooldown that has not started to run.
    pub fn new() -> (r: ReadyCooldown)
        ensures
            r.0@ == TimerModel::start(READY_COOLDOWN_NANOS, false),
    {
        ReadyCooldown(ActionTimer::once(READY_COOLDOWN_NANOS))
    }

    /// Whether the cooldown has run out.
    pub fn is_finished(&self) -> (r: bool)
        ensures
            r == self.0@.finished,
    {
        self.0.is_finished()
    }
}

/// Whether `slot` is taken with `device`.
pub open spec fn slot_holds(slot: Option<PlayerConfig>, device: PlayerDevice) -> bool {
    slot matches Some(p) && p.device == device
}

/// Whether some slot of `players` is taken with `device`.
pub open spec fn device_joined(players: Seq<Option<PlayerConfig>>, device: PlayerDevice) -> bool {
    exists|i: int| 0 <= i < players.len() && #[trigger] slot_holds(players[i], device)
}

/// No device holds two slots.
pub open spec fn devices_distinct(players: Seq<Option<PlayerConfig>>) -> bool {
    forall|i: int, j: int|
        0 <= i < players.len() && 0 <= j < players.len() && i != j && players[i] is Some
            && players[j] is Some ==> players[i]->0.device != players[j]->0.device
}

/// The empty match settings.
pub open spec fn is_default_config(cfg: MatchConfig) -> bool {
    &&& cfg.players@ == seq![
        Option::<PlayerConfig>::None,
        Option::<PlayerConfig>::None,
        Option::<PlayerConfig>::None,
        Option::<PlayerConfig>::None,
    ]
    &&& cfg.world_register_id == 0
    &&& cfg.ldtk_handle is None
    &&& cfg.level_index == 0
}

impl Default for MatchConfig {
    /// Four free slots, the first world, no project requested, the first level.
    fn default() -> (r: MatchConfig)
        ensures
            is_default_config(r),
    {
        let r = MatchConfig {
            players: [None, None, None, None],
            world_register_id: 0,
            ldtk_handle: None,
            level_index: 0,
        };
        assert(r.players@ =~= seq![
            Option::<PlayerConfig>::None,
            Option::<PlayerConfig>::None,
            Option::<PlayerConfig>::None,
            Option::<PlayerConfig>::None,
        ]);
        r
    }
}

/// Whether a player already plays with `player_device`.
pub fn controller_already_joined(match_cfg: &MatchConfig, player_device: PlayerDevice) -> (r: bool)
    ensures
        r == device_joined(match_cfg.players@, player_device),
{
    let mut i: usize = 0;
    while i < MAX_PLAYERS
        invariant
            i <= MAX_PLAYERS,
            match_cfg.players@.len() == MAX_PLAYERS,
            forall|k: int| 0 <= k < i ==> !slot_holds(#[trigger] match_cfg.players@[k], player_device),
        decreases MAX_PLAYERS - i,
    {
        if let Some(p) = &match_cfg.players[i] {
            if p.device == player_device {
                assert(slot_holds(match_cfg.players@[i as int], player_device));
                return true;
            }
        }
        i = i + 1;
    }
    false
}


/// The settings of a player who just joined with `device`: first character, not ready.
pub open spec fn joined_config(device: PlayerDevice) -> PlayerConfig {
    PlayerConfig { device, char_register_id: 0, ready: false }
}

/// The first free slot at or after `i`, or the number of slots if there is none.
pub open spec fn first_free_from(players: Seq<Option<PlayerConfig>>, i: int) -> int
    decreases players.len() - i,
{
    if i >= players.len() {
        players.len() as int
    } else if players[i] is None {
        i
    } else {
        first_free_from(players, i + 1)
    }
}

/// The first free slot, or the number of slots if all are taken.
pub open spec fn first_free_slot(players: Seq<Option<PlayerConfig>>) -> int {
    first_free_from(players, 0)
}

/// A device that asks to join takes `slot` unless it already plays.
pub open spec fn join_step(
    players: Seq<Option<PlayerConfig>>,
    slot: int,
    device: PlayerDevice,
    asks: bool,
) -> Seq<Option<PlayerConfig>> {
    if asks && !device_joined(players, device) {
        players.update(slot, Some(joined_config(device)))
    } else {
        players
    }
}

/// The slots after the gamepads, in order, asked to join into `slot`.
pub open spec fn after_pads(
    players: Seq<Option<PlayerConfig>>,
    slot: int,
    pads: Seq<(u64, bool)>,
) -> Seq<Option<PlayerConfig>>
    decreases pads.len(),
{
    if pads.len() == 0 {
        players
    } else {
        let prev = after_pads(players, slot, pads.drop_last());
        join_step(prev, slot, PlayerDevice::Gamepad(pads.last().0), pads.last().1)
    }
}

/// The gamepads, in order, that joined into `slot`.
pub open spec fn pad_joins(
    players: Seq<Option<PlayerConfig>>,
    slot: int,
    pads: Seq<(u64, bool)>,
) -> Seq<PlayerDevice>
    decreases pads.len(),
{
    if pads.len() == 0 {
        Seq::empty()
    } else {
        let prev = after_pads(players, slot, pads.drop_last());
        let d = PlayerDevice::Gamepad(pads.last().0);
        pad_joins(players, slot, pads.drop_last()) + if pads.last().1 && !device_joined(prev, d) {
            seq![d]
        } else {
            Seq::empty()
        }
    }
}

/// The devices, in order, that join during a frame: the keyboard first, then
/// the gamepads, all into the first slot that was free when the frame began.
pub open spec fn joins_of(
    players: Seq<Option<PlayerConfig>>,
    keyboard_asks: bool,
    pads: Seq<(u64, bool)>,
) -> Seq<PlayerDevice> {
    let slot = first_free_slot(players);
    let kb = if keyboard_asks && !device_joined(players, PlayerDevice::Keyboard) {
        seq![PlayerDevice::Keyboard]
    } else {
        Seq::empty()
    };
    if slot >= players.len() {
        Seq::empty()
    } else {
        kb + pad_joins(join_step(players, slot, PlayerDevice::Keyboard, keyboard_asks), slot, pads)
    }
}

/// The slots after a frame of join requests.
pub open spec fn slots_after_joins(
    players: Seq<Option<PlayerConfig>>,
    keyboard_asks: bool,
    pads: Seq<(u64, bool)>,
) -> Seq<Option<PlayerConfig>> {
    let slot = first_free_slot(players);
    if slot >= players.len() {
        players
    } else {
        after_pads(join_step(players, slot, PlayerDevice::Keyboard, keyboard_asks), slot, pads)
    }
}

/// A device that took a slot this frame, with the cooldown of its slot.
pub struct JoinedController {
    pub player_index: PlayerIndex,
    pub device: PlayerDevice,
    pub cooldown: ReadyCooldown,
}

proof fn lemma_first_free_from(players: Seq<Option<PlayerConfig>>, i: int)
    requires
        0 <= i <= players.len(),
    ensures
        i <= first_free_from(players, i) <= players.len(),
        first_free_from(players, i) < players.len() ==> players[first_free_from(players, i)] is None,
        forall|k: int| i <= k < first_free_from(players, i) ==> players[k] is Some,
    decreases players.len() - i,
{
    if i < players.len() && players[i] is Some {
        lemma_first_free_from(players, i + 1);
    }
}

/// Join requests of one frame. The keyboard asks with Enter or Space, each
/// gamepad with its South button. A device that does not play yet takes the
/// first slot that was free when the frame began; several devices that join in
/// one frame take that same slot in turn, so the last one keeps it. Nothing
/// happens when all slots are taken. Returns the devices that joined, in order,
/// each with a fresh cooldown.
pub fn handle_players_join(
    match_cfg: &mut MatchConfig,
    keyboard_enter: bool,
    keyboard_space: bool,
    gamepads: &Vec<(u64, bool)>,
) -> (r: Vec<JoinedController>)
    ensures
        final(match_cfg).players@ == slots_after_joins(
            old(match_cfg).players@,
            keyboard_enter || keyboard_space,
            gamepads@,
        ),
        final(match_cfg).world_register_id == old(match_cfg).world_register_id,
        final(match_cfg).ldtk_handle == old(match_cfg).ldtk_handle,
        final(match_cfg).level_index == old(match_cfg).level_index,
        r.len() == joins_of(old(match_cfg).players@, keyboard_enter || keyboard_space, gamepads@).len(),
        forall|i: int|
            0 <= i < r.len() ==> {
                &&& #[trigger] r[i].device == joins_of(
                    old(match_cfg).players@,
                    keyboard_enter || keyboard_space,
                    gamepads@,
                )[i]
                &&& r[i].player_index.0 == first_free_slot(old(match_cfg).players@)
                &&& r[i].cooldown.0@ == TimerModel::start(READY_COOLDOWN_NANOS, false)
            },
{
    let ghost p0 = match_cfg.players@;
    let ghost kb_asks = keyboard_enter || keyboard_space;
    proof {
        lemma_first_free_from(p0, 0);
    }
    let mut slot: usize = 0;
    while slot < MAX_PLAYERS && match_cfg.players[slot].is_some()
        invariant
            slot <= MAX_PLAYERS,
            match_cfg.players@ == p0,
            p0.len() == MAX_PLAYERS,
            forall|k: int| 0 <= k < slot ==> p0[k] is Some,
            slot <= first_free_slot(p0),
            0 <= first_free_slot(p0) <= MAX_PLAYERS,
            first_free_slot(p0) < MAX_PLAYERS ==> p0[first_free_slot(p0)] is None,
            forall|k: int| 0 <= k < first_free_slot(p0) ==> p0[k] is Some,
        decreases MAX_PLAYERS - slot,
    {
        slot = slot + 1;
    }
    let mut joined: Vec<JoinedController> = Vec::new();
    if slot >= MAX_PLAYERS {
        return joined;
    }
    assert(slot == first_free_slot(p0));
    if keyboard_enter || keyboard_space {
        if !controller_already_joined(match_cfg, PlayerDevice::Keyboard) {
            match_cfg.players[slot] = Some(
                PlayerConfig { device: PlayerDevice::Keyboard, char_register_id: 0, ready: false },
            );
            joined.push(
                JoinedController {
                    player_index: PlayerIndex(slot),
                    device: PlayerDevice::Keyboard,
                    cooldown: ReadyCooldown::new(),
                },
            );
        }
    }
    let ghost p1 = match_cfg.players@;
    let ghost kb_joins = joined@.map_values(|j: JoinedController| j.device);
    assert(p1 == join_step(p0, slot as int, PlayerDevice::Keyboard, kb_asks));
    let mut i: usize = 0;
    while i < gamepads.len()
        invariant
            i <= gamepads.len(),
            slot < MAX_PLAYERS,
            slot == first_free_slot(p0),
            match_cfg.players@.len() == MAX_PLAYERS,
            match_cfg.players@ == after_pads(p1, slot as int, gamepads@.take(i as int)),
            match_cfg.world_register_id == old(match_cfg).world_register_id,
            match_cfg.ldtk_handle == old(match_cfg).ldtk_handle,
            match_cfg.level_index == old(match_cfg).level_index,
            kb_joins.len() <= 1,
            kb_joins == (if kb_asks && !device_joined(p0, PlayerDevice::Keyboard) {
                seq![PlayerDevice::Keyboard]
            } else {
                Seq::empty()
            }),
            joined@.map_values(|j: JoinedController| j.device) == kb_joins + pad_joins(
                p1,
                slot as int,
                gamepads@.take(i as int),
            ),
            forall|k: int|
                0 <= k < joined.len() ==> {
                    &&& (#[trigger] joined[k]).player_index.0 == slot
                    &&& joined[k].cooldown.0@ == TimerModel::start(READY_COOLDOWN_NANOS, false)
                },
        decreases gamepads.len() - i,
    {
        let (entity, south) = gamepads[i];
        let ghost prev = match_cfg.players@;
        let ghost prev_joins = joined@.map_values(|j: JoinedController| j.device);
        assert(gamepads@.take(i as int + 1).drop_last() =~= gamepads@.take(i as int));
        assert(gamepads@.take(i as int + 1).last() == gamepads@[i as int]);
        if south {
            if !controller_already_joined(match_cfg, PlayerDevice::Gamepad(entity)) {
                match_cfg.players[slot] = Some(
                    PlayerConfig {
                        device: PlayerDevice::Gamepad(entity),
                        char_register_id: 0,
                        ready: false,
                    },
                );
                joined.push(
                    JoinedController {
                        player_index: PlayerIndex(slot),
                        device: PlayerDevice::Gamepad(entity),
                        cooldown: ReadyCooldown::new(),
                    },
                );
                assert(joined@.map_values(|j: JoinedController| j.device) =~= prev_joins.push(
                    PlayerDevice::Gamepad(entity),
                ));
            }
        }
        assert(joined@.map_values(|j: JoinedController| j.device) =~= kb_joins + pad_joins(
            p1,
            slot as int,
            gamepads@.take(i as int + 1),
        ));
        i = i + 1;
    }
    assert(gamepads@.take(gamepads.len() as int) =~= gamepads@);
    proof {
        let devs = joined@.map_values(|j: JoinedController| j.device);
        assert(devs =~= joins_of(p0, kb_asks, gamepads@));
        assert forall|k: int| 0 <= k < joined.len() implies #[trigger] joined[k].device == joins_of(
            p0,
            kb_asks,
            gamepads@,
        )[k] by {
            assert(devs[k] == joined[k].device);
        }
    }
    joined
}


/// A device's slot on the character selection screen: which slot it controls,
/// its cooldown, and its actions of this frame.
pub struct CharSelectController {
    pub player_index: PlayerIndex,
    pub cooldown: ReadyCooldown,
    pub actions: CharSelectInput,
}

/// What the character selection does in a frame: the controllers (by position)
/// whose players left, and the menu screen to go to, if any.
pub struct CharSelectOutcome {
    pub leaving: Vec<usize>,
    pub next_menu: Option<MenuState>,
}

/// The character after `id` in a registry of `count` characters, wrapping around.
pub open spec fn next_index(id: int, count: int) -> int {
    (id + 1) % count
}

/// The character before `id` in a registry of `count` characters, wrapping around.
pub open spec fn previous_index(id: int, count: int) -> int {
    (id + count - 1) % count
}

/// What one slot's actions do to the slots, and whether its player leaves. A
/// slot reacts once its cooldown has run out and it is taken. Leaving frees the
/// slot; a ready player can only become unready; otherwise Down and Up move
/// through the characters, and toggling makes the player ready.
pub open spec fn char_select_step(
    players: Seq<Option<PlayerConfig>>,
    index: int,
    cooled_down: bool,
    a: CharSelectInput,
    count: int,
) -> (Seq<Option<PlayerConfig>>, bool) {
    if !cooled_down || players[index] is None || !(a.leave || a.toggle_ready || a.up || a.down) {
        (players, false)
    } else {
        let p = players[index]->0;
        if a.leave {
            (players.update(index, None), true)
        } else if p.ready {
            if a.toggle_ready {
                (players.update(index, Some(PlayerConfig { ready: false, ..p })), false)
            } else {
                (players, false)
            }
        } else {
            let id1 = if a.down {
                next_index(p.char_register_id as int, count)
            } else {
                p.char_register_id as int
            };
            let id2 = if a.up {
                previous_index(id1, count)
            } else {
                id1
            };
            (
                players.update(
                    index,
                    Some(
                        PlayerConfig {
                            char_register_id: id2 as usize,
                            ready: a.toggle_ready || p.ready,
                            ..p
                        },
                    ),
                ),
                false,
            )
        }
    }
}

/// The slots, the positions of the controllers whose players left, and whether
/// any left, after the controllers took their turns in order; each cooldown
/// first runs for `delta` nanoseconds.
pub open spec fn char_select_fold(
    players: Seq<Option<PlayerConfig>>,
    ctrls: Seq<CharSelectController>,
    delta: u64,
    count: int,
) -> (Seq<Option<PlayerConfig>>, Seq<usize>, bool)
    decreases ctrls.len(),
{
    if ctrls.len() == 0 {
        (players, Seq::empty(), false)
    } else {
        let prev = char_select_fold(players, ctrls.drop_last(), delta, count);
        let c = ctrls.last();
        let step = char_select_step(
            prev.0,
            c.player_index.0 as int,
            c.cooldown.0@.ticked(delta).finished,
            c.actions,
            count,
        );
        (
            step.0,
            if step.1 {
                prev.1.push((ctrls.len() - 1) as usize)
            } else {
                prev.1
            },
            prev.2 || step.1,
        )
    }
}

/// Number of taken slots.
pub open spec fn count_taken(players: Seq<Option<PlayerConfig>>) -> nat
    decreases players.len(),
{
    if players.len() == 0 {
        0
    } else {
        count_taken(players.drop_last()) + if players.last() is Some {
            1nat
        } else {
            0nat
        }
    }
}

/// Number of taken slots whose player is ready.
pub open spec fn count_ready(players: Seq<Option<PlayerConfig>>) -> nat
    decreases players.len(),
{
    if players.len() == 0 {
        0
    } else {
        count_ready(players.drop_last()) + if players.last() matches Some(p) && p.ready {
            1nat
        } else {
            0nat
        }
    }
}

/// The screen the character selection moves to: the world selection once
/// every player is ready (and there is one), the main menu on the menu action,
/// or on Back when no slot is taken and nobody left this frame.
pub open spec fn char_select_next(
    players: Seq<Option<PlayerConfig>>,
    someone_left: bool,
    ui: UiInput,
) -> Option<MenuState> {
    let taken = count_taken(players);
    if ui.menu || (ui.back && taken == 0 && !someone_left) {
        Some(MenuState::Main)
    } else if taken > 0 && taken == count_ready(players) {
        Some(MenuState::WorldSelect)
    } else {
        None
    }
}

/// Whether some slot is taken.
pub open spec fn some_slot_taken(players: Seq<Option<PlayerConfig>>) -> bool {
    exists|i: int| 0 <= i < players.len() && (#[trigger] players[i]) is Some
}

/// Whether the player of every taken slot is ready.
pub open spec fn every_player_ready(players: Seq<Option<PlayerConfig>>) -> bool {
    forall|i: int| 0 <= i < players.len() && (#[trigger] players[i]) is Some ==> players[i]->0.ready
}

/// What the two counts say of the slots: no more ready players than taken
/// slots, some slot taken exactly when the count of taken slots is positive,
/// and as many ready players as taken slots exactly when every player is ready.
pub proof fn lemma_slot_counts(players: Seq<Option<PlayerConfig>>)
    ensures
        count_ready(players) <= count_taken(players),
        count_taken(players) > 0 <==> some_slot_taken(players),
        count_ready(players) == count_taken(players) <==> every_player_ready(players),
    decreases players.len(),
{
    if players.len() > 0 {
        let init = players.drop_last();
        let n = players.len() - 1;
        lemma_slot_counts(init);
        assert forall|i: int| 0 <= i < init.len() implies #[trigger] init[i] == players[i] by {}
        if some_slot_taken(players) {
            let w = choose|i: int| 0 <= i < players.len() && (#[trigger] players[i]) is Some;
            if w < n {
                assert(init[w] is Some);
            }
        }
        if some_slot_taken(init) {
            let w = choose|i: int| 0 <= i < init.len() && (#[trigger] init[i]) is Some;
            assert(players[w] is Some);
        }
        if every_player_ready(players) {
            assert forall|i: int| 0 <= i < init.len() && (#[trigger] init[i]) is Some implies init[i]->0.ready by {
                assert(players[i] is Some);
            }
            assert(players[n] is Some ==> players[n]->0.ready);
        }
        if every_player_ready(init) && (players.last() is Some ==> players.last()->0.ready) {
            assert forall|i: int| 0 <= i < players.len() && (#[trigger] players[i]) is Some implies players[i]->0.ready by {
                if i < n {
                    assert(init[i] is Some);
                }
            }
        }
    }
}

/// The character selection moves on to the world selection only when some
/// slot is taken and the player of every taken slot is ready; and, unless the
/// menu action was pressed, it does whenever that holds.
pub proof fn lemma_world_select_only_when_all_ready(
    players: Seq<Option<PlayerConfig>>,
    someone_left: bool,
    ui: UiInput,
)
    ensures
        char_select_next(players, someone_left, ui) == Some(MenuState::WorldSelect) ==> {
            &&& some_slot_taken(players)
            &&& every_player_ready(players)
        },
        !ui.menu && some_slot_taken(players) && every_player_ready(players) ==> char_select_next(
            players,
            someone_left,
            ui,
        ) == Some(MenuState::WorldSelect),
        (exists|i: int|
            0 <= i < players.len() && (#[trigger] players[i]) is Some && !players[i]->0.ready)
            ==> char_select_next(players, someone_left, ui) != Some(MenuState::WorldSelect),
{
    lemma_slot_counts(players);
}

/// The character selection during one frame, for a registry of `max_chars`
/// characters. Nothing happens without characters. Otherwise each controller in
/// turn runs its cooldown for `delta_nanos` and acts as `char_select_step`
/// says; then the screen changes as `char_select_next` says.
pub fn handle_char_select(
    match_cfg: &mut MatchConfig,
    max_chars: usize,
    controllers: &mut Vec<CharSelectController>,
    delta_nanos: u64,
    ui: &UiInput,
) -> (r: CharSelectOutcome)
    requires
        max_chars > 0 ==> forall|i: int|
            0 <= i < old(controllers).len() && (#[trigger] old(controllers)[i]).cooldown.0@.ticked(
                delta_nanos,
            ).finished ==> old(controllers)[i].player_index.0 < MAX_PLAYERS,
    ensures
        final(match_cfg).world_register_id == old(match_cfg).world_register_id,
        final(match_cfg).ldtk_handle == old(match_cfg).ldtk_handle,
        final(match_cfg).level_index == old(match_cfg).level_index,
        final(controllers).len() == old(controllers).len(),
        max_chars == 0 ==> {
            &&& final(match_cfg).players@ == old(match_cfg).players@
            &&& r.leaving@.len() == 0
            &&& r.next_menu is None
            &&& forall|i: int|
                0 <= i < old(controllers).len() ==> (#[trigger] final(controllers)[i]).cooldown.0@
                    == old(controllers)[i].cooldown.0@
        },
        max_chars > 0 ==> {
            let f = char_select_fold(
                old(match_cfg).players@,
                old(controllers)@,
                delta_nanos,
                max_chars as int,
            );
            &&& final(match_cfg).players@ == f.0
            &&& r.leaving@ == f.1
            &&& r.next_menu == char_select_next(f.0, f.2, *ui)
            &&& forall|i: int|
                0 <= i < old(controllers).len() ==> (#[trigger] final(controllers)[i]).cooldown.0@
                    == old(controllers)[i].cooldown.0@.ticked(delta_nanos)
        },
        forall|i: int|
            0 <= i < old(controllers).len() ==> {
                &&& (#[trigger] final(controllers)[i]).player_index == old(controllers)[i].player_index
                &&& final(controllers)[i].actions == old(controllers)[i].actions
            },
        r.next_menu == Some(MenuState::WorldSelect) ==> {
            &&& some_slot_taken(final(match_cfg).players@)
            &&& every_player_ready(final(match_cfg).players@)
        },
{
    let mut leaving: Vec<usize> = Vec::new();
    if max_chars == 0 {
        return CharSelectOutcome { leaving, next_menu: None };
    }
    let ghost p0 = match_cfg.players@;
    let ghost c0 = controllers@;
    let ghost count = max_chars as int;
    let mut someone_left = false;
    let mut i: usize = 0;
    while i < controllers.len()
        invariant
            0 < max_chars,
            count == max_chars as int,
            i <= controllers.len(),
            controllers.len() == c0.len(),
            match_cfg.players@.len() == MAX_PLAYERS,
            match_cfg.world_register_id == old(match_cfg).world_register_id,
            match_cfg.ldtk_handle == old(match_cfg).ldtk_handle,
            match_cfg.level_index == old(match_cfg).level_index,
            forall|k: int|
                0 <= k < c0.len() && (#[trigger] c0[k]).cooldown.0@.ticked(delta_nanos).finished
                    ==> c0[k].player_index.0 < MAX_PLAYERS,
            forall|k: int|
                0 <= k < c0.len() ==> {
                    &&& (#[trigger] controllers@[k]).player_index == c0[k].player_index
                    &&& controllers@[k].actions == c0[k].actions
                },
            forall|k: int|
                0 <= k < i ==> (#[trigger] controllers@[k]).cooldown.0@ == c0[k].cooldown.0@.ticked(
                    delta_nanos,
                ),
            forall|k: int| i <= k < c0.len() ==> (#[trigger] controllers@[k]).cooldown.0@ == c0[k].cooldown.0@,
            ({
                let f = char_select_fold(p0, c0.take(i as int), delta_nanos, count);
                &&& match_cfg.players@ == f.0
                &&& leaving@ == f.1
                &&& someone_left == f.2
            }),
        decreases c0.len() - i,
    {
        let ghost before = match_cfg.players@;
        assert(c0.take(i as int + 1).drop_last() =~= c0.take(i as int));
        assert(c0.take(i as int + 1).last() == c0[i as int]);
        controllers[i].cooldown.0.tick(delta_nanos);
        let cooled_down = controllers[i].cooldown.0.is_finished();
        let index = controllers[i].player_index.0;
        let a = controllers[i].actions;
        if cooled_down {
            assert(c0[i as int].cooldown.0@.ticked(delta_nanos).finished);
            if let Some(p) = match_cfg.players[index] {
                if a.leave || a.toggle_ready || a.up || a.down {
                    if a.leave {
                        match_cfg.players[index] = None;
                        leaving.push(i);
                        someone_left = true;
                    } else if p.ready {
                        if a.toggle_ready {
                            match_cfg.players[index] = Some(PlayerConfig { ready: false, ..p });
                        }
                    } else {
                        let mut id = p.char_register_id;
                        if a.down {
                            id = next_in_cycle(id, max_chars);
                        }
                        if a.up {
                            id = previous_in_cycle(id, max_chars);
                        }
                        let ready = if a.toggle_ready {
                            true
                        } else {
                            p.ready
                        };
                        match_cfg.players[index] = Some(
                            PlayerConfig { char_register_id: id, ready, ..p },
                        );
                    }
                }
            }
        }
        assert(match_cfg.players@ =~= char_select_fold(
            p0,
            c0.take(i as int + 1),
            delta_nanos,
            count,
        ).0);
        i = i + 1;
    }
    assert(c0.take(c0.len() as int) =~= c0);
    let mut taken: usize = 0;
    let mut ready: usize = 0;
    let mut k: usize = 0;
    while k < MAX_PLAYERS
        invariant
            k <= MAX_PLAYERS,
            match_cfg.players@.len() == MAX_PLAYERS,
            taken == count_taken(match_cfg.players@.take(k as int)),
            ready == count_ready(match_cfg.players@.take(k as int)),
            taken <= k,
            ready <= k,
        decreases MAX_PLAYERS - k,
    {
        assert(match_cfg.players@.take(k as int + 1).drop_last() =~= match_cfg.players@.take(
            k as int,
        ));
        if let Some(p) = &match_cfg.players[k] {
            taken = taken + 1;
            if p.ready {
                ready = ready + 1;
            }
        }
        k = k + 1;
    }
    assert(match_cfg.players@.take(MAX_PLAYERS as int) =~= match_cfg.players@);
    let mut next_menu: Option<MenuState> = None;
    if taken > 0 && taken == ready {
        next_menu = Some(MenuState::WorldSelect);
    }
    if ui.menu || (ui.back && taken == 0 && !someone_left) {
        next_menu = Some(MenuState::Main);
    }
    proof {
        lemma_world_select_only_when_all_ready(match_cfg.players@, someone_left, *ui);
    }
    CharSelectOutcome { leaving, next_menu }
}


/// The entry above `index` in a list of `len` entries, wrapping to the last.
pub open spec fn index_after_up(index: int, len: int) -> int {
    if index == 0 {
        len - 1
    } else {
        (index - 1) % len
    }
}

/// The entry below `index` in a list of `len` entries, wrapping to the first.
pub open spec fn index_after_down(index: int, len: int) -> int {
    (index + 1) % len
}

/// The entry chosen after Up and Down (in that order) in a list of `len` entries.
pub open spec fn index_after_moves(index: int, len: int, up: bool, down: bool) -> int {
    let i1 = if up {
        index_after_up(index, len)
    } else {
        index
    };
    if down {
        index_after_down(i1, len)
    } else {
        i1
    }
}

/// The screen a list screen moves to: the menu action wins over Back, Back over
/// confirming.
pub open spec fn list_screen_next(
    actions: UiInput,
    on_confirm: MenuState,
    on_back: MenuState,
) -> Option<MenuState> {
    if actions.menu {
        Some(MenuState::Main)
    } else if actions.back {
        Some(on_back)
    } else if actions.confirm {
        Some(on_confirm)
    } else {
        None
    }
}

/// The world selection during one frame: Up and Down move through the
/// registry's worlds, confirming loads the chosen world, Back returns to the
/// character selection, the menu action to the main menu.
pub fn handle_world_select(
    actions: &UiInput,
    registry: &GameRegistry,
    match_cfg: &mut MatchConfig,
) -> (r: Option<MenuState>)
    requires
        actions.up || actions.down ==> registry.worlds.len() > 0,
    ensures
        r == list_screen_next(*actions, MenuState::WorldLoading, MenuState::CharSelect),
        final(match_cfg).world_register_id == index_after_moves(
            old(match_cfg).world_register_id as int,
            registry.worlds.len() as int,
            actions.up,
            actions.down,
        ),
        final(match_cfg).players == old(match_cfg).players,
        final(match_cfg).ldtk_handle == old(match_cfg).ldtk_handle,
        final(match_cfg).level_index == old(match_cfg).level_index,
{
    let len = registry.worlds.len();
    let mut next: Option<MenuState> = None;
    if actions.confirm {
        next = Some(MenuState::WorldLoading);
    }
    if actions.up {
        if match_cfg.world_register_id == 0 {
            match_cfg.world_register_id = len - 1;
        } else {
            match_cfg.world_register_id = (match_cfg.world_register_id - 1) % len;
        }
    }
    if actions.down {
        match_cfg.world_register_id = next_in_cycle(match_cfg.world_register_id, len);
    }
    if actions.back {
        next = Some(MenuState::CharSelect);
    }
    if actions.menu {
        next = Some(MenuState::Main);
    }
    next
}

/// Entering the world loading screen requests the chosen world's LDtk project:
/// its path is recorded in the settings and returned for loading.
pub fn setup_world_loading(registry: &GameRegistry, match_cfg: &mut MatchConfig) -> (r: String)
    requires
        old(match_cfg).world_register_id < registry.worlds.len(),
    ensures
        r@ == registry.worlds[old(match_cfg).world_register_id as int].ldtk_path@,
        final(match_cfg).ldtk_handle matches Some(h) && h@ == r@,
        final(match_cfg).players == old(match_cfg).players,
        final(match_cfg).world_register_id == old(match_cfg).world_register_id,
        final(match_cfg).level_index == old(match_cfg).level_index,
{
    let path = registry.worlds[match_cfg.world_register_id].ldtk_path.clone();
    match_cfg.ldtk_handle = Some(path.clone());
    path
}

/// The world loading screen during one frame: once the requested project is
/// loaded it moves on to the level selection, Back returns to the world
/// selection, the menu action to the main menu.
pub fn handle_world_loading(
    actions: &UiInput,
    project_loaded: bool,
    match_cfg: &MatchConfig,
) -> (r: Option<MenuState>)
    ensures
        r == (if actions.menu {
            Some(MenuState::Main)
        } else if actions.back {
            Some(MenuState::WorldSelect)
        } else if match_cfg.ldtk_handle is Some && project_loaded {
            Some(MenuState::LevelSelect)
        } else {
            None
        }),
{
    let mut next: Option<MenuState> = None;
    if match_cfg.ldtk_handle.is_some() {
        if project_loaded {
            next = Some(MenuState::LevelSelect);
        }
    }
    if actions.back {
        next = Some(MenuState::WorldSelect);
    }
    if actions.menu {
        next = Some(MenuState::Main);
    }
    next
}

/// What the level selection does in a frame.
#[derive(Clone, Copy, Debug, PartialEq, Eq, Structural)]
pub struct LevelSelectOutcome {
    pub next_menu: Option<MenuState>,
    pub next_game: Option<GameState>,
}

/// The number of levels to choose from: those of the requested project once
/// it is loaded (`project_levels`), none before.
pub open spec fn levels_available(cfg_requested: bool, project_levels: Option<usize>) -> int {
    if cfg_requested {
        match project_levels {
            Some(n) => n as int,
            None => 0,
        }
    } else {
        0
    }
}

/// The level selection during one frame. Without levels it falls back to the
/// main menu. Otherwise confirming starts the match and closes the menus, Up
/// and Down move through the levels, Back returns to the world selection and
/// the menu action to the main menu.
pub fn handle_level_select(
    actions: &UiInput,
    project_levels: Option<usize>,
    match_cfg: &mut MatchConfig,
) -> (r: LevelSelectOutcome)
    ensures
        final(match_cfg).players == old(match_cfg).players,
        final(match_cfg).world_register_id == old(match_cfg).world_register_id,
        final(match_cfg).ldtk_handle == old(match_cfg).ldtk_handle,
        ({
            let n = levels_available(old(match_cfg).ldtk_handle is Some, project_levels);
            if n == 0 {
                &&& r.next_menu == Some(MenuState::Main)
                &&& r.next_game is None
                &&& final(match_cfg).level_index == old(match_cfg).level_index
            } else {
                &&& r.next_menu == list_screen_next(
                    *actions,
                    MenuState::Disabled,
                    MenuState::WorldSelect,
                )
                &&& r.next_game == (if actions.confirm {
                    Some(GameState::InGame)
                } else {
                    None
                })
                &&& final(match_cfg).level_index == index_after_moves(
                    old(match_cfg).level_index as int,
                    n,
                    actions.up,
                    actions.down,
                )
            }
        }),
{
    let mut available: usize = 0;
    if match_cfg.ldtk_handle.is_some() {
        if let Some(n) = project_levels {
            available = n;
        }
    }
    if available == 0 {
        return LevelSelectOutcome { next_menu: Some(MenuState::Main), next_game: None };
    }
    let mut next_menu: Option<MenuState> = None;
    let mut next_game: Option<GameState> = None;
    if actions.confirm {
        next_menu = Some(MenuState::Disabled);
        next_game = Some(GameState::InGame);
    }
    if actions.up {
        if match_cfg.level_index == 0 {
            match_cfg.level_index = available - 1;
        } else {
            match_cfg.level_index = (match_cfg.level_index - 1) % available;
        }
    }
    if actions.down {
        match_cfg.level_index = next_in_cycle(match_cfg.level_index, available);
    }
    if actions.back {
        next_menu = Some(MenuState::WorldSelect);
    }
    if actions.menu {
        next_menu = Some(MenuState::Main);
    }
    LevelSelectOutcome { next_menu, next_game }
}


/// A join never gives one device two slots: the device that takes the slot
/// plays nowhere else, and the other slots stay as they were.
pub proof fn lemma_join_step_keeps_devices_distinct(
    players: Seq<Option<PlayerConfig>>,
    slot: int,
    device: PlayerDevice,
    asks: bool,
)
    requires
        devices_distinct(players),
        0 <= slot < players.len(),
    ensures
        devices_distinct(join_step(players, slot, device, asks)),
{
    let after = join_step(players, slot, device, asks);
    if asks && !device_joined(players, device) {
        assert forall|i: int, j: int|
            0 <= i < after.len() && 0 <= j < after.len() && i != j && after[i] is Some
                && after[j] is Some implies after[i]->0.device != after[j]->0.device by {
            if i == slot {
                assert(!slot_holds(players[j], device));
            } else if j == slot {
                assert(!slot_holds(players[i], device));
            }
        }
    }
}

proof fn lemma_after_pads_keeps_devices_distinct(
    players: Seq<Option<PlayerConfig>>,
    slot: int,
    pads: Seq<(u64, bool)>,
)
    requires
        devices_distinct(players),
        0 <= slot < players.len(),
    ensures
        devices_distinct(after_pads(players, slot, pads)),
        after_pads(players, slot, pads).len() == players.len(),
    decreases pads.len(),
{
    if pads.len() > 0 {
        lemma_after_pads_keeps_devices_distinct(players, slot, pads.drop_last());
        lemma_join_step_keeps_devices_distinct(
            after_pads(players, slot, pads.drop_last()),
            slot,
            PlayerDevice::Gamepad(pads.last().0),
            pads.last().1,
        );
    }
}

/// A frame of join requests never gives one device two slots.
pub proof fn lemma_joins_keep_devices_distinct(
    players: Seq<Option<PlayerConfig>>,
    keyboard_asks: bool,
    pads: Seq<(u64, bool)>,
)
    requires
        devices_distinct(players),
    ensures
        devices_distinct(slots_after_joins(players, keyboard_asks, pads)),
{
    let slot = first_free_slot(players);
    lemma_first_free_from(players, 0);
    if slot < players.len() {
        lemma_join_step_keeps_devices_distinct(players, slot, PlayerDevice::Keyboard, keyboard_asks);
        lemma_after_pads_keeps_devices_distinct(
            join_step(players, slot, PlayerDevice::Keyboard, keyboard_asks),
            slot,
            pads,
        );
    }
}

proof fn lemma_pads_last_join_holds(
    players: Seq<Option<PlayerConfig>>,
    slot: int,
    pads: Seq<(u64, bool)>,
)
    requires
        0 <= slot < players.len(),
    ensures
        after_pads(players, slot, pads).len() == players.len(),
        pad_joins(players, slot, pads).len() > 0 ==> slot_holds(
            after_pads(players, slot, pads)[slot],
            pad_joins(players, slot, pads).last(),
        ),
        pad_joins(players, slot, pads).len() == 0 ==> after_pads(players, slot, pads) == players,
    decreases pads.len(),
{
    if pads.len() > 0 {
        lemma_pads_last_join_holds(players, slot, pads.drop_last());
        let prev = after_pads(players, slot, pads.drop_last());
        let d = PlayerDevice::Gamepad(pads.last().0);
        if pads.last().1 && !device_joined(prev, d) {
            assert(pad_joins(players, slot, pads).last() == d);
        } else {
            assert(pad_joins(players, slot, pads) =~= pad_joins(players, slot, pads.drop_last()));
            if pad_joins(players, slot, pads.drop_last()).len() > 0 {
                assert(pad_joins(players, slot, pads).last() == pad_joins(
                    players,
                    slot,
                    pads.drop_last(),
                ).last());
            }
        }
    }
}

/// The last device that joins in a frame holds the slot that was free when the
/// frame began; the devices that joined before it in that frame lost it again.
pub proof fn lemma_last_join_holds_slot(
    players: Seq<Option<PlayerConfig>>,
    keyboard_asks: bool,
    pads: Seq<(u64, bool)>,
)
    requires
        joins_of(players, keyboard_asks, pads).len() > 0,
    ensures
        0 <= first_free_slot(players) < players.len(),
        slot_holds(
            slots_after_joins(players, keyboard_asks, pads)[first_free_slot(players)],
            joins_of(players, keyboard_asks, pads).last(),
        ),
        device_joined(
            slots_after_joins(players, keyboard_asks, pads),
            joins_of(players, keyboard_asks, pads).last(),
        ),
{
    let slot = first_free_slot(players);
    lemma_first_free_from(players, 0);
    let p1 = join_step(players, slot, PlayerDevice::Keyboard, keyboard_asks);
    lemma_pads_last_join_holds(p1, slot, pads);
    let joins = joins_of(players, keyboard_asks, pads);
    if pad_joins(p1, slot, pads).len() == 0 {
        assert(joins.last() == PlayerDevice::Keyboard);
    } else {
        assert(joins.last() == pad_joins(p1, slot, pads).last());
    }
    assert(slot_holds(slots_after_joins(players, keyboard_asks, pads)[slot], joins.last()));
}

/// A frame of the character selection never gives one device two slots.
pub proof fn lemma_char_select_keeps_devices_distinct(
    players: Seq<Option<PlayerConfig>>,
    ctrls: Seq<CharSelectController>,
    delta: u64,
    count: int,
)
    requires
        devices_distinct(players),
        forall|k: int|
            0 <= k < ctrls.len() && (#[trigger] ctrls[k]).cooldown.0@.ticked(delta).finished
                ==> 0 <= ctrls[k].player_index.0 < players.len(),
    ensures
        devices_distinct(char_select_fold(players, ctrls, delta, count).0),
        char_select_fold(players, ctrls, delta, count).0.len() == players.len(),
    decreases ctrls.len(),
{
    if ctrls.len() > 0 {
        let prefix = ctrls.drop_last();
        assert forall|k: int|
            0 <= k < prefix.len() && (#[trigger] prefix[k]).cooldown.0@.ticked(delta).finished
                implies 0 <= prefix[k].player_index.0 < players.len() by {
            assert(prefix[k] == ctrls[k]);
        }
        lemma_char_select_keeps_devices_distinct(players, prefix, delta, count);
        let prev = char_select_fold(players, prefix, delta, count).0;
        let c = ctrls.last();
        let after = char_select_step(
            prev,
            c.player_index.0 as int,
            c.cooldown.0@.ticked(delta).finished,
            c.actions,
            count,
        ).0;
        assert forall|i: int, j: int|
            0 <= i < after.len() && 0 <= j < after.len() && i != j && after[i] is Some
                && after[j] is Some implies after[i]->0.device != after[j]->0.device by {
            assert(after[i] is Some ==> prev[i] is Some && after[i]->0.device == prev[i]->0.device);
            assert(after[j] is Some ==> prev[j] is Some && after[j]->0.device == prev[j]->0.device);
        }
    }
}


/// Every taken slot's character is one of the `count` characters.
pub open spec fn choices_in_range(players: Seq<Option<PlayerConfig>>, count: int) -> bool {
    forall|i: int|
        0 <= i < players.len() ==> (#[trigger] players[i] matches Some(p) ==> p.char_register_id
            < count)
}

/// A frame of the character selection keeps every player's character among
/// the registry's characters.
pub proof fn lemma_char_select_keeps_choices_in_range(
    players: Seq<Option<PlayerConfig>>,
    ctrls: Seq<CharSelectController>,
    delta: u64,
    count: int,
)
    requires
        count > 0,
        choices_in_range(players, count),
        forall|k: int|
            0 <= k < ctrls.len() && (#[trigger] ctrls[k]).cooldown.0@.ticked(delta).finished
                ==> 0 <= ctrls[k].player_index.0 < players.len(),
    ensures
        choices_in_range(char_select_fold(players, ctrls, delta, count).0, count),
    decreases ctrls.len(),
{
    lemma_char_select_fold_len(players, ctrls, delta, count);
    if ctrls.len() > 0 {
        let prefix = ctrls.drop_last();
        assert forall|k: int|
            0 <= k < prefix.len() && (#[trigger] prefix[k]).cooldown.0@.ticked(delta).finished
                implies 0 <= prefix[k].player_index.0 < players.len() by {
            assert(prefix[k] == ctrls[k]);
        }
        lemma_char_select_keeps_choices_in_range(players, prefix, delta, count);
        lemma_char_select_fold_len(players, prefix, delta, count);
        let prev = char_select_fold(players, prefix, delta, count).0;
        let c = ctrls.last();
        let idx = c.player_index.0 as int;
        assert(c == ctrls[ctrls.len() - 1]);
        if c.cooldown.0@.ticked(delta).finished && prev[idx] is Some {
            let p = prev[idx]->0;
            assert(p.char_register_id < count);
            lemma_character_steps_undo(p.char_register_id as int, count);
            let id1 = next_index(p.char_register_id as int, count);
            lemma_character_steps_undo(id1, count);
        }
    }
}

proof fn lemma_char_select_fold_len(
    players: Seq<Option<PlayerConfig>>,
    ctrls: Seq<CharSelectController>,
    delta: u64,
    count: int,
)
    requires
        forall|k: int|
            0 <= k < ctrls.len() && (#[trigger] ctrls[k]).cooldown.0@.ticked(delta).finished
                ==> 0 <= ctrls[k].player_index.0 < players.len(),
    ensures
        char_select_fold(players, ctrls, delta, count).0.len() == players.len(),
    decreases ctrls.len(),
{
    if ctrls.len() > 0 {
        let prefix = ctrls.drop_last();
        assert forall|k: int|
            0 <= k < prefix.len() && (#[trigger] prefix[k]).cooldown.0@.ticked(delta).finished
                implies 0 <= prefix[k].player_index.0 < players.len() by {
            assert(prefix[k] == ctrls[k]);
        }
        lemma_char_select_fold_len(players, prefix, delta, count);
    }
}


/// Whether controller `c` acts on slot `i` this frame: it controls that slot,
/// its cooldown has run out after the frame's tick, and it pressed an action.
pub open spec fn acts_on(c: CharSelectController, i: int, delta: u64) -> bool {
    &&& c.player_index.0 == i
    &&& c.cooldown.0@.ticked(delta).finished
    &&& (c.actions.leave || c.actions.toggle_ready || c.actions.up || c.actions.down)
}

/// A frame of the character selection takes no free slot, never changes the
/// device of a taken slot, and changes a slot only if one of its controllers
/// acts on it.
pub proof fn lemma_char_select_changes_only_acting_slots(
    players: Seq<Option<PlayerConfig>>,
    ctrls: Seq<CharSelectController>,
    delta: u64,
    count: int,
)
    requires
        forall|k: int|
            0 <= k < ctrls.len() && (#[trigger] ctrls[k]).cooldown.0@.ticked(delta).finished
                ==> 0 <= ctrls[k].player_index.0 < players.len(),
    ensures
        char_select_fold(players, ctrls, delta, count).0.len() == players.len(),
        forall|i: int|
            0 <= i < players.len() ==> {
                let after = #[trigger] char_select_fold(players, ctrls, delta, count).0[i];
                &&& after is Some ==> players[i] is Some && after->0.device == players[i]->0.device
                &&& after != players[i] ==> exists|k: int|
                    0 <= k < ctrls.len() && #[trigger] acts_on(ctrls[k], i, delta)
            },
    decreases ctrls.len(),
{
    if ctrls.len() > 0 {
        let prefix = ctrls.drop_last();
        assert forall|k: int|
            0 <= k < prefix.len() && (#[trigger] prefix[k]).cooldown.0@.ticked(delta).finished
                implies 0 <= prefix[k].player_index.0 < players.len() by {
            assert(prefix[k] == ctrls[k]);
        }
        lemma_char_select_changes_only_acting_slots(players, prefix, delta, count);
        let prev = char_select_fold(players, prefix, delta, count).0;
        let last = ctrls.len() - 1;
        let c = ctrls[last];
        assert(c == ctrls.last());
        let after = char_select_fold(players, ctrls, delta, count).0;
        assert forall|i: int| 0 <= i < players.len() implies {
            let a = #[trigger] char_select_fold(players, ctrls, delta, count).0[i];
            &&& a is Some ==> players[i] is Some && a->0.device == players[i]->0.device
            &&& a != players[i] ==> exists|k: int| 0 <= k < ctrls.len() && #[trigger] acts_on(ctrls[k], i, delta)
        } by {
            if after[i] != prev[i] {
                assert(acts_on(ctrls[last], i, delta));
            } else if prev[i] != players[i] {
                let k = choose|k: int| 0 <= k < prefix.len() && #[trigger] acts_on(prefix[k], i, delta);
                assert(prefix[k] == ctrls[k]);
                assert(acts_on(ctrls[k], i, delta));
            }
        }
    }
}

proof fn lemma_after_pads_touches_only_slot(
    players: Seq<Option<PlayerConfig>>,
    slot: int,
    pads: Seq<(u64, bool)>,
)
    requires
        0 <= slot < players.len(),
    ensures
        after_pads(players, slot, pads).len() == players.len(),
        forall|i: int|
            0 <= i < players.len() && i != slot ==> #[trigger] after_pads(players, slot, pads)[i]
                == players[i],
    decreases pads.len(),
{
    if pads.len() > 0 {
        lemma_after_pads_touches_only_slot(players, slot, pads.drop_last());
    }
}

/// A frame of join requests leaves every taken slot as it was and changes no
/// slot but the first free one; so at most one free slot becomes taken.
pub proof fn lemma_joins_touch_only_first_free_slot(
    players: Seq<Option<PlayerConfig>>,
    keyboard_asks: bool,
    pads: Seq<(u64, bool)>,
)
    ensures
        slots_after_joins(players, keyboard_asks, pads).len() == players.len(),
        forall|i: int|
            0 <= i < players.len() && players[i] is Some ==> #[trigger] slots_after_joins(
                players,
                keyboard_asks,
                pads,
            )[i] == players[i],
        forall|i: int|
            0 <= i < players.len() && #[trigger] slots_after_joins(players, keyboard_asks, pads)[i]
                != players[i] ==> i == first_free_slot(players),
{
    let slot = first_free_slot(players);
    lemma_first_free_from(players, 0);
    if slot < players.len() {
        let p1 = join_step(players, slot, PlayerDevice::Keyboard, keyboard_asks);
        lemma_after_pads_touches_only_slot(p1, slot, pads);
    }
}

proof fn lemma_joined_pads_change_nothing(
    players: Seq<Option<PlayerConfig>>,
    slot: int,
    pads: Seq<(u64, bool)>,
)
    requires
        forall|j: int|
            0 <= j < pads.len() && (#[trigger] pads[j]).1 ==> device_joined(
                players,
                PlayerDevice::Gamepad(pads[j].0),
            ),
    ensures
        after_pads(players, slot, pads) == players,
        pad_joins(players, slot, pads).len() == 0,
    decreases pads.len(),
{
    if pads.len() > 0 {
        let prefix = pads.drop_last();
        assert forall|j: int| 0 <= j < prefix.len() && (#[trigger] prefix[j]).1 implies device_joined(
            players,
            PlayerDevice::Gamepad(prefix[j].0),
        ) by {
            assert(prefix[j] == pads[j]);
        }
        lemma_joined_pads_change_nothing(players, slot, prefix);
        assert(pads.last() == pads[pads.len() - 1]);
    }
}

/// Join presses from devices that already play change nothing and let nobody join.
pub proof fn lemma_presses_of_players_change_nothing(
    players: Seq<Option<PlayerConfig>>,
    keyboard_asks: bool,
    pads: Seq<(u64, bool)>,
)
    requires
        keyboard_asks ==> device_joined(players, PlayerDevice::Keyboard),
        forall|j: int|
            0 <= j < pads.len() && (#[trigger] pads[j]).1 ==> device_joined(
                players,
                PlayerDevice::Gamepad(pads[j].0),
            ),
    ensures
        slots_after_joins(players, keyboard_asks, pads) == players,
        joins_of(players, keyboard_asks, pads).len() == 0,
{
    let slot = first_free_slot(players);
    assert(join_step(players, slot, PlayerDevice::Keyboard, keyboard_asks) == players);
    lemma_joined_pads_change_nothing(players, slot, pads);
}

/// Moving through a list of `len` entries always lands on an entry of the list.
pub proof fn lemma_list_moves_stay_in_list(index: int, len: int, up: bool, down: bool)
    requires
        0 <= index < len,
        0 < len,
    ensures
        0 <= index_after_moves(index, len, up, down) < len,
{
    let i1 = if up {
        index_after_up(index, len)
    } else {
        index
    };
    if up && index != 0 {
        vstd::arithmetic::div_mod::lemma_mod_pos_bound(index - 1, len);
    }
    assert(0 <= i1);
    if down {
        vstd::arithmetic::div_mod::lemma_mod_pos_bound(i1 + 1, len);
    }
}

/// Up undoes Down and Down undoes Up, on every entry of a list.
pub proof fn lemma_list_moves_undo(index: int, len: int)
    requires
        0 <= index < len,
    ensures
        index_after_up(index_after_down(index, len), len) == index,
        index_after_down(index_after_up(index, len), len) == index,
{
    vstd::arithmetic::div_mod::lemma_small_mod(index as nat, len as nat);
    vstd::arithmetic::div_mod::lemma_mod_self_0(len);
    if index + 1 < len {
        vstd::arithmetic::div_mod::lemma_small_mod((index + 1) as nat, len as nat);
        assert(index_after_down(index, len) == index + 1);
    } else {
        assert(index_after_down(index, len) == 0);
    }
    if index == 0 {
        assert(index_after_up(index, len) == len - 1);
    } else {
        vstd::arithmetic::div_mod::lemma_small_mod((index - 1) as nat, len as nat);
        assert(index_after_up(index, len) == index - 1);
    }
}

/// Among `count` characters, the next one after the previous one, and the
/// previous one before the next one, is the character itself; both stay among
/// the characters.
pub proof fn lemma_character_steps_undo(id: int, count: int)
    requires
        0 <= id < count,
    ensures
        0 <= next_index(id, count) < count,
        0 <= previous_index(id, count) < count,
        previous_index(next_index(id, count), count) == id,
        next_index(previous_index(id, count), count) == id,
{
    vstd::arithmetic::div_mod::lemma_small_mod(id as nat, count as nat);
    vstd::arithmetic::div_mod::lemma_mod_self_0(count);
    vstd::arithmetic::div_mod::lemma_small_mod((count - 1) as nat, count as nat);
    let n = next_index(id, count);
    if id + 1 < count {
        vstd::arithmetic::div_mod::lemma_small_mod((id + 1) as nat, count as nat);
        assert(n == id + 1);
        assert(previous_index(n, count) == (id + count) % count);
        vstd::arithmetic::div_mod::lemma_mod_add_multiples_vanish(id, count);
    } else {
        assert(n == 0);
        assert(previous_index(n, count) == count - 1);
    }
    let p = previous_index(id, count);
    if id == 0 {
        assert(p == count - 1);
        assert(next_index(p, count) == 0);
    } else {
        assert(p == (id - 1 + count) % count);
        vstd::arithmetic::div_mod::lemma_mod_add_multiples_vanish(id - 1, count);
        vstd::arithmetic::div_mod::lemma_small_mod((id - 1) as nat, count as nat);
        assert(p == id - 1);
    }
}


/// The player of the first taken slot at or after `i`, if any.
pub open spec fn first_taken_from(players: Seq<Option<PlayerConfig>>, i: int) -> Option<PlayerConfig>
    decreases players.len() - i,
{
    if i >= players.len() || i < 0 {
        None
    } else if players[i] is Some {
        players[i]
    } else {
        first_taken_from(players, i + 1)
    }
}

/// The character played in the match: that of the first taken slot, or the
/// registry's first character when no slot is taken.
pub fn playing_character(match_cfg: &MatchConfig) -> (r: usize)
    ensures
        r == match first_taken_from(match_cfg.players@, 0) {
            Some(p) => p.char_register_id,
            None => 0,
        },
{
    let mut i: usize = 0;
    while i < MAX_PLAYERS
        invariant
            i <= MAX_PLAYERS,
            match_cfg.players@.len() == MAX_PLAYERS,
            first_taken_from(match_cfg.players@, 0) == first_taken_from(match_cfg.players@, i as int),
        decreases MAX_PLAYERS - i,
    {
        if let Some(p) = &match_cfg.players[i] {
            return p.char_register_id;
        }
        i = i + 1;
    }
    0
}

/// What the main menu does with this frame's actions.
#[derive(Clone, Copy, Debug, PartialEq, Eq, Structural)]
pub struct MainMenuOutcome {
    pub next_menu: Option<MenuState>,
    pub exit: bool,
}

/// The main menu: confirming opens the character selection, the menu action
/// quits the game.
pub fn handle_main_menu(actions: &UiInput) -> (r: MainMenuOutcome)
    ensures
        r.next_menu == (if actions.confirm { Some(MenuState::CharSelect) } else { None }),
        r.exit == actions.menu,
{
    let next_menu = if actions.confirm {
        Some(MenuState::CharSelect)
    } else {
        None
    };
    MainMenuOutcome { next_menu, exit: actions.menu }
}

/// Entering the character selection starts the match settings afresh.
pub fn setup_char_select() -> (r: MatchConfig)
    ensures
        is_default_config(r),
{
    MatchConfig::default()
}

} // verus!
