//! What the selection screens show: their entries with the chosen one marked,
//! and each player's panel on the character selection.

use vstd::prelude::*;
use vstd::string::StringExecFns;

use crate::controls::{
    gamepad_char_select_bindings, keyboard_char_select_bindings, CharSelectAction, InputBinding,
    KeyName, PadButton,
};
use crate::icons::{GamepadBtns, KeyboardBtns, UiIcons};
use crate::menu::{MatchConfig, PlayerConfig, PlayerDevice, MAX_PLAYERS};
use crate::registry::GameRegistry;

verus! {

/// How an entry of a list is drawn.
#[derive(Clone, Copy, Debug, PartialEq, Eq, Structural)]
pub enum EntryStyle {
    /// The chosen entry of a player who is ready (green).
    Confirmed,
    /// The chosen entry (yellow).
    Selected,
    /// Any other entry (faded grey).
    Unselected,
}

/// An entry of a list: its text and its look.
pub struct MenuEntry {
    pub text: String,
    pub style: EntryStyle,
}

/// The text of an entry: the chosen one is marked with "> ", the others are
/// indented by two spaces.
pub open spec fn entry_text(selected: bool, name: Seq<char>) -> Seq<char> {
    (if selected {
        "> "@
    } else {
        "  "@
    }) + name
}

/// The look of an entry.
pub open spec fn entry_style(selected: bool, confirmed: bool) -> EntryStyle {
    if selected {
        if confirmed {
            EntryStyle::Confirmed
        } else {
            EntryStyle::Selected
        }
    } else {
        EntryStyle::Unselected
    }
}

/// The entries of a list of `names`, with the entry at `selected` chosen and,
/// if `confirmed`, confirmed.
pub fn list_entries(names: &Vec<String>, selected: usize, confirmed: bool) -> (r: Vec<MenuEntry>)
    ensures
        r.len() == names.len(),
        forall|i: int|
            0 <= i < names.len() ==> {
                &&& (#[trigger] r[i]).text@ == entry_text(i == selected, names[i]@)
                &&& r[i].style == entry_style(i == selected, confirmed)
            },
{
    let mut out: Vec<MenuEntry> = Vec::new();
    let mut i: usize = 0;
    while i < names.len()
        invariant
            i <= names.len(),
            out.len() == i,
            forall|k: int|
                0 <= k < i ==> {
                    &&& (#[trigger] out[k]).text@ == entry_text(k == selected, names[k]@)
                    &&& out[k].style == entry_style(k == selected, confirmed)
                },
        decreases names.len() - i,
    {
        let is_selected = i == selected;
        let prefix = if is_selected {
            String::from_str("> ")
        } else {
            String::from_str("  ")
        };
        let text = prefix.concat(names[i].as_str());
        let style = if is_selected {
            if confirmed {
                EntryStyle::Confirmed
            } else {
                EntryStyle::Selected
            }
        } else {
            EntryStyle::Unselected
        };
        out.push(MenuEntry { text, style });
        i = i + 1;
    }
    out
}

/// The names of the registry's characters, in order.
pub fn character_names(registry: &GameRegistry) -> (r: Vec<String>)
    ensures
        r.len() == registry.characters.len(),
        forall|i: int| 0 <= i < r.len() ==> (#[trigger] r[i])@ == registry.characters[i].name@,
{
    let mut out: Vec<String> = Vec::new();
    let mut i: usize = 0;
    while i < registry.characters.len()
        invariant
            i <= registry.characters.len(),
            out.len() == i,
            forall|k: int| 0 <= k < i ==> (#[trigger] out[k])@ == registry.characters[k].name@,
        decreases registry.characters.len() - i,
    {
        out.push(registry.characters[i].name.clone());
        i = i + 1;
    }
    out
}

/// The names of the registry's worlds, in order.
pub fn world_names(registry: &GameRegistry) -> (r: Vec<String>)
    ensures
        r.len() == registry.worlds.len(),
        forall|i: int| 0 <= i < r.len() ==> (#[trigger] r[i])@ == registry.worlds[i].name@,
{
    let mut out: Vec<String> = Vec::new();
    let mut i: usize = 0;
    while i < registry.worlds.len()
        invariant
            i <= registry.worlds.len(),
            out.len() == i,
            forall|k: int| 0 <= k < i ==> (#[trigger] out[k])@ == registry.worlds[k].name@,
        decreases registry.worlds.len() - i,
    {
        out.push(registry.worlds[i].name.clone());
        i = i + 1;
    }
    out
}

/// The panel of a taken slot on the character selection: the characters with
/// the player's choice marked, the player's status, and the buttons that ready
/// (or unready) and, before the player is ready, leave.
pub struct CharSelectPanel {
    pub entries: Vec<MenuEntry>,
    pub status: String,
    pub ready_label: String,
    pub ready_hint: UiIcons,
    pub leave_hint: Option<UiIcons>,
}

/// What the panel of a slot taken by `player` shows.
pub open spec fn shows_player(r: CharSelectPanel, player: PlayerConfig, registry: &GameRegistry) -> bool {
    &&& r.entries.len() == registry.characters.len()
    &&& forall|i: int|
        0 <= i < registry.characters.len() ==> {
            &&& (#[trigger] r.entries[i]).text@ == entry_text(
                i == player.char_register_id,
                registry.characters[i].name@,
            )
            &&& r.entries[i].style == entry_style(i == player.char_register_id, player.ready)
        }
    &&& r.status@ == (if player.ready {
        "READY!"@
    } else {
        "Choosing..."@
    })
    &&& r.ready_label@ == (if player.ready {
        "Unready"@
    } else {
        "Ready"@
    })
    &&& match player.device {
        PlayerDevice::Keyboard => r.ready_hint matches UiIcons::KeyboardButton(KeyboardBtns::Space),
        PlayerDevice::Gamepad(_) => r.ready_hint matches UiIcons::GamepadButton(GamepadBtns::A),
    }
    &&& player.ready ==> r.leave_hint is None
    &&& !player.ready ==> match player.device {
        PlayerDevice::Keyboard => r.leave_hint matches Some(
            UiIcons::KeyboardButton(KeyboardBtns::Backspace),
        ),
        PlayerDevice::Gamepad(_) => r.leave_hint matches Some(UiIcons::GamepadButton(GamepadBtns::B)),
    }
}

/// The physical input that an icon pictures, where it pictures one the game
/// binds: the Space, Enter and Backspace keys, and the gamepad's A (the south
/// face button) and B (the east face button).
pub open spec fn pictured_input(icon: UiIcons) -> Option<InputBinding> {
    match icon {
        UiIcons::KeyboardButton(KeyboardBtns::Space) => Some(InputBinding::Key(KeyName::Space)),
        UiIcons::KeyboardButton(KeyboardBtns::Enter) => Some(InputBinding::Key(KeyName::Enter)),
        UiIcons::KeyboardButton(KeyboardBtns::Backspace) => Some(
            InputBinding::Key(KeyName::Backspace),
        ),
        UiIcons::GamepadButton(GamepadBtns::A) => Some(InputBinding::Pad(PadButton::South)),
        UiIcons::GamepadButton(GamepadBtns::B) => Some(InputBinding::Pad(PadButton::East)),
        _ => None,
    }
}

/// The character-selection bindings of a player's device.
pub open spec fn device_char_select_bindings(
    device: PlayerDevice,
) -> Seq<(CharSelectAction, InputBinding)> {
    match device {
        PlayerDevice::Keyboard => keyboard_char_select_bindings(),
        PlayerDevice::Gamepad(_) => gamepad_char_select_bindings(),
    }
}

/// The button hints of a player's panel picture buttons that do what they say
/// on that player's device: the ready hint a button bound to toggling ready,
/// and the leave hint (shown while the player is not ready) a button bound to
/// leaving, which is not the ready button.
pub proof fn lemma_panel_hints_match_bindings(
    r: CharSelectPanel,
    player: PlayerConfig,
    registry: &GameRegistry,
)
    requires
        shows_player(r, player, registry),
    ensures
        pictured_input(r.ready_hint) matches Some(b) && device_char_select_bindings(
            player.device,
        ).contains((CharSelectAction::ToggleReady, b)),
        !player.ready ==> {
            &&& r.leave_hint matches Some(h) && pictured_input(h) matches Some(b)
                && device_char_select_bindings(player.device).contains((CharSelectAction::Leave, b))
            &&& pictured_input(r.leave_hint->0) != pictured_input(r.ready_hint)
        },
{
    let kb = keyboard_char_select_bindings();
    let gp = gamepad_char_select_bindings();
    assert(kb[4] == (CharSelectAction::ToggleReady, InputBinding::Key(KeyName::Space)));
    assert(kb[6] == (CharSelectAction::Leave, InputBinding::Key(KeyName::Backspace)));
    assert(gp[4] == (CharSelectAction::ToggleReady, InputBinding::Pad(PadButton::South)));
    assert(gp[5] == (CharSelectAction::Leave, InputBinding::Pad(PadButton::East)));
}

/// The panel of the slot taken by `player`.
pub fn char_select_panel(player: &PlayerConfig, registry: &GameRegistry) -> (r: CharSelectPanel)
    ensures
        shows_player(r, *player, registry),
        pictured_input(r.ready_hint) matches Some(b) && device_char_select_bindings(
            player.device,
        ).contains((CharSelectAction::ToggleReady, b)),
        !player.ready ==> (r.leave_hint matches Some(h) && pictured_input(h) matches Some(b)
            && device_char_select_bindings(player.device).contains((CharSelectAction::Leave, b))),
{
    let names = character_names(registry);
    let entries = list_entries(&names, player.char_register_id, player.ready);
    let status = if player.ready {
        String::from_str("READY!")
    } else {
        String::from_str("Choosing...")
    };
    let ready_label = if player.ready {
        String::from_str("Unready")
    } else {
        String::from_str("Ready")
    };
    let ready_hint = match player.device {
        PlayerDevice::Keyboard => UiIcons::KeyboardButton(KeyboardBtns::Space),
        PlayerDevice::Gamepad(_) => UiIcons::GamepadButton(GamepadBtns::A),
    };
    let leave_hint = if player.ready {
        None
    } else {
        match player.device {
            PlayerDevice::Keyboard => Some(UiIcons::KeyboardButton(KeyboardBtns::Backspace)),
            PlayerDevice::Gamepad(_) => Some(UiIcons::GamepadButton(GamepadBtns::B)),
        }
    };
    let r = CharSelectPanel { entries, status, ready_label, ready_hint, leave_hint };
    proof {
        lemma_panel_hints_match_bindings(r, *player, registry);
    }
    r
}

/// The panel of one slot on the character selection.
pub enum SlotPanel {
    /// A taken slot: its header and the player's panel.
    Taken { header: String, panel: CharSelectPanel },
    /// A free slot: the ghost icon, the slot's short name, the buttons that
    /// join, and the invitation below them.
    Free { icon: UiIcons, label: String, join_hints: Vec<UiIcons>, footer: String },
}

/// The number of the slot at `index`, counted from one, as text.
pub open spec fn slot_number(index: int) -> Seq<char> {
    if index == 0 {
        "1"@
    } else if index == 1 {
        "2"@
    } else if index == 2 {
        "3"@
    } else {
        "4"@
    }
}

/// What the panel of the slot at `index` shows, taken or free.
pub open spec fn shows_slot(
    r: SlotPanel,
    index: int,
    slot: Option<PlayerConfig>,
    registry: &GameRegistry,
) -> bool {
    match slot {
        Some(p) => match r {
            SlotPanel::Taken { header, panel } => header@ == "Player "@ + slot_number(index)
                && shows_player(panel, p, registry),
            _ => false,
        },
        None => match r {
            SlotPanel::Free { icon, label, join_hints, footer } => {
                &&& icon matches UiIcons::GhostIcon
                &&& label@ == "P"@ + slot_number(index)
                &&& join_hints@.len() == 2
                &&& join_hints@[0] matches UiIcons::KeyboardButton(KeyboardBtns::Enter)
                &&& join_hints@[1] matches UiIcons::GamepadButton(GamepadBtns::A)
                &&& footer@ == "to join"@
            },
            _ => false,
        },
    }
}

fn slot_number_text(index: usize) -> (r: String)
    requires
        index < MAX_PLAYERS,
    ensures
        r@ == slot_number(index as int),
{
    if index == 0 {
        String::from_str("1")
    } else if index == 1 {
        String::from_str("2")
    } else if index == 2 {
        String::from_str("3")
    } else {
        String::from_str("4")
    }
}

/// The panel of the slot at `index`.
pub fn slot_panel(index: usize, slot: &Option<PlayerConfig>, registry: &GameRegistry) -> (r: SlotPanel)
    requires
        index < MAX_PLAYERS,
    ensures
        shows_slot(r, index as int, *slot, registry),
{
    let number = slot_number_text(index);
    match slot {
        Some(player) => SlotPanel::Taken {
            header: String::from_str("Player ").concat(number.as_str()),
            panel: char_select_panel(player, registry),
        },
        None => {
            let mut join_hints: Vec<UiIcons> = Vec::new();
            join_hints.push(UiIcons::KeyboardButton(KeyboardBtns::Enter));
            join_hints.push(UiIcons::GamepadButton(GamepadBtns::A));
            SlotPanel::Free {
                icon: UiIcons::GhostIcon,
                label: String::from_str("P").concat(number.as_str()),
                join_hints,
                footer: String::from_str("to join"),
            }
        },
    }
}

/// The panels of the character selection: one per slot, in slot order.
pub fn char_select_slots(match_cfg: &MatchConfig, registry: &GameRegistry) -> (r: Vec<SlotPanel>)
    ensures
        r.len() == MAX_PLAYERS,
        forall|i: int|
            0 <= i < MAX_PLAYERS ==> shows_slot(#[trigger] r[i], i, match_cfg.players@[i], registry),
{
    let mut out: Vec<SlotPanel> = Vec::new();
    let mut i: usize = 0;
    while i < MAX_PLAYERS
        invariant
            i <= MAX_PLAYERS,
            out.len() == i,
            match_cfg.players@.len() == MAX_PLAYERS,
            forall|k: int| 0 <= k < i ==> shows_slot(#[trigger] out[k], k, match_cfg.players@[k], registry),
        decreases MAX_PLAYERS - i,
    {
        out.push(slot_panel(i, &match_cfg.players[i], registry));
        i = i + 1;
    }
    out
}

} // verus!
