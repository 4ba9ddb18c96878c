//! Logical actions and the physical inputs bound to them.

use vstd::prelude::*;

verus! {

/// Actions of the menu screens.
#[derive(Clone, Copy, Debug, PartialEq, Eq, Hash, Structural)]
pub enum UIControls {
    Up,
    Down,
    Left,
    Right,
    Confirm,
    Back,
    Menu,
}

/// Actions of one player's slot on the character selection screen.
#[derive(Clone, Copy, Debug, PartialEq, Eq, Hash, Structural)]
pub enum CharSelectAction {
    Up,
    Down,
    ToggleReady,
    Leave,
}

/// Actions of a player in a match.
#[derive(Clone, Copy, Debug, PartialEq, Eq, Hash, Structural)]
pub enum PlayerControls {
    Left,
    Right,
    Up,
    Down,
    Jump,
    Respawn,
}

/// Keyboard keys that the game binds.
#[derive(Clone, Copy, Debug, PartialEq, Eq, Hash, Structural)]
pub enum KeyName {
    ArrowUp,
    ArrowDown,
    ArrowLeft,
    ArrowRight,
    KeyW,
    KeyA,
    KeyS,
    KeyD,
    Enter,
    Space,
    Escape,
    Backspace,
}

/// Gamepad buttons that the game binds.
#[derive(Clone, Copy, Debug, PartialEq, Eq, Hash, Structural)]
pub enum PadButton {
    DPadUp,
    DPadDown,
    DPadLeft,
    DPadRight,
    South,
    East,
    Start,
}

/// Directions of the left stick; a direction counts once the stick leans a
/// quarter of its travel that way.
#[derive(Clone, Copy, Debug, PartialEq, Eq, Hash, Structural)]
pub enum StickDirection {
    Up,
    Down,
    Left,
    Right,
}

/// One physical input.
#[derive(Clone, Copy, Debug, PartialEq, Eq, Hash, Structural)]
pub enum InputBinding {
    Key(KeyName),
    Pad(PadButton),
    LeftStick(StickDirection),
}

/// Which menu actions were pressed during this frame.
#[derive(Clone, Copy, Debug, PartialEq, Eq, Structural)]
pub struct UiInput {
    pub up: bool,
    pub down: bool,
    pub left: bool,
    pub right: bool,
    pub confirm: bool,
    pub back: bool,
    pub menu: bool,
}

/// Which actions of one character-selection slot were pressed during this frame.
#[derive(Clone, Copy, Debug, PartialEq, Eq, Structural)]
pub struct CharSelectInput {
    pub up: bool,
    pub down: bool,
    pub toggle_ready: bool,
    pub leave: bool,
}

pub open spec fn key(k: KeyName) -> InputBinding {
    InputBinding::Key(k)
}

pub open spec fn pad(b: PadButton) -> InputBinding {
    InputBinding::Pad(b)
}

pub open spec fn stick(d: StickDirection) -> InputBinding {
    InputBinding::LeftStick(d)
}

/// The bindings of the menu actions, in the order in which they are registered.
pub open spec fn ui_bindings() -> Seq<(UIControls, InputBinding)> {
    seq![
        (UIControls::Up, key(KeyName::ArrowUp)),
        (UIControls::Up, key(KeyName::KeyW)),
        (UIControls::Up, pad(PadButton::DPadUp)),
        (UIControls::Up, stick(StickDirection::Up)),
        (UIControls::Down, key(KeyName::ArrowDown)),
        (UIControls::Down, key(KeyName::KeyS)),
        (UIControls::Down, pad(PadButton::DPadDown)),
        (UIControls::Down, stick(StickDirection::Down)),
        (UIControls::Left, key(KeyName::ArrowLeft)),
        (UIControls::Left, key(KeyName::KeyA)),
        (UIControls::Left, pad(PadButton::DPadLeft)),
        (UIControls::Left, stick(StickDirection::Left)),
        (UIControls::Right, key(KeyName::ArrowRight)),
        (UIControls::Right, key(KeyName::KeyD)),
        (UIControls::Right, pad(PadButton::DPadRight)),
        (UIControls::Right, stick(StickDirection::Right)),
        (UIControls::Confirm, key(KeyName::Enter)),
        (UIControls::Confirm, key(KeyName::Space)),
        (UIControls::Confirm, pad(PadButton::South)),
        (UIControls::Back, key(KeyName::Escape)),
        (UIControls::Back, key(KeyName::Backspace)),
        (UIControls::Back, pad(PadButton::East)),
        (UIControls::Menu, key(KeyName::Escape)),
        (UIControls::Menu, pad(PadButton::Start)),
    ]
}

/// The bindings of a keyboard player's character-selection slot.
pub open spec fn keyboard_char_select_bindings() -> Seq<(CharSelectAction, InputBinding)> {
    seq![
        (CharSelectAction::Up, key(KeyName::KeyW)),
        (CharSelectAction::Up, key(KeyName::ArrowUp)),
        (CharSelectAction::Down, key(KeyName::KeyS)),
        (CharSelectAction::Down, key(KeyName::ArrowDown)),
        (CharSelectAction::ToggleReady, key(KeyName::Space)),
        (CharSelectAction::ToggleReady, key(KeyName::Enter)),
        (CharSelectAction::Leave, key(KeyName::Backspace)),
    ]
}

/// The bindings of a gamepad player's character-selection slot (read from
/// that gamepad only).
pub open spec fn gamepad_char_select_bindings() -> Seq<(CharSelectAction, InputBinding)> {
    seq![
        (CharSelectAction::Up, pad(PadButton::DPadUp)),
        (CharSelectAction::Up, stick(StickDirection::Up)),
        (CharSelectAction::Down, pad(PadButton::DPadDown)),
        (CharSelectAction::Down, stick(StickDirection::Down)),
        (CharSelectAction::ToggleReady, pad(PadButton::South)),
        (CharSelectAction::Leave, pad(PadButton::East)),
    ]
}

impl UIControls {
    /// The default bindings of the menu actions.
    pub fn default_input_map() -> (r: Vec<(UIControls, InputBinding)>)
        ensures
            r@ == ui_bindings(),
    {
        let mut map: Vec<(UIControls, InputBinding)> = Vec::new();
        map.push((UIControls::Up, InputBinding::Key(KeyName::ArrowUp)));
        map.push((UIControls::Up, InputBinding::Key(KeyName::KeyW)));
        map.push((UIControls::Up, InputBinding::Pad(PadButton::DPadUp)));
        map.push((UIControls::Up, InputBinding::LeftStick(StickDirection::Up)));
        map.push((UIControls::Down, InputBinding::Key(KeyName::ArrowDown)));
        map.push((UIControls::Down, InputBinding::Key(KeyName::KeyS)));
        map.push((UIControls::Down, InputBinding::Pad(PadButton::DPadDown)));
        map.push((UIControls::Down, InputBinding::LeftStick(StickDirection::Down)));
        map.push((UIControls::Left, InputBinding::Key(KeyName::ArrowLeft)));
        map.push((UIControls::Left, InputBinding::Key(KeyName::KeyA)));
        map.push((UIControls::Left, InputBinding::Pad(PadButton::DPadLeft)));
        map.push((UIControls::Left, InputBinding::LeftStick(StickDirection::Left)));
        map.push((UIControls::Right, InputBinding::Key(KeyName::ArrowRight)));
        map.push((UIControls::Right, InputBinding::Key(KeyName::KeyD)));
        map.push((UIControls::Right, InputBinding::Pad(PadButton::DPadRight)));
        map.push((UIControls::Right, InputBinding::LeftStick(StickDirection::Right)));
        map.push((UIControls::Confirm, InputBinding::Key(KeyName::Enter)));
        map.push((UIControls::Confirm, InputBinding::Key(KeyName::Space)));
        map.push((UIControls::Confirm, InputBinding::Pad(PadButton::South)));
        map.push((UIControls::Back, InputBinding::Key(KeyName::Escape)));
        map.push((UIControls::Back, InputBinding::Key(KeyName::Backspace)));
        map.push((UIControls::Back, InputBinding::Pad(PadButton::East)));
        map.push((UIControls::Menu, InputBinding::Key(KeyName::Escape)));
        map.push((UIControls::Menu, InputBinding::Pad(PadButton::Start)));
        assert(map@ =~= ui_bindings());
        map
    }
}

/// The bindings given to a player who joins the character selection with the keyboard.
pub fn keyboard_char_select_input_map() -> (r: Vec<(CharSelectAction, InputBinding)>)
    ensures
        r@ == keyboard_char_select_bindings(),
{
    let mut map: Vec<(CharSelectAction, InputBinding)> = Vec::new();
    map.push((CharSelectAction::Up, InputBinding::Key(KeyName::KeyW)));
    map.push((CharSelectAction::Up, InputBinding::Key(KeyName::ArrowUp)));
    map.push((CharSelectAction::Down, InputBinding::Key(KeyName::KeyS)));
    map.push((CharSelectAction::Down, InputBinding::Key(KeyName::ArrowDown)));
    map.push((CharSelectAction::ToggleReady, InputBinding::Key(KeyName::Space)));
    map.push((CharSelectAction::ToggleReady, InputBinding::Key(KeyName::Enter)));
    map.push((CharSelectAction::Leave, InputBinding::Key(KeyName::Backspace)));
    assert(map@ =~= keyboard_char_select_bindings());
    map
}

/// The bindings given to a player who joins the character selection with a gamepad.
pub fn gamepad_char_select_input_map() -> (r: Vec<(CharSelectAction, InputBinding)>)
    ensures
        r@ == gamepad_char_select_bindings(),
{
    let mut map: Vec<(CharSelectAction, InputBinding)> = Vec::new();
    map.push((CharSelectAction::Up, InputBinding::Pad(PadButton::DPadUp)));
    map.push((CharSelectAction::Up, InputBinding::LeftStick(StickDirection::Up)));
    map.push((CharSelectAction::Down, InputBinding::Pad(PadButton::DPadDown)));
    map.push((CharSelectAction::Down, InputBinding::LeftStick(StickDirection::Down)));
    map.push((CharSelectAction::ToggleReady, InputBinding::Pad(PadButton::South)));
    map.push((CharSelectAction::Leave, InputBinding::Pad(PadButton::East)));
    assert(map@ =~= gamepad_char_select_bindings());
    map
}

} // verus!
