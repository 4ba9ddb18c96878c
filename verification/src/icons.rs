//! The input icons of the menus and the atlas frames that draw them.

use vstd::prelude::*;

use crate::animation::{UiAtlasAnimation, UI_ICON_FRAME_NANOS};
use crate::timer::TimerModel;

verus! {

/// The pictures of the icon atlas.
#[derive(Clone, Copy, Debug, PartialEq, Eq, Structural)]
pub enum UiIconSprite {
    NoController,
    GhostIcon,
    KeyboardButtonEmpty,
    KeyboardButtonEmptyPressed,
    KeyboardSpace,
    KeyboardSpacePressed,
    KeyboardEnter,
    KeyboardEnterPressed,
    KeyboardBackspace,
    KeyboardBackspacePressed,
    GamepadButtonA,
    GamepadButtonAPressed,
    GamepadButtonB,
    GamepadButtonBPressed,
    GamepadButtonX,
    GamepadButtonXPressed,
    GamepadButtonY,
    GamepadButtonYPressed,
}

/// The atlas frame of each picture: the atlas is five frames wide; its first
/// row holds the keyboard pictures, its second their pressed looks, its third
/// the gamepad buttons and its fourth their pressed looks.
pub open spec fn atlas_frame(s: UiIconSprite) -> usize {
    match s {
        UiIconSprite::NoController => 0,
        UiIconSprite::GhostIcon => 5,
        UiIconSprite::KeyboardButtonEmpty => 1,
        UiIconSprite::KeyboardButtonEmptyPressed => 6,
        UiIconSprite::KeyboardSpace => 2,
        UiIconSprite::KeyboardSpacePressed => 7,
        UiIconSprite::KeyboardEnter => 3,
        UiIconSprite::KeyboardEnterPressed => 8,
        UiIconSprite::KeyboardBackspace => 4,
        UiIconSprite::KeyboardBackspacePressed => 9,
        UiIconSprite::GamepadButtonA => 10,
        UiIconSprite::GamepadButtonAPressed => 15,
        UiIconSprite::GamepadButtonB => 11,
        UiIconSprite::GamepadButtonBPressed => 16,
        UiIconSprite::GamepadButtonX => 12,
        UiIconSprite::GamepadButtonXPressed => 17,
        UiIconSprite::GamepadButtonY => 13,
        UiIconSprite::GamepadButtonYPressed => 18,
    }
}

/// The picture at a frame of the icon atlas, where one is drawn.
spec fn picture_at(frame: int) -> Option<UiIconSprite> {
    if frame == 0 {
        Some(UiIconSprite::NoController)
    } else if frame == 1 {
        Some(UiIconSprite::KeyboardButtonEmpty)
    } else if frame == 2 {
        Some(UiIconSprite::KeyboardSpace)
    } else if frame == 3 {
        Some(UiIconSprite::KeyboardEnter)
    } else if frame == 4 {
        Some(UiIconSprite::KeyboardBackspace)
    } else if frame == 5 {
        Some(UiIconSprite::GhostIcon)
    } else if frame == 6 {
        Some(UiIconSprite::KeyboardButtonEmptyPressed)
    } else if frame == 7 {
        Some(UiIconSprite::KeyboardSpacePressed)
    } else if frame == 8 {
        Some(UiIconSprite::KeyboardEnterPressed)
    } else if frame == 9 {
        Some(UiIconSprite::KeyboardBackspacePressed)
    } else if frame == 10 {
        Some(UiIconSprite::GamepadButtonA)
    } else if frame == 11 {
        Some(UiIconSprite::GamepadButtonB)
    } else if frame == 12 {
        Some(UiIconSprite::GamepadButtonX)
    } else if frame == 13 {
        Some(UiIconSprite::GamepadButtonY)
    } else if frame == 15 {
        Some(UiIconSprite::GamepadButtonAPressed)
    } else if frame == 16 {
        Some(UiIconSprite::GamepadButtonBPressed)
    } else if frame == 17 {
        Some(UiIconSprite::GamepadButtonXPressed)
    } else if frame == 18 {
        Some(UiIconSprite::GamepadButtonYPressed)
    } else {
        None
    }
}

/// Distinct pictures sit on distinct frames of the icon atlas.
pub proof fn lemma_atlas_frames_distinct(a: UiIconSprite, b: UiIconSprite)
    requires
        a != b,
    ensures
        atlas_frame(a) != atlas_frame(b),
{
    assert(picture_at(atlas_frame(a) as int) == Some(a));
    assert(picture_at(atlas_frame(b) as int) == Some(b));
}

/// The layout of the icon atlas, five frames to a row: the first row holds the
/// controller icon and then the empty, Space, Enter and Backspace keys; the
/// second row the ghost under the controller icon and the keys' pressed looks;
/// the third row the gamepad buttons A, B, X and Y from its first frame on;
/// the fourth row their pressed looks. A pressed look is five frames after its
/// released look.
pub proof fn lemma_atlas_layout()
    ensures
        atlas_frame(UiIconSprite::NoController) == 0,
        atlas_frame(UiIconSprite::KeyboardButtonEmpty) == 1,
        atlas_frame(UiIconSprite::KeyboardSpace) == 2,
        atlas_frame(UiIconSprite::KeyboardEnter) == 3,
        atlas_frame(UiIconSprite::KeyboardBackspace) == 4,
        atlas_frame(UiIconSprite::GhostIcon) == atlas_frame(UiIconSprite::NoController) + 5,
        atlas_frame(UiIconSprite::GamepadButtonA) == 2 * 5,
        atlas_frame(UiIconSprite::GamepadButtonB) == 2 * 5 + 1,
        atlas_frame(UiIconSprite::GamepadButtonX) == 2 * 5 + 2,
        atlas_frame(UiIconSprite::GamepadButtonY) == 2 * 5 + 3,
        atlas_frame(UiIconSprite::KeyboardButtonEmptyPressed)
            == atlas_frame(UiIconSprite::KeyboardButtonEmpty) + 5,
        atlas_frame(UiIconSprite::KeyboardSpacePressed)
            == atlas_frame(UiIconSprite::KeyboardSpace) + 5,
        atlas_frame(UiIconSprite::KeyboardEnterPressed)
            == atlas_frame(UiIconSprite::KeyboardEnter) + 5,
        atlas_frame(UiIconSprite::KeyboardBackspacePressed)
            == atlas_frame(UiIconSprite::KeyboardBackspace) + 5,
        atlas_frame(UiIconSprite::GamepadButtonAPressed)
            == atlas_frame(UiIconSprite::GamepadButtonA) + 5,
        atlas_frame(UiIconSprite::GamepadButtonBPressed)
            == atlas_frame(UiIconSprite::GamepadButtonB) + 5,
        atlas_frame(UiIconSprite::GamepadButtonXPressed)
            == atlas_frame(UiIconSprite::GamepadButtonX) + 5,
        atlas_frame(UiIconSprite::GamepadButtonYPressed)
            == atlas_frame(UiIconSprite::GamepadButtonY) + 5,
{
}

impl UiIconSprite {
    /// The picture's frame in the icon atlas.
    pub fn atlas_index(&self) -> (r: usize)
        ensures
            r == atlas_frame(*self),
    {
        match self {
            UiIconSprite::NoController => 0,
            UiIconSprite::GhostIcon => 5,
            UiIconSprite::KeyboardButtonEmpty => 1,
            UiIconSprite::KeyboardButtonEmptyPressed => 6,
            UiIconSprite::KeyboardSpace => 2,
            UiIconSprite::KeyboardSpacePressed => 7,
            UiIconSprite::KeyboardEnter => 3,
            UiIconSprite::KeyboardEnterPressed => 8,
            UiIconSprite::KeyboardBackspace => 4,
            UiIconSprite::KeyboardBackspacePressed => 9,
            UiIconSprite::GamepadButtonA => 10,
            UiIconSprite::GamepadButtonAPressed => 15,
            UiIconSprite::GamepadButtonB => 11,
            UiIconSprite::GamepadButtonBPressed => 16,
            UiIconSprite::GamepadButtonX => 12,
            UiIconSprite::GamepadButtonXPressed => 17,
            UiIconSprite::GamepadButtonY => 13,
            UiIconSprite::GamepadButtonYPressed => 18,
        }
    }
}

/// Keyboard keys with an icon; any other key is drawn as an empty key with its
/// name on it.
pub enum KeyboardBtns {
    Space,
    Enter,
    Backspace,
    Other(String),
}

/// Gamepad buttons with an icon.
#[derive(Clone, Copy, Debug, PartialEq, Eq, Structural)]
pub enum GamepadBtns {
    A,
    B,
    X,
    Y,
}

/// An icon that a menu can show.
pub enum UiIcons {
    NoController,
    GhostIcon,
    KeyboardButton(KeyboardBtns),
    GamepadButton(GamepadBtns),
}

/// How an icon is drawn: the atlas frame it starts on, the animation that
/// flips it between its released and pressed looks (none for a still icon),
/// and the text drawn on it, if any.
pub struct InputIcon {
    pub index: usize,
    pub animation: Option<UiAtlasAnimation>,
    pub label: Option<String>,
}

/// The released and the pressed look of a button icon.
pub open spec fn button_frames(icon: &UiIcons) -> Seq<usize> {
    match icon {
        UiIcons::KeyboardButton(KeyboardBtns::Space) => seq![
            atlas_frame(UiIconSprite::KeyboardSpace),
            atlas_frame(UiIconSprite::KeyboardSpacePressed),
        ],
        UiIcons::KeyboardButton(KeyboardBtns::Enter) => seq![
            atlas_frame(UiIconSprite::KeyboardEnter),
            atlas_frame(UiIconSprite::KeyboardEnterPressed),
        ],
        UiIcons::KeyboardButton(KeyboardBtns::Backspace) => seq![
            atlas_frame(UiIconSprite::KeyboardBackspace),
            atlas_frame(UiIconSprite::KeyboardBackspacePressed),
        ],
        UiIcons::KeyboardButton(KeyboardBtns::Other(_)) => seq![
            atlas_frame(UiIconSprite::KeyboardButtonEmpty),
            atlas_frame(UiIconSprite::KeyboardButtonEmptyPressed),
        ],
        UiIcons::GamepadButton(GamepadBtns::A) => seq![
            atlas_frame(UiIconSprite::GamepadButtonA),
            atlas_frame(UiIconSprite::GamepadButtonAPressed),
        ],
        UiIcons::GamepadButton(GamepadBtns::B) => seq![
            atlas_frame(UiIconSprite::GamepadButtonB),
            atlas_frame(UiIconSprite::GamepadButtonBPressed),
        ],
        UiIcons::GamepadButton(GamepadBtns::X) => seq![
            atlas_frame(UiIconSprite::GamepadButtonX),
            atlas_frame(UiIconSprite::GamepadButtonXPressed),
        ],
        UiIcons::GamepadButton(GamepadBtns::Y) => seq![
            atlas_frame(UiIconSprite::GamepadButtonY),
            atlas_frame(UiIconSprite::GamepadButtonYPressed),
        ],
        _ => Seq::empty(),
    }
}

fn two_frames(released: UiIconSprite, pressed: UiIconSprite) -> (r: Vec<usize>)
    ensures
        r@ == seq![atlas_frame(released), atlas_frame(pressed)],
{
    let mut v: Vec<usize> = Vec::new();
    v.push(released.atlas_index());
    v.push(pressed.atlas_index());
    assert(v@ =~= seq![atlas_frame(released), atlas_frame(pressed)]);
    v
}

/// How to draw `icon`. The controller and ghost icons are still pictures. A
/// button icon starts on its released look and flips to its pressed look and
/// back every 0.4 s; a key without its own picture carries its name.
pub fn input_icon(icon: UiIcons) -> (r: InputIcon)
    ensures
        match icon {
            UiIcons::NoController => r.index == atlas_frame(UiIconSprite::NoController)
                && r.animation is None && r.label is None,
            UiIcons::GhostIcon => r.index == atlas_frame(UiIconSprite::GhostIcon) && r.animation is None
                && r.label is None,
            _ => {
                &&& r.animation matches Some(a) && {
                    &&& a.frames@ == button_frames(&icon)
                    &&& a.timer@ == TimerModel::start(UI_ICON_FRAME_NANOS, true)
                    &&& a.current_idx == 0
                }
                &&& r.index == button_frames(&icon)[0]
                &&& match icon {
                    UiIcons::KeyboardButton(KeyboardBtns::Other(k)) => r.label matches Some(l)
                        && l@ == k@,
                    _ => r.label is None,
                }
            },
        },
{
    match icon {
        UiIcons::NoController => InputIcon {
            index: UiIconSprite::NoController.atlas_index(),
            animation: None,
            label: None,
        },
        UiIcons::GhostIcon => InputIcon {
            index: UiIconSprite::GhostIcon.atlas_index(),
            animation: None,
            label: None,
        },
        UiIcons::KeyboardButton(btn) => {
            let (frames, label) = match btn {
                KeyboardBtns::Space => (
                    two_frames(UiIconSprite::KeyboardSpace, UiIconSprite::KeyboardSpacePressed),
                    None,
                ),
                KeyboardBtns::Enter => (
                    two_frames(UiIconSprite::KeyboardEnter, UiIconSprite::KeyboardEnterPressed),
                    None,
                ),
                KeyboardBtns::Backspace => (
                    two_frames(
                        UiIconSprite::KeyboardBackspace,
                        UiIconSprite::KeyboardBackspacePressed,
                    ),
                    None,
                ),
                KeyboardBtns::Other(key) => (
                    two_frames(
                        UiIconSprite::KeyboardButtonEmpty,
                        UiIconSprite::KeyboardButtonEmptyPressed,
                    ),
                    Some(key),
                ),
            };
            let index = frames[0];
            InputIcon {
                index,
                animation: Some(UiAtlasAnimation::new(frames, UI_ICON_FRAME_NANOS)),
                label,
            }
        },
        UiIcons::GamepadButton(btn) => {
            let frames = match btn {
                GamepadBtns::A => two_frames(
                    UiIconSprite::GamepadButtonA,
                    UiIconSprite::GamepadButtonAPressed,
                ),
                GamepadBtns::B => two_frames(
                    UiIconSprite::GamepadButtonB,
                    UiIconSprite::GamepadButtonBPressed,
                ),
                GamepadBtns::X => two_frames(
                    UiIconSprite::GamepadButtonX,
                    UiIconSprite::GamepadButtonXPressed,
                ),
                GamepadBtns::Y => two_frames(
                    UiIconSprite::GamepadButtonY,
                    UiIconSprite::GamepadButtonYPressed,
                ),
            };
            let index = frames[0];
            InputIcon {
                index,
                animation: Some(UiAtlasAnimation::new(frames, UI_ICON_FRAME_NANOS)),
                label: None,
            }
        },
    }
}

} // verus!
