//! Sprite-sheet animation of the players and of the menu's input icons.

use vstd::prelude::*;

use crate::cycle::next_in_cycle;
use crate::registry::GameRegistry;
use crate::timer::{ActionTimer, TimerModel};
use vstd::string::StringExecFns;

verus! {

/// The frame of a texture atlas shown: the atlas layout (by asset id) and the
/// frame's index in it.
#[derive(Clone, Copy, Debug, PartialEq, Eq, Structural)]
pub struct AtlasFrame {
    pub layout: u64,
    pub index: usize,
}

/// What a sprite shows: its image (by asset id) and, when it is cut from an
/// atlas, the atlas frame.
#[derive(Clone, Copy, Debug, PartialEq, Eq, Structural)]
pub struct SpriteFrame {
    pub image: u64,
    pub texture_atlas: Option<AtlasFrame>,
}

/// Whether `sprite` already shows `texture` through an atlas of `layout`.
pub open spec fn shows(sprite: SpriteFrame, texture: u64, layout: u64) -> bool {
    &&& sprite.image == texture
    &&& sprite.texture_atlas matches Some(a) && a.layout == layout
}

/// `sprite` switched to `texture` and `layout` at frame `index`.
pub open spec fn switched(sprite: SpriteFrame, texture: u64, layout: u64, index: usize) -> SpriteFrame {
    SpriteFrame { image: texture, texture_atlas: Some(AtlasFrame { layout, index }) }
}

/// Switches `sprite` to `texture` and `layout` at frame `index` unless it
/// already shows them; returns whether it switched.
pub fn set_animation(sprite: &mut SpriteFrame, texture: u64, layout: u64, index: usize) -> (changed: bool)
    ensures
        changed == !shows(*old(sprite), texture, layout),
        *final(sprite) == (if changed {
            switched(*old(sprite), texture, layout, index)
        } else {
            *old(sprite)
        }),
{
    let same_layout = match sprite.texture_atlas {
        Some(atlas) => atlas.layout == layout,
        None => false,
    };
    let changed = sprite.image != texture || !same_layout;
    if changed {
        sprite.image = texture;
        sprite.texture_atlas = Some(AtlasFrame { layout, index });
    }
    changed
}

/// The sprite sheets of a player's character (by asset id): one texture and
/// one atlas layout for each animation.
#[derive(Clone, Copy, Debug, PartialEq, Eq, Structural)]
pub struct PlayerSprites {
    pub walking_texture: u64,
    pub walking_layout: u64,
    pub jumping_texture: u64,
    pub jumping_layout: u64,
    pub falling_texture: u64,
    pub falling_layout: u64,
    pub sliding_texture: u64,
    pub sliding_layout: u64,
}

/// What a player is doing, as far as its animation goes.
#[derive(Clone, Copy, Debug, PartialEq, Eq, Structural)]
pub struct PlayerMotion {
    pub grabbing_ledge: bool,
    pub sliding: bool,
    pub jumping: bool,
    pub falling: bool,
    pub walking: bool,
}

/// The animations of a player.
#[derive(Clone, Copy, Debug, PartialEq, Eq, Structural)]
pub enum PlayerAnimation {
    Sliding,
    Jumping,
    Falling,
    Walking,
}

/// Number of frames of the falling animation.
pub const FALLING_FRAMES: usize = 2;

/// Number of frames of the walking animation.
pub const WALKING_FRAMES: usize = 4;

/// Time per animation frame of a player: 0.1 s taken as an `f32` number of
/// seconds, in nanoseconds.
pub const PLAYER_FRAME_NANOS: u64 = 100_000_001;

/// The animation that a player's motion shows: sliding (also when hanging on a
/// ledge) before jumping, jumping before falling, walking (or standing) otherwise.
pub open spec fn animation_for(m: PlayerMotion) -> PlayerAnimation {
    if m.grabbing_ledge || m.sliding {
        PlayerAnimation::Sliding
    } else if m.jumping {
        PlayerAnimation::Jumping
    } else if m.falling {
        PlayerAnimation::Falling
    } else {
        PlayerAnimation::Walking
    }
}

/// The texture and the layout of an animation.
pub open spec fn sheet_of(s: PlayerSprites, a: PlayerAnimation) -> (u64, u64) {
    match a {
        PlayerAnimation::Sliding => (s.sliding_texture, s.sliding_layout),
        PlayerAnimation::Jumping => (s.jumping_texture, s.jumping_layout),
        PlayerAnimation::Falling => (s.falling_texture, s.falling_layout),
        PlayerAnimation::Walking => (s.walking_texture, s.walking_layout),
    }
}


/// The file name of an animation's sprite sheet within a character's folder.
pub open spec fn sheet_file(a: PlayerAnimation) -> Seq<char> {
    match a {
        PlayerAnimation::Sliding => "/sliding.png"@,
        PlayerAnimation::Jumping => "/jumping.png"@,
        PlayerAnimation::Falling => "/falling.png"@,
        PlayerAnimation::Walking => "/walking.png"@,
    }
}

/// The name of an animation, as its sheet's file is named.
pub open spec fn animation_name(a: PlayerAnimation) -> Seq<char> {
    match a {
        PlayerAnimation::Sliding => "sliding"@,
        PlayerAnimation::Jumping => "jumping"@,
        PlayerAnimation::Falling => "falling"@,
        PlayerAnimation::Walking => "walking"@,
    }
}

/// Each animation's sheet is the PNG file named after that animation, in the
/// character's folder: `/` + name + `.png`.
pub proof fn lemma_sheet_file_names_animation(a: PlayerAnimation)
    ensures
        sheet_file(a) == "/"@ + animation_name(a) + ".png"@,
{
    reveal_strlit("/");
    reveal_strlit(".png");
    reveal_strlit("sliding");
    reveal_strlit("jumping");
    reveal_strlit("falling");
    reveal_strlit("walking");
    reveal_strlit("/sliding.png");
    reveal_strlit("/jumping.png");
    reveal_strlit("/falling.png");
    reveal_strlit("/walking.png");
    assert(sheet_file(a) =~= "/"@ + animation_name(a) + ".png"@);
}

/// Distinct animations of one character load distinct sheets.
pub proof fn lemma_sheet_paths_distinct(folder: Seq<char>, a: PlayerAnimation, b: PlayerAnimation)
    requires
        a != b,
    ensures
        folder + sheet_file(a) != folder + sheet_file(b),
{
    reveal_strlit("/sliding.png");
    reveal_strlit("/jumping.png");
    reveal_strlit("/falling.png");
    reveal_strlit("/walking.png");
    let k: int = folder.len() as int + 1;
    assert((folder + sheet_file(a))[k] == sheet_file(a)[1]);
    assert((folder + sheet_file(b))[k] == sheet_file(b)[1]);
    assert(sheet_file(a)[1] != sheet_file(b)[1]);
}

/// Number of frames, side by side, of an animation's sprite sheet.
pub open spec fn sheet_columns(a: PlayerAnimation) -> u32 {
    match a {
        PlayerAnimation::Sliding => 2,
        PlayerAnimation::Jumping => 1,
        PlayerAnimation::Falling => FALLING_FRAMES as u32,
        PlayerAnimation::Walking => WALKING_FRAMES as u32,
    }
}

/// The asset path of the sprite sheet of `anim` for the registry's character
/// `char_id`: the character's folder followed by the sheet's file name.
pub fn sprite_sheet_path(registry: &GameRegistry, char_id: usize, anim: PlayerAnimation) -> (r: String)
    requires
        char_id < registry.characters.len(),
    ensures
        r@ == registry.characters[char_id as int].sprite_path@ + sheet_file(anim),
        r@ == registry.characters[char_id as int].sprite_path@ + "/"@ + animation_name(anim)
            + ".png"@,
{
    proof {
        lemma_sheet_file_names_animation(anim);
        let folder = registry.characters[char_id as int].sprite_path@;
        assert(folder + ("/"@ + animation_name(anim) + ".png"@) =~= folder + "/"@ + animation_name(
            anim,
        ) + ".png"@);
    }
    let folder = registry.characters[char_id].sprite_path.clone();
    match anim {
        PlayerAnimation::Sliding => folder.concat("/sliding.png"),
        PlayerAnimation::Jumping => folder.concat("/jumping.png"),
        PlayerAnimation::Falling => folder.concat("/falling.png"),
        PlayerAnimation::Walking => folder.concat("/walking.png"),
    }
}

/// Number of 16-pixel frames, side by side, in the sprite sheet of `anim`.
pub fn sprite_sheet_columns(anim: PlayerAnimation) -> (r: u32)
    ensures
        r == sheet_columns(anim),
{
    match anim {
        PlayerAnimation::Sliding => 2,
        PlayerAnimation::Jumping => 1,
        PlayerAnimation::Falling => 2,
        PlayerAnimation::Walking => 4,
    }
}

/// The timer that paces a player's animation frames.
pub struct AnimationTimer(pub ActionTimer);

impl AnimationTimer {
    /// A repeating timer of one frame's time.
    pub fn new() -> (r: AnimationTimer)
        ensures
            r.0@ == TimerModel::start(PLAYER_FRAME_NANOS, true),
    {
        AnimationTimer(ActionTimer::repeating(PLAYER_FRAME_NANOS))
    }

    /// Whether the frame timer is in its finished state.
    pub fn is_finished(&self) -> (r: bool)
        ensures
            r == self.0@.finished,
    {
        self.0.is_finished()
    }
}

/// The atlas frame index of a sprite that has an atlas.
pub open spec fn frame_index(s: SpriteFrame) -> usize {
    s.texture_atlas->0.index
}

/// `s` with its atlas frame index set to `i`.
pub open spec fn with_index(s: SpriteFrame, i: usize) -> SpriteFrame {
    SpriteFrame { texture_atlas: Some(AtlasFrame { index: i, ..s.texture_atlas->0 }), ..s }
}

/// The sprite and the timer after a frame of animation, as `animate_player` states it.
pub open spec fn animated(
    m: PlayerMotion,
    sprite: SpriteFrame,
    sheets: PlayerSprites,
    timer: TimerModel,
    delta: u64,
) -> (SpriteFrame, TimerModel) {
    let anim = animation_for(m);
    let sheet = sheet_of(sheets, anim);
    let changed = !shows(sprite, sheet.0, sheet.1);
    let s1 = if changed {
        switched(sprite, sheet.0, sheet.1, 0)
    } else {
        sprite
    };
    let t1 = if changed {
        timer.restarted()
    } else {
        timer
    };
    match anim {
        PlayerAnimation::Sliding => (s1, t1),
        PlayerAnimation::Jumping => (s1, t1),
        PlayerAnimation::Falling => {
            let t2 = t1.ticked(delta);
            if t2.times_finished_this_tick > 0 {
                (with_index(s1, ((frame_index(s1) + 1) % (FALLING_FRAMES as int)) as usize), t2)
            } else {
                (s1, t2)
            }
        },
        PlayerAnimation::Walking => {
            if m.walking {
                let t2 = t1.ticked(delta);
                if t2.times_finished_this_tick > 0 {
                    (with_index(s1, ((frame_index(s1) + 1) % (WALKING_FRAMES as int)) as usize), t2)
                } else {
                    (s1, t2)
                }
            } else {
                (with_index(s1, 0), t1.restarted())
            }
        },
    }
}


/// Setting the same animation twice in a row changes nothing the second time:
/// after `set_animation` the sprite shows the requested sheet.
pub proof fn lemma_set_animation_settles(sprite: SpriteFrame, texture: u64, layout: u64, index: usize)
    ensures
        shows(
            if !shows(sprite, texture, layout) {
                switched(sprite, texture, layout, index)
            } else {
                sprite
            },
            texture,
            layout,
        ),
{
}

/// After a frame of animation the sprite shows the sheet of the animation that
/// the player's motion calls for.
pub proof fn lemma_animation_follows_motion(
    m: PlayerMotion,
    sprite: SpriteFrame,
    sheets: PlayerSprites,
    timer: TimerModel,
    delta: u64,
)
    ensures
        shows(
            animated(m, sprite, sheets, timer, delta).0,
            sheet_of(sheets, animation_for(m)).0,
            sheet_of(sheets, animation_for(m)).1,
        ),
{
}

/// While a player walks (and does nothing else) on the walking sheet, each
/// finish of the frame timer moves the sheet one frame on, round its four
/// frames: frame `i` is followed by frame `i + 1`, and the fourth frame by the
/// first. The timer is only ticked; a frame without a finish keeps the picture.
pub proof fn lemma_walking_steps_through_four_frames(
    m: PlayerMotion,
    sprite: SpriteFrame,
    sheets: PlayerSprites,
    timer: TimerModel,
    delta: u64,
)
    requires
        !m.grabbing_ledge,
        !m.sliding,
        !m.jumping,
        !m.falling,
        m.walking,
        shows(sprite, sheets.walking_texture, sheets.walking_layout),
    ensures
        animated(m, sprite, sheets, timer, delta).1 == timer.ticked(delta),
        timer.ticked(delta).times_finished_this_tick > 0 ==> animated(
            m,
            sprite,
            sheets,
            timer,
            delta,
        ).0 == (SpriteFrame {
            image: sheets.walking_texture,
            texture_atlas: Some(
                AtlasFrame {
                    layout: sheets.walking_layout,
                    index: ((sprite.texture_atlas->0.index + 1) % 4) as usize,
                },
            ),
        }),
        timer.ticked(delta).times_finished_this_tick == 0 ==> animated(
            m,
            sprite,
            sheets,
            timer,
            delta,
        ).0 == sprite,
        sprite.texture_atlas->0.index < 3 && timer.ticked(delta).times_finished_this_tick > 0
            ==> animated(m, sprite, sheets, timer, delta).0.texture_atlas->0.index
            == sprite.texture_atlas->0.index + 1,
        sprite.texture_atlas->0.index == 3 && timer.ticked(delta).times_finished_this_tick > 0
            ==> animated(m, sprite, sheets, timer, delta).0.texture_atlas->0.index == 0,
{
}

/// While a player falls (and neither hangs, slides nor jumps) on the falling
/// sheet, each finish of the frame timer flips between the sheet's two frames:
/// frame `i` is followed by frame `(i + 1) % 2`.
pub proof fn lemma_falling_steps_through_two_frames(
    m: PlayerMotion,
    sprite: SpriteFrame,
    sheets: PlayerSprites,
    timer: TimerModel,
    delta: u64,
)
    requires
        !m.grabbing_ledge,
        !m.sliding,
        !m.jumping,
        m.falling,
        shows(sprite, sheets.falling_texture, sheets.falling_layout),
    ensures
        animated(m, sprite, sheets, timer, delta).1 == timer.ticked(delta),
        timer.ticked(delta).times_finished_this_tick > 0 ==> animated(
            m,
            sprite,
            sheets,
            timer,
            delta,
        ).0 == (SpriteFrame {
            image: sheets.falling_texture,
            texture_atlas: Some(
                AtlasFrame {
                    layout: sheets.falling_layout,
                    index: ((sprite.texture_atlas->0.index + 1) % 2) as usize,
                },
            ),
        }),
        timer.ticked(delta).times_finished_this_tick == 0 ==> animated(
            m,
            sprite,
            sheets,
            timer,
            delta,
        ).0 == sprite,
{
}

/// One frame of a player's animation: shows the sheet of `animation_for`,
/// restarting the frame timer when the sheet changes; the falling and walking
/// sheets step to their next frame each time the timer finishes, and a player
/// who stands shows the first walking frame with the timer at rest.
pub fn animate_player(
    motion: &PlayerMotion,
    sprite: &mut SpriteFrame,
    sheets: &PlayerSprites,
    timer: &mut AnimationTimer,
    delta_nanos: u64,
)
    ensures
        (*final(sprite), final(timer).0@) == animated(
            *motion,
            *old(sprite),
            *sheets,
            old(timer).0@,
            delta_nanos,
        ),
        ({
            let walks_only = !motion.grabbing_ledge && !motion.sliding && !motion.jumping
                && !motion.falling && motion.walking;
            walks_only && shows(*old(sprite), sheets.walking_texture, sheets.walking_layout)
                && old(timer).0@.ticked(delta_nanos).times_finished_this_tick > 0
                ==> final(sprite).texture_atlas == Some(
                AtlasFrame {
                    layout: sheets.walking_layout,
                    index: ((old(sprite).texture_atlas->0.index + 1) % 4) as usize,
                },
            )
        }),
{
    proof {
        if !motion.grabbing_ledge && !motion.sliding && !motion.jumping && !motion.falling
            && motion.walking && shows(*sprite, sheets.walking_texture, sheets.walking_layout) {
            lemma_walking_steps_through_four_frames(*motion, *sprite, *sheets, timer.0@, delta_nanos);
        }
    }
    if motion.grabbing_ledge || motion.sliding {
        if set_animation(sprite, sheets.sliding_texture, sheets.sliding_layout, 0) {
            timer.0.reset();
        }
        return ;
    } else if motion.jumping {
        if set_animation(sprite, sheets.jumping_texture, sheets.jumping_layout, 0) {
            timer.0.reset();
        }
        return ;
    } else if motion.falling {
        if set_animation(sprite, sheets.falling_texture, sheets.falling_layout, 0) {
            timer.0.reset();
        }
        timer.0.tick(delta_nanos);
        if timer.0.just_finished() {
            if let Some(atlas) = sprite.texture_atlas {
                sprite.texture_atlas = Some(
                    AtlasFrame { index: next_in_cycle(atlas.index, FALLING_FRAMES), ..atlas },
                );
            }
        }
        return ;
    }
    if set_animation(sprite, sheets.walking_texture, sheets.walking_layout, 0) {
        timer.0.reset();
    }
    if motion.walking {
        timer.0.tick(delta_nanos);
        if timer.0.just_finished() {
            if let Some(atlas) = sprite.texture_atlas {
                sprite.texture_atlas = Some(
                    AtlasFrame { index: next_in_cycle(atlas.index, WALKING_FRAMES), ..atlas },
                );
            }
        }
    } else {
        timer.0.reset();
        if let Some(atlas) = sprite.texture_atlas {
            sprite.texture_atlas = Some(AtlasFrame { index: 0, ..atlas });
        }
    }
}

/// Time per frame of an animated menu icon: 0.4 s taken as an `f32` number of
/// seconds, in nanoseconds.
pub const UI_ICON_FRAME_NANOS: u64 = 400_000_006;

/// A menu icon that cycles through atlas frames.
pub struct UiAtlasAnimation {
    pub frames: Vec<usize>,
    pub timer: ActionTimer,
    pub current_idx: usize,
}

impl UiAtlasAnimation {
    /// An animation over `frames`, `interval_nanos` per frame, at its first frame.
    pub fn new(frames: Vec<usize>, interval_nanos: u64) -> (r: UiAtlasAnimation)
        ensures
            r.frames@ == frames@,
            r.timer@ == TimerModel::start(interval_nanos, true),
            r.current_idx == 0,
    {
        UiAtlasAnimation { frames, timer: ActionTimer::repeating(interval_nanos), current_idx: 0 }
    }
}

/// One frame of an animated menu icon: the timer runs for `delta_nanos`; each
/// time it finishes the icon steps to its next frame (wrapping around), shows
/// it if it is cut from an atlas, and returns whether the icon's label is to be
/// pushed down (on the second frame, the pressed look); otherwise returns `None`.
pub fn animate_ui_icons(
    anim: &mut UiAtlasAnimation,
    atlas_index: &mut Option<usize>,
    delta_nanos: u64,
) -> (r: Option<bool>)
    requires
        old(anim).timer@.ticked(delta_nanos).times_finished_this_tick > 0 ==> old(anim).frames.len()
            > 0,
    ensures
        final(anim).timer@ == old(anim).timer@.ticked(delta_nanos),
        final(anim).frames@ == old(anim).frames@,
        ({
            if old(anim).timer@.ticked(delta_nanos).times_finished_this_tick > 0 {
                let idx = ((old(anim).current_idx + 1) % (old(anim).frames.len() as int)) as usize;
                &&& final(anim).current_idx == idx
                &&& *final(atlas_index) == (if (*old(atlas_index)) is Some {
                    Some(old(anim).frames[idx as int])
                } else {
                    None
                })
                &&& r == Some(idx == 1)
            } else {
                &&& final(anim).current_idx == old(anim).current_idx
                &&& *final(atlas_index) == *old(atlas_index)
                &&& r is None
            }
        }),
{
    anim.timer.tick(delta_nanos);
    if anim.timer.just_finished() {
        anim.current_idx = next_in_cycle(anim.current_idx, anim.frames.len());
        if atlas_index.is_some() {
            *atlas_index = Some(anim.frames[anim.current_idx]);
        }
        Some(anim.current_idx == 1)
    } else {
        None
    }
}

} // verus!
