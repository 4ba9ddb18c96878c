//! The decisions of a player's movement in a frame: reading the direction
//! keys, walls nearby, wall slides, jumps and ledge grabs. The positions and
//! speeds themselves are real numbers kept outside this library; the
//! collision tests against walls arrive here as their outcomes.

use vstd::prelude::*;

verus! {

/// A side of the player.
#[derive(Clone, Copy, Debug, PartialEq, Eq, Structural)]
pub enum Side {
    Left,
    Right,
}

/// The horizontal input of a frame: -1, 0 or 1 along the x axis, and the
/// side the player turns to, if a direction is held.
#[derive(Clone, Copy, Debug, PartialEq, Eq, Structural)]
pub struct HorizontalInput {
    pub axis: i8,
    pub facing: Option<Side>,
}

/// The horizontal input for the held keys: holding both directions cancels out
/// and turns the player right.
pub fn horizontal_input(left_held: bool, right_held: bool) -> (r: HorizontalInput)
    ensures
        r.axis == (if right_held { 1int } else { 0int }) - (if left_held { 1int } else { 0int }),
        r.facing == (if right_held {
            Some(Side::Right)
        } else if left_held {
            Some(Side::Left)
        } else {
            None
        }),
{
    let mut axis: i8 = 0;
    let mut facing: Option<Side> = None;
    if left_held {
        axis = axis - 1;
        facing = Some(Side::Left);
    }
    if right_held {
        axis = axis + 1;
        facing = Some(Side::Right);
    }
    HorizontalInput { axis, facing }
}

/// The axis value of a side: -1 for left, 1 for right.
pub open spec fn side_axis(s: Side) -> int {
    match s {
        Side::Left => -1,
        Side::Right => 1,
    }
}

/// What a player who hangs on a ledge does this frame.
#[derive(Clone, Copy, Debug, PartialEq, Eq, Structural)]
pub enum LedgeHold {
    /// Jumps up off the ledge; the frame's movement ends for all players.
    ClimbUp,
    /// Lets go because no wall is beside it; the frame's movement ends for all players.
    LostWall,
    /// Lets go and stays put this frame.
    LetGo,
    /// Keeps hanging.
    Hold,
}

/// The choice of a player who hangs on a ledge: a jump (Space, Up or W)
/// climbs; without a wall beside it lets go; pressing Down or S, or no longer
/// holding towards the wall, lets go; otherwise it keeps hanging.
pub fn ledge_hold(
    jump_pressed: bool,
    on_wall: Option<Side>,
    down_pressed: bool,
    left_held: bool,
    right_held: bool,
) -> (r: LedgeHold)
    ensures
        r == (if jump_pressed {
            LedgeHold::ClimbUp
        } else if on_wall is None {
            LedgeHold::LostWall
        } else if down_pressed || (on_wall == Some(Side::Left) && !left_held) || (on_wall == Some(
            Side::Right,
        ) && !right_held) {
            LedgeHold::LetGo
        } else {
            LedgeHold::Hold
        }),
{
    if jump_pressed {
        return LedgeHold::ClimbUp;
    }
    let wall = match on_wall {
        Some(side) => side,
        None => {
            return LedgeHold::LostWall;
        },
    };
    if down_pressed || (wall == Side::Left && !left_held) || (wall == Side::Right && !right_held) {
        LedgeHold::LetGo
    } else {
        LedgeHold::Hold
    }
}

/// A jump that the Space key starts.
#[derive(Clone, Copy, Debug, PartialEq, Eq, Structural)]
pub enum JumpAction {
    NoJump,
    /// From the ground.
    FromGround,
    /// Off the wall on the given side, away from it.
    OffWall(Side),
}

/// The jump for this frame: from the ground when not airborne, off a wall when
/// airborne beside one, none otherwise or without the key.
pub fn jump_action(jump_pressed: bool, airborne: bool, on_wall: Option<Side>) -> (r: JumpAction)
    ensures
        r == (if !jump_pressed {
            JumpAction::NoJump
        } else if !airborne {
            JumpAction::FromGround
        } else {
            match on_wall {
                Some(s) => JumpAction::OffWall(s),
                None => JumpAction::NoJump,
            }
        }),
{
    if jump_pressed {
        if !airborne {
            return JumpAction::FromGround;
        } else if let Some(side) = on_wall {
            return JumpAction::OffWall(side);
        }
    }
    JumpAction::NoJump
}

/// The first wall, in the order walls are tried, that the moved player hits;
/// the player is put back against that wall alone.
pub fn first_collision(hits: &Vec<bool>) -> (r: Option<usize>)
    ensures
        r matches Some(i) ==> i < hits.len() && hits@[i as int] && forall|k: int| 0 <= k < i ==> !hits@[k],
        r is None ==> forall|k: int| 0 <= k < hits.len() ==> !hits@[k],
{
    let mut i: usize = 0;
    while i < hits.len()
        invariant
            i <= hits.len(),
            forall|k: int| 0 <= k < i ==> !hits@[k],
        decreases hits.len() - i,
    {
        if hits[i] {
            return Some(i);
        }
        i = i + 1;
    }
    None
}

/// The wall beside the player: the first wall, in order, that touches the box
/// one pixel to its left or to its right; the left box is tested first.
pub open spec fn wall_beside(hits: Seq<(bool, bool)>) -> Option<Side>
    decreases hits.len(),
{
    if hits.len() == 0 {
        None
    } else if hits[0].0 {
        Some(Side::Left)
    } else if hits[0].1 {
        Some(Side::Right)
    } else {
        wall_beside(hits.drop_first())
    }
}

/// The wall beside the player, from each wall's hits of the left and the right
/// test box.
pub fn wall_contact(hits: &Vec<(bool, bool)>) -> (r: Option<Side>)
    ensures
        r == wall_beside(hits@),
{
    let mut i: usize = 0;
    assert(hits@.skip(0) =~= hits@);
    while i < hits.len()
        invariant
            i <= hits.len(),
            wall_beside(hits@) == wall_beside(hits@.skip(i as int)),
        decreases hits.len() - i,
    {
        assert(hits@.skip(i as int).drop_first() =~= hits@.skip(i as int + 1));
        assert(hits@.skip(i as int)[0] == hits@[i as int]);
        let (left, right) = hits[i];
        if left {
            return Some(Side::Left);
        }
        if right {
            return Some(Side::Right);
        }
        i = i + 1;
    }
    assert(hits@.skip(i as int) =~= Seq::<(bool, bool)>::empty());
    None
}

/// Whether the player slides down a wall: airborne, moving down, beside a wall
/// and holding towards it.
pub fn sliding_now(on_wall: Option<Side>, airborne: bool, moving_down: bool, axis: i8) -> (r: bool)
    ensures
        r == (on_wall matches Some(s) && (airborne && moving_down && axis as int == side_axis(s))),
{
    match on_wall {
        Some(side) => {
            let dir: i8 = match side {
                Side::Left => -1,
                Side::Right => 1,
            };
            airborne && moving_down && axis == dir
        },
        None => false,
    }
}

/// Whether the player may catch a ledge: airborne, moving down, beside a wall,
/// holding towards it and facing it.
pub fn ledge_grab_possible(
    airborne: bool,
    moving_down: bool,
    on_wall: Option<Side>,
    axis: i8,
    facing: Side,
) -> (r: bool)
    ensures
        r == (airborne && moving_down && (on_wall matches Some(s) && axis as int == side_axis(s)
            && s == facing)),
{
    match on_wall {
        Some(side) => {
            let dir: i8 = match side {
                Side::Left => -1,
                Side::Right => 1,
            };
            airborne && moving_down && dir == axis && side == facing
        },
        None => false,
    }
}

/// Whether the player catches a ledge, from each wall's hits of three test
/// boxes (under the feet, at the head, at the knees on the wall's side): no
/// wall is under the feet or at the head, and some wall is at the knees.
pub open spec fn ledge_caught(hits: Seq<(bool, bool, bool)>) -> bool {
    &&& forall|i: int| 0 <= i < hits.len() ==> !(#[trigger] hits[i]).0 && !hits[i].1
    &&& exists|i: int| 0 <= i < hits.len() && (#[trigger] hits[i]).2
}

/// Whether the player catches a ledge. The walls are tried in order; a wall
/// under the feet or at the head ends the search.
pub fn ledge_grab_detected(hits: &Vec<(bool, bool, bool)>) -> (r: bool)
    ensures
        r == ledge_caught(hits@),
{
    let mut bottom_clear = true;
    let mut head_clear = true;
    let mut knees_touch = false;
    let mut i: usize = 0;
    while i < hits.len()
        invariant_except_break
            bottom_clear && head_clear,
            forall|k: int| 0 <= k < i ==> !(#[trigger] hits@[k]).0 && !hits@[k].1,
            knees_touch == exists|k: int| 0 <= k < i && (#[trigger] hits@[k]).2,
        invariant
            i <= hits.len(),
        ensures
            bottom_clear && head_clear ==> {
                &&& forall|k: int| 0 <= k < hits.len() ==> !(#[trigger] hits@[k]).0 && !hits@[k].1
                &&& knees_touch == exists|k: int| 0 <= k < hits.len() && (#[trigger] hits@[k]).2
            },
            !(bottom_clear && head_clear) ==> exists|k: int|
                0 <= k < hits.len() && ((#[trigger] hits@[k]).0 || hits@[k].1),
        decreases hits.len() - i,
    {
        let (bottom, head, knees) = hits[i];
        if bottom {
            bottom_clear = false;
            break;
        }
        if head {
            head_clear = false;
            break;
        }
        if knees {
            knees_touch = true;
        }
        i = i + 1;
    }
    bottom_clear && head_clear && knees_touch
}

} // verus!
