//! What the game reads from the LDtk projects it loads: the size of the level
//! on show and the role of each layer.

use vstd::prelude::*;
use vstd::string::StringExecFns;

verus! {

/// What looking up the selected level in one loaded world gave.
#[derive(Clone, Copy, Debug, PartialEq, Eq, Structural)]
pub enum LevelLookup {
    /// The world's project is not loaded yet.
    ProjectNotLoaded,
    /// The project has no level that the level selection names.
    LevelNotFound,
    /// The selected level, with its size in pixels.
    Found { px_wid: i32, px_hei: i32 },
}

/// The size of a level in pixels.
#[derive(Clone, Copy, Debug, PartialEq, Eq, Structural)]
pub struct LevelSize {
    pub width: i32,
    pub height: i32,
}

/// The size of the level on show, going through the worlds in order: the first
/// selected level with a positive width and height; none as soon as a world's
/// project is not loaded or lacks the level, nor when no level has a size.
pub open spec fn resolved_level_size(lookups: Seq<LevelLookup>) -> Option<LevelSize>
    decreases lookups.len(),
{
    if lookups.len() == 0 {
        None
    } else {
        match lookups[0] {
            LevelLookup::Found { px_wid, px_hei } => {
                if px_wid > 0 && px_hei > 0 {
                    Some(LevelSize { width: px_wid, height: px_hei })
                } else {
                    resolved_level_size(lookups.drop_first())
                }
            },
            _ => None,
        }
    }
}

/// The size of the level on show, from the lookups in each loaded world.
pub fn resolve_level_size(lookups: &Vec<LevelLookup>) -> (r: Option<LevelSize>)
    ensures
        r == resolved_level_size(lookups@),
        r matches Some(s) ==> s.width > 0 && s.height > 0,
{
    let mut i: usize = 0;
    assert(lookups@.skip(0) =~= lookups@);
    while i < lookups.len()
        invariant
            i <= lookups.len(),
            resolved_level_size(lookups@) == resolved_level_size(lookups@.skip(i as int)),
        decreases lookups.len() - i,
    {
        assert(lookups@.skip(i as int).drop_first() =~= lookups@.skip(i as int + 1));
        assert(lookups@.skip(i as int)[0] == lookups@[i as int]);
        match lookups[i] {
            LevelLookup::Found { px_wid, px_hei } => {
                if px_wid > 0 && px_hei > 0 {
                    return Some(LevelSize { width: px_wid, height: px_hei });
                }
            },
            _ => {
                return None;
            },
        }
        i = i + 1;
    }
    assert(lookups@.skip(i as int) =~= Seq::<LevelLookup>::empty());
    None
}

/// The role of an LDtk layer in the game's drawing order.
#[derive(Clone, Copy, Debug, PartialEq, Eq, Structural)]
pub enum LayerPlacement {
    /// `VisualBackground`: drawn behind the players.
    Background,
    /// `VisualForeground`: drawn in front of the players.
    Foreground,
    /// `Collisions` or `Entities`: left where it is.
    Unchanged,
    /// Any other layer: left where it is, with a warning.
    Unrecognized,
}

/// The role of the layer named `identifier` (names are case-sensitive).
pub open spec fn placement_of(identifier: Seq<char>) -> LayerPlacement {
    if identifier == "VisualBackground"@ {
        LayerPlacement::Background
    } else if identifier == "VisualForeground"@ {
        LayerPlacement::Foreground
    } else if identifier == "Collisions"@ || identifier == "Entities"@ {
        LayerPlacement::Unchanged
    } else {
        LayerPlacement::Unrecognized
    }
}

/// The role of the layer named `identifier`.
pub fn layer_placement(identifier: &str) -> (r: LayerPlacement)
    ensures
        r == placement_of(identifier@),
{
    let name = String::from_str(identifier);
    if name == String::from_str("VisualBackground") {
        LayerPlacement::Background
    } else if name == String::from_str("VisualForeground") {
        LayerPlacement::Foreground
    } else if name == String::from_str("Collisions") || name == String::from_str("Entities") {
        LayerPlacement::Unchanged
    } else {
        LayerPlacement::Unrecognized
    }
}

} // verus!
