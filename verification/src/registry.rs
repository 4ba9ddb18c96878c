//! The characters and worlds that can be picked in the menus.

use vstd::prelude::*;
use vstd::string::StringExecFns;

verus! {

/// A playable character: its display name and the folder of its sprite sheets.
pub struct CharacterData {
    pub name: String,
    pub sprite_path: String,
}

/// A world: its display name and the path of its LDtk project.
pub struct WorldData {
    pub name: String,
    pub ldtk_path: String,
}

/// Everything that can be picked: characters and worlds, in menu order.
pub struct GameRegistry {
    pub characters: Vec<CharacterData>,
    pub worlds: Vec<WorldData>,
}

impl Default for GameRegistry {
    /// Two archers and the cave world.
    fn default() -> (r: GameRegistry)
        ensures
            r.characters.len() == 2,
            r.characters[0].name@ == "Blue Archer"@,
            r.characters[0].sprite_path@ == "sprites/blue_archer"@,
            r.characters[1].name@ == "Green Archer"@,
            r.characters[1].sprite_path@ == "sprites/green_archer"@,
            r.worlds.len() == 1,
            r.worlds[0].name@ == "Cave"@,
            r.worlds[0].ldtk_path@ == "levels/cave.ldtk"@,
    {
        let mut characters: Vec<CharacterData> = Vec::new();
        characters.push(
            CharacterData {
                name: String::from_str("Blue Archer"),
                sprite_path: String::from_str("sprites/blue_archer"),
            },
        );
        characters.push(
            CharacterData {
                name: String::from_str("Green Archer"),
                sprite_path: String::from_str("sprites/green_archer"),
            },
        );
        let mut worlds: Vec<WorldData> = Vec::new();
        worlds.push(
            WorldData {
                name: String::from_str("Cave"),
                ldtk_path: String::from_str("levels/cave.ldtk"),
            },
        );
        GameRegistry { characters, worlds }
    }
}

} // verus!
