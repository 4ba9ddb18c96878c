//! Game rules of a local multiplayer archery platformer: menu flow, player
//! slots, animation frames, level data and movement decisions.

pub mod cycle;
pub mod timer;
pub mod states;
pub mod controls;
pub mod registry;
pub mod menu;
pub mod animation;
pub mod icons;
pub mod level;
pub mod movement;
pub mod arrow;
pub mod camera;
pub mod screens;
