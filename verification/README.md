# opentfa

The rules of a local multiplayer archery platformer, as a verified library,
and the Bevy game around it.

- `src/` — the library, verified with Verus:
  - `menu.rs`: player slots, joining, character/world/level selection, with
    laws on device uniqueness, list navigation and character choice;
  - `screens.rs`: what the selection screens show;
  - `animation.rs`: player and icon animation frames;
  - `movement.rs`: a player's movement choices (walls, slides, jumps, ledges);
  - `level.rs`, `camera.rs`, `arrow.rs`, `icons.rs`, `controls.rs`,
    `registry.rs`, `states.rs`, `cycle.rs` (wrap-around steps);
  - `timer.rs`: `bevy::time::Timer` with a plain-value model of its ticks.
- `tests/` — tests of the library.
- `app/` — the Bevy game: rendering, input devices, LDtk levels, and the
  floating-point physics, calling the library for every decision.
