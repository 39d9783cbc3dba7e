# tank_battle

The rules of a two-player tank battle game (in the style of Battle City),
written in Verus and proved against their contracts.

- `src/` — the verified library:
  - `types`, `resources`: players' statistics, the commander, enemy lives,
    the enemy spawn counter, stage completion and game over;
  - `powerup_strategy`: the ten power-ups and what picking one up does;
  - `combat`: shells, dashes, barriers and the laser; `tracker`: shells in
    flight per tank;
  - `terrain`, `levels`: terrain kinds, the level file format (a saved map
    reads back as the same map), the stage store and level file names;
  - `editor`: the level editor's map, typed level number and panels;
  - `localization`, `hud`, `text`: texts in Chinese and English, HUD lines;
  - `menu`: menu navigation and what each screen's keys lead to;
  - `controls`, `animation`: key bindings, recall, sprite frames;
  - `rng`, `weather`: random picks and the weather of a stage.
- `tests/` — tests on concrete values.
- `app/` — start-up on a desktop: level files on disk, the clock-seeded
  generator, and figures of motion in floating point.
