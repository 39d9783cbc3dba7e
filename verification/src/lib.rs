//! Rules of a two-player tank battle game: player statistics, power-ups,
//! combat outcomes, level files and the level editor, HUD text, menus and
//! screen changes, player controls, sprite animation, and the random picks
//! of the game (power-ups, directions, weather).

pub mod text;
pub mod types;
pub mod terrain;
pub mod levels;
pub mod resources;
pub mod powerup_strategy;
pub mod combat;
pub mod tracker;
pub mod localization;
pub mod hud;
pub mod menu;
pub mod editor;
pub mod controls;
pub mod animation;
pub mod rng;
pub mod weather;
