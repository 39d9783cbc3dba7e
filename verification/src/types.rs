//! Shared game vocabulary: tank owners, game modes, languages, game states,
//! statistic kinds and the numeric limits of the rules.

use vstd::prelude::*;

verus! {

/// Highest value of the percentage attributes (speed, fire speed, protection).
pub const MAX_ATTRIBUTE_VALUE: usize = 100;

/// Value of each percentage attribute when a player enters a stage.
pub const INITIAL_ATTRIBUTE_VALUE: usize = 40;

/// Amount by which an attribute power-up raises, and a barrier lowers, an attribute.
pub const POWERUP_ATTRIBUTE_INCREASE: usize = 20;

/// Highest number of life points of a player.
pub const MAX_LIFE_POINTS: usize = 3;

/// Highest number of energy points of a player.
pub const MAX_ENERGY_POINTS: usize = 3;

/// Highest number of life points of the commander.
pub const COMMANDER_LIFE_MAX: usize = 3;

/// Highest number of shells a player tank keeps in flight.
pub const MAX_SHELLS: usize = 2;

/// Enemy tanks a stage sends in total.
pub const ENEMIES_PER_LEVEL: usize = 10;

/// Enemy tanks (born or being born) allowed on the field at once.
pub const MAX_ENEMY_ON_SCREEN: usize = 4;

/// Points a player earns for destroying an enemy tank.
pub const ENEMY_KILL_SCORE: usize = 100;

/// Energy points a dash costs.
pub const DASH_ENERGY_COST: usize = 1;

/// Energy points needed to start charging the laser.
pub const LASER_ENERGY_COST: usize = 3;

/// Energy points firing the laser costs.
pub const LASER_SHOT_ENERGY_COST: usize = 1;

/// Protection (percent) from which a dash into steel breaks the steel.
pub const STEEL_BREAK_PROTECTION: usize = 100;

/// Protection (percent) below which a dash collision costs two life points.
pub const DASH_HEAVY_DAMAGE_BELOW: usize = 40;

/// Protection (percent) below which a dash collision costs one life point.
pub const DASH_LIGHT_DAMAGE_BELOW: usize = 80;

/// Life points of a heavy enemy tank.
pub const ENEMY_HEAVY_LIFE: usize = 4;

/// Life points of a light enemy tank.
pub const ENEMY_LIGHT_LIFE: usize = 1;

/// Life points of a normal or fire enemy tank.
pub const ENEMY_NORMAL_LIFE: usize = 2;

/// Stages that exist even when fewer level files are found.
pub const MIN_LEVELS: usize = 10;

/// Who owns a tank (and therefore its shells).
#[derive(Clone, Copy, PartialEq, Eq, Structural, Debug, Hash)]
pub enum TankType {
    Player1,
    Player2,
    Enemy,
}

/// One or two human players.
#[derive(Clone, Copy, PartialEq, Eq, Structural, Debug)]
pub enum GameMode {
    OnePlayer,
    TwoPlayers,
}

impl Default for GameMode {
    fn default() -> (r: Self)
        ensures
            r == GameMode::OnePlayer,
    {
        GameMode::OnePlayer
    }
}

/// Language of the texts on screen.
#[derive(Clone, Copy, PartialEq, Eq, Structural, Debug)]
pub enum Language {
    Chinese,
    English,
}

impl Default for Language {
    fn default() -> (r: Self)
        ensures
            r == Language::Chinese,
    {
        Language::Chinese
    }
}

impl Language {
    /// The other language; the start menu's language entry switches to it.
    pub fn toggled(self) -> (r: Self)
        ensures
            self == Language::Chinese ==> r == Language::English,
            self == Language::English ==> r == Language::Chinese,
    {
        match self {
            Language::Chinese => Language::English,
            Language::English => Language::Chinese,
        }
    }
}

/// Screens and phases of the game.
#[derive(Clone, Copy, PartialEq, Eq, Structural, Debug, Hash)]
pub enum GameState {
    StartScreen,
    FadingOut,
    StageIntro,
    Playing,
    Paused,
    GameOver,
    About,
    Credits,
    LevelEditor,
}

impl Default for GameState {
    fn default() -> (r: Self)
        ensures
            r == GameState::StartScreen,
    {
        GameState::StartScreen
    }
}

/// Which statistic of a player changed (drives the HUD blink).
#[derive(Clone, Copy, PartialEq, Eq, Structural, Debug)]
pub enum StatType {
    Score,
    Speed,
    Protection,
    FireSpeed,
    FireShell,
    TrackChain,
    Penetrate,
    AirCushion,
    Shell,
}

/// Kinds of enemy tank.
#[derive(Clone, Copy, PartialEq, Eq, Structural, Debug)]
pub enum EnemyTankType {
    Normal,
    Fire,
    Heavy,
    Light,
}

impl EnemyTankType {
    /// Life points an enemy tank of this kind is born with.
    pub fn max_life(self) -> (r: usize)
        ensures
            r == match self {
                EnemyTankType::Heavy => ENEMY_HEAVY_LIFE,
                EnemyTankType::Light => ENEMY_LIGHT_LIFE,
                _ => ENEMY_NORMAL_LIFE,
            },
    {
        match self {
            EnemyTankType::Heavy => ENEMY_HEAVY_LIFE,
            EnemyTankType::Light => ENEMY_LIGHT_LIFE,
            EnemyTankType::Normal => ENEMY_NORMAL_LIFE,
            EnemyTankType::Fire => ENEMY_NORMAL_LIFE,
        }
    }
}

} // verus!
