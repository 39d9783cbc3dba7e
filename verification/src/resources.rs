//! Player statistics and the other counters the rules keep: the players'
//! attributes and effects, the commander's life, enemy lives and the enemy
//! spawn counter of a stage.

use vstd::prelude::*;
use crate::types::{
    GameMode, TankType, COMMANDER_LIFE_MAX, ENEMIES_PER_LEVEL, INITIAL_ATTRIBUTE_VALUE,
    MAX_ATTRIBUTE_VALUE, MAX_ENEMY_ON_SCREEN, MAX_ENERGY_POINTS, MAX_LIFE_POINTS, MAX_SHELLS,
};

verus! {

/// Attributes, effects and counters of one player.
#[derive(Clone, Copy, Debug, PartialEq, Eq, Structural)]
pub struct PlayerStats {
    /// Movement speed bonus, in percent.
    pub speed: usize,
    /// Shell speed bonus, in percent.
    pub fire_speed: usize,
    /// Armour, in percent.
    pub protection: usize,
    /// Shells the tank may have in flight at once.
    pub shells: usize,
    pub penetrate: bool,
    pub track_chain: bool,
    pub air_cushion: bool,
    pub fire_shell: bool,
    /// Life points, at most `MAX_LIFE_POINTS`.
    pub life_points: usize,
    /// Energy points, at most `MAX_ENERGY_POINTS`.
    pub energy_points: usize,
    pub score: usize,
}

impl PlayerStats {
    /// The bounds every rule keeps: percentages at most 100, at most two
    /// shells, at most three life and three energy points.
    pub open spec fn valid(self) -> bool {
        &&& self.speed <= MAX_ATTRIBUTE_VALUE
        &&& self.fire_speed <= MAX_ATTRIBUTE_VALUE
        &&& self.protection <= MAX_ATTRIBUTE_VALUE
        &&& self.shells <= MAX_SHELLS
        &&& self.life_points <= MAX_LIFE_POINTS
        &&& self.energy_points <= MAX_ENERGY_POINTS
    }

    /// The statistics a player enters a stage with.
    pub open spec fn spec_new_default() -> PlayerStats {
        PlayerStats {
            speed: INITIAL_ATTRIBUTE_VALUE,
            fire_speed: INITIAL_ATTRIBUTE_VALUE,
            protection: INITIAL_ATTRIBUTE_VALUE,
            shells: 1,
            penetrate: false,
            track_chain: false,
            air_cushion: false,
            fire_shell: false,
            life_points: MAX_LIFE_POINTS,
            energy_points: MAX_ENERGY_POINTS,
            score: 0,
        }
    }

    /// The statistics a player enters a stage with: 40% attributes, one
    /// shell, no effects, full life and energy, no score.
    pub fn new_default() -> (s: Self)
        ensures
            s == Self::spec_new_default(),
            s.valid(),
    {
        PlayerStats {
            speed: INITIAL_ATTRIBUTE_VALUE,
            fire_speed: INITIAL_ATTRIBUTE_VALUE,
            protection: INITIAL_ATTRIBUTE_VALUE,
            shells: 1,
            penetrate: false,
            track_chain: false,
            air_cushion: false,
            fire_shell: false,
            life_points: MAX_LIFE_POINTS,
            energy_points: MAX_ENERGY_POINTS,
            score: 0,
        }
    }

    /// Energy after one regeneration tick: one more point, up to the maximum.
    pub open spec fn energy_after_recovery(energy: usize) -> usize {
        if energy < MAX_ENERGY_POINTS { (energy + 1) as usize } else { energy }
    }

    /// Regains one energy point, never beyond `MAX_ENERGY_POINTS`.
    pub fn recover_energy(&mut self)
        ensures
            *final(self) == (PlayerStats {
                energy_points: Self::energy_after_recovery(old(self).energy_points),
                ..*old(self)
            }),
            old(self).valid() ==> final(self).valid(),
    {
        if self.energy_points < MAX_ENERGY_POINTS {
            self.energy_points = self.energy_points + 1;
        }
    }
}

impl PlayerStats {
    /// All counters zero and no effects.
    pub open spec fn spec_zero() -> PlayerStats {
        PlayerStats {
            speed: 0,
            fire_speed: 0,
            protection: 0,
            shells: 0,
            penetrate: false,
            track_chain: false,
            air_cushion: false,
            fire_shell: false,
            life_points: 0,
            energy_points: 0,
            score: 0,
        }
    }
}

impl Default for PlayerStats {
    /// All counters zero and no effects.
    fn default() -> (s: Self)
        ensures
            s == Self::spec_zero(),
    {
        PlayerStats {
            speed: 0,
            fire_speed: 0,
            protection: 0,
            shells: 0,
            penetrate: false,
            track_chain: false,
            air_cushion: false,
            fire_shell: false,
            life_points: 0,
            energy_points: 0,
            score: 0,
        }
    }
}

/// Statistics of the first player and, in a two-player game, of the second.
#[derive(Clone, Copy, Debug, PartialEq, Eq, Structural)]
pub struct PlayerInfo {
    pub player1: PlayerStats,
    pub player2: Option<PlayerStats>,
}

/// The statistics kept for a tank owner, if that owner is a present player.
pub open spec fn stats_of(info: PlayerInfo, tank_type: TankType) -> Option<PlayerStats> {
    match tank_type {
        TankType::Player1 => Some(info.player1),
        TankType::Player2 => info.player2,
        TankType::Enemy => None,
    }
}

/// `info` with the statistics of `tank_type` replaced (when that player is present).
pub open spec fn info_with(info: PlayerInfo, tank_type: TankType, stats: PlayerStats) -> PlayerInfo {
    match tank_type {
        TankType::Player1 => PlayerInfo { player1: stats, ..info },
        TankType::Player2 => match info.player2 {
            Some(_) => PlayerInfo { player2: Some(stats), ..info },
            None => info,
        },
        TankType::Enemy => info,
    }
}

impl PlayerInfo {
    /// Both players' statistics within their bounds.
    pub open spec fn valid(self) -> bool {
        &&& self.player1.valid()
        &&& match self.player2 {
            Some(p) => p.valid(),
            None => true,
        }
    }

    /// Fresh statistics for the players of a game mode: the second player
    /// exists only in a two-player game.
    pub fn for_mode(mode: GameMode) -> (info: Self)
        ensures
            info.player1 == PlayerStats::spec_new_default(),
            info.player2 == match mode {
                GameMode::OnePlayer => None,
                GameMode::TwoPlayers => Some(PlayerStats::spec_new_default()),
            },
            info.valid(),
    {
        match mode {
            GameMode::OnePlayer => PlayerInfo { player1: PlayerStats::new_default(), player2: None },
            GameMode::TwoPlayers => PlayerInfo {
                player1: PlayerStats::new_default(),
                player2: Some(PlayerStats::new_default()),
            },
        }
    }

    /// The statistics of a player tank; `None` for enemies and for an absent second player.
    pub fn get_stats(&self, tank_type: TankType) -> (r: Option<&PlayerStats>)
        ensures
            match stats_of(*self, tank_type) {
                Some(s) => r == Some(&s),
                None => r.is_none(),
            },
    {
        match tank_type {
            TankType::Player1 => Some(&self.player1),
            TankType::Player2 => self.player2.as_ref(),
            TankType::Enemy => None,
        }
    }

    /// Replaces the statistics of a present player; does nothing for enemies
    /// or an absent second player.
    pub fn set_stats(&mut self, tank_type: TankType, stats: PlayerStats)
        ensures
            *final(self) == info_with(*old(self), tank_type, stats),
    {
        match tank_type {
            TankType::Player1 => {
                self.player1 = stats;
            },
            TankType::Player2 => {
                if self.player2.is_some() {
                    self.player2 = Some(stats);
                }
            },
            TankType::Enemy => {},
        }
    }

    /// Shells in flight allowed for a player (0 for enemies and absent players).
    pub fn get_shells(&self, tank_type: TankType) -> (r: usize)
        ensures
            r == match stats_of(*self, tank_type) {
                Some(s) => s.shells,
                None => 0,
            },
    {
        match self.get_stats(tank_type) {
            Some(s) => s.shells,
            None => 0,
        }
    }

    /// Whether the player fires fire shells.
    pub fn has_fire_shell(&self, tank_type: TankType) -> (r: bool)
        ensures
            r == match stats_of(*self, tank_type) {
                Some(s) => s.fire_shell,
                None => false,
            },
    {
        match self.get_stats(tank_type) {
            Some(s) => s.fire_shell,
            None => false,
        }
    }

    /// Whether the player's shells penetrate steel.
    pub fn has_penetrate(&self, tank_type: TankType) -> (r: bool)
        ensures
            r == match stats_of(*self, tank_type) {
                Some(s) => s.penetrate,
                None => false,
            },
    {
        match self.get_stats(tank_type) {
            Some(s) => s.penetrate,
            None => false,
        }
    }

    /// Whether the player rides an air cushion (crosses the sea).
    pub fn has_air_cushion(&self, tank_type: TankType) -> (r: bool)
        ensures
            r == match stats_of(*self, tank_type) {
                Some(s) => s.air_cushion,
                None => false,
            },
    {
        match self.get_stats(tank_type) {
            Some(s) => s.air_cushion,
            None => false,
        }
    }

    /// Whether the player has track chains (immune to barriers).
    pub fn has_track_chain(&self, tank_type: TankType) -> (r: bool)
        ensures
            r == match stats_of(*self, tank_type) {
                Some(s) => s.track_chain,
                None => false,
            },
    {
        match self.get_stats(tank_type) {
            Some(s) => s.track_chain,
            None => false,
        }
    }

    /// Whether a present player is low on health (exactly one life point left).
    pub fn is_low_health(&self, tank_type: TankType) -> (r: bool)
        ensures
            r == match stats_of(*self, tank_type) {
                Some(s) => s.life_points <= 1 && s.life_points > 0,
                None => false,
            },
    {
        match self.get_stats(tank_type) {
            Some(s) => s.life_points <= 1 && s.life_points > 0,
            None => false,
        }
    }

    /// Every present player regains one energy point (up to the maximum).
    pub fn recover_all_energy(&mut self)
        ensures
            final(self).player1 == (PlayerStats {
                energy_points: PlayerStats::energy_after_recovery(old(self).player1.energy_points),
                ..old(self).player1
            }),
            final(self).player2 == match old(self).player2 {
                Some(p) => Some(PlayerStats {
                    energy_points: PlayerStats::energy_after_recovery(p.energy_points),
                    ..p
                }),
                None => None,
            },
    {
        self.player1.recover_energy();
        match self.player2 {
            Some(p) => {
                let mut p2 = p;
                p2.recover_energy();
                self.player2 = Some(p2);
            },
            None => {},
        }
    }

    /// Whether some present player has less than full energy.
    pub fn needs_energy_regen(&self) -> (r: bool)
        ensures
            r == (self.player1.energy_points < MAX_ENERGY_POINTS || match self.player2 {
                Some(p) => p.energy_points < MAX_ENERGY_POINTS,
                None => false,
            }),
    {
        self.player1.energy_points < MAX_ENERGY_POINTS || match &self.player2 {
            Some(p) => p.energy_points < MAX_ENERGY_POINTS,
            None => false,
        }
    }
}

impl Default for PlayerInfo {
    /// A first player with zeroed statistics and no second player.
    fn default() -> (info: Self)
        ensures
            info.player1 == (PlayerStats {
                speed: 0,
                fire_speed: 0,
                protection: 0,
                shells: 0,
                penetrate: false,
                track_chain: false,
                air_cushion: false,
                fire_shell: false,
                life_points: 0,
                energy_points: 0,
                score: 0,
            }),
            info.player2.is_none(),
    {
        PlayerInfo { player1: PlayerStats::default(), player2: None }
    }
}

/// Whether every player of the game has lost all life points. In a
/// two-player game this needs both players present and dead.
pub open spec fn all_players_dead_spec(info: PlayerInfo, mode: GameMode) -> bool {
    match mode {
        GameMode::OnePlayer => info.player1.life_points == 0,
        GameMode::TwoPlayers => info.player1.life_points == 0 && match info.player2 {
            Some(p) => p.life_points == 0,
            None => false,
        },
    }
}

/// Whether every player of the game has lost all life points.
pub fn check_all_players_dead(player_info: &PlayerInfo, game_mode: &GameMode) -> (r: bool)
    ensures
        r == all_players_dead_spec(*player_info, *game_mode),
{
    match *game_mode {
        GameMode::OnePlayer => player_info.player1.life_points == 0,
        GameMode::TwoPlayers => player_info.player1.life_points == 0 && match &player_info.player2 {
            Some(p) => p.life_points == 0,
            None => false,
        },
    }
}

/// The commander's life points.
#[derive(Clone, Copy, Debug, PartialEq, Eq, Structural)]
pub struct CommanderLife {
    pub life_points: usize,
}

impl Default for CommanderLife {
    /// A commander at full life.
    fn default() -> (c: Self)
        ensures
            c.life_points == COMMANDER_LIFE_MAX,
    {
        CommanderLife { life_points: COMMANDER_LIFE_MAX }
    }
}

impl CommanderLife {
    /// The commander is hit by an enemy shell: one life point less (never
    /// below zero). Returns whether the commander is now dead.
    pub fn take_hit(&mut self) -> (dead: bool)
        ensures
            final(self).life_points == if old(self).life_points > 0 {
                (old(self).life_points - 1) as usize
            } else {
                0
            },
            dead == (final(self).life_points == 0),
            old(self).life_points <= COMMANDER_LIFE_MAX ==> final(self).life_points <= COMMANDER_LIFE_MAX,
    {
        if self.life_points > 0 {
            self.life_points = self.life_points - 1;
        }
        self.life_points == 0
    }

    /// One life point more, up to `COMMANDER_LIFE_MAX` (the hamburger power-up).
    pub fn heal(&mut self)
        ensures
            final(self).life_points == if old(self).life_points < COMMANDER_LIFE_MAX {
                (old(self).life_points + 1) as usize
            } else {
                old(self).life_points
            },
            old(self).life_points <= COMMANDER_LIFE_MAX ==> final(self).life_points <= COMMANDER_LIFE_MAX,
    {
        if self.life_points < COMMANDER_LIFE_MAX {
            self.life_points = self.life_points + 1;
        }
    }

    /// Back to full life, as when the commander is placed for a stage.
    pub fn reset(&mut self)
        ensures
            final(self).life_points == COMMANDER_LIFE_MAX,
    {
        self.life_points = COMMANDER_LIFE_MAX;
    }
}

/// Life of one enemy tank.
#[derive(Clone, Copy, Debug, PartialEq, Eq, Structural)]
pub struct EnemyLife {
    pub current: usize,
    pub max: usize,
}

impl EnemyLife {
    /// A tank at full life.
    pub fn new(max: usize) -> (l: Self)
        ensures
            l.current == max,
            l.max == max,
    {
        EnemyLife { current: max, max }
    }

    /// Loses one life point (never below zero); returns whether the tank is destroyed.
    pub fn take_damage(&mut self) -> (destroyed: bool)
        ensures
            final(self).max == old(self).max,
            final(self).current == if old(self).current > 0 {
                (old(self).current - 1) as usize
            } else {
                0
            },
            destroyed == (final(self).current == 0),
    {
        if self.current > 0 {
            self.current = self.current - 1;
        }
        self.current == 0
    }
}

/// The stage being played, counting from 1.
#[derive(Clone, Copy, Debug, PartialEq, Eq, Structural)]
pub struct StageLevel(pub usize);

impl Default for StageLevel {
    /// The first stage.
    fn default() -> (s: Self)
        ensures
            s.0 == 1,
    {
        StageLevel(1)
    }
}

impl StageLevel {
    /// Moves on to the next stage.
    pub fn advance(&mut self)
        requires
            old(self).0 < usize::MAX,
        ensures
            final(self).0 == old(self).0 + 1,
    {
        self.0 = self.0 + 1;
    }
}

/// How many enemies a stage has sent and will send.
#[derive(Clone, Copy, Debug, PartialEq, Eq, Structural)]
pub struct EnemySpawnState {
    /// Enemies sent so far.
    pub has_spawned: usize,
    /// Enemies the stage sends in total.
    pub max_count: usize,
}

impl Default for EnemySpawnState {
    /// Nothing sent yet, `ENEMIES_PER_LEVEL` to send.
    fn default() -> (s: Self)
        ensures
            s.has_spawned == 0,
            s.max_count == ENEMIES_PER_LEVEL,
    {
        EnemySpawnState { has_spawned: 0, max_count: ENEMIES_PER_LEVEL }
    }
}

impl EnemySpawnState {
    /// The spawn counter never passes the stage's total.
    pub open spec fn valid(self) -> bool {
        self.has_spawned <= self.max_count
    }

    /// Whether an enemy is born now: enemies are left to send, fewer than
    /// `MAX_ENEMY_ON_SCREEN` are on the field (born or being born), and the
    /// spawn cooldown has run out.
    pub fn should_spawn(&self, current_enemy_count: usize, cooldown_finished: bool) -> (r: bool)
        ensures
            r == (self.has_spawned < self.max_count && current_enemy_count < MAX_ENEMY_ON_SCREEN
                && cooldown_finished),
    {
        self.has_spawned < self.max_count && current_enemy_count < MAX_ENEMY_ON_SCREEN
            && cooldown_finished
    }

    /// Counts one more enemy sent.
    pub fn record_spawn(&mut self)
        requires
            old(self).has_spawned < old(self).max_count,
        ensures
            final(self).has_spawned == old(self).has_spawned + 1,
            final(self).max_count == old(self).max_count,
            final(self).valid(),
    {
        self.has_spawned = self.has_spawned + 1;
    }

    /// Back to nothing sent, as at the start of a stage.
    pub fn reset(&mut self)
        ensures
            final(self).has_spawned == 0,
            final(self).max_count == old(self).max_count,
            final(self).valid(),
    {
        self.has_spawned = 0;
    }

    /// Enemies still to be sent.
    pub fn remaining(&self) -> (r: usize)
        requires
            self.valid(),
        ensures
            r == self.max_count - self.has_spawned,
    {
        self.max_count - self.has_spawned
    }

    /// Whether the stage's enemies are all gone: all sent and none left on the field.
    pub fn all_enemies_defeated(&self, current_enemy_count: usize) -> (r: bool)
        ensures
            r == (self.has_spawned >= self.max_count && current_enemy_count == 0),
    {
        !(self.has_spawned < self.max_count || current_enemy_count > 0)
    }
}

/// What the stage-complete check does this frame.
#[derive(Clone, Copy, Debug, PartialEq, Eq, Structural)]
pub enum StageProgress {
    /// Enemies remain: the completion delay starts over.
    ResetDelay,
    /// All enemies are gone but the game is lost: nothing happens.
    Hold,
    /// All enemies are gone and the game goes on: the completion delay runs.
    TickDelay,
}

/// The stage-complete decision: wait while enemies remain, stand still when
/// the game is lost, otherwise let the delay before the next stage run.
pub fn check_stage_complete(
    spawn_state: &EnemySpawnState,
    current_enemy_count: usize,
    player_info: &PlayerInfo,
    commander_life: &CommanderLife,
    game_mode: &GameMode,
) -> (p: StageProgress)
    ensures
        p == if !(spawn_state.has_spawned >= spawn_state.max_count && current_enemy_count == 0) {
            StageProgress::ResetDelay
        } else if all_players_dead_spec(*player_info, *game_mode) || commander_life.life_points == 0 {
            StageProgress::Hold
        } else {
            StageProgress::TickDelay
        },
{
    if !spawn_state.all_enemies_defeated(current_enemy_count) {
        return StageProgress::ResetDelay;
    }
    if check_all_players_dead(player_info, game_mode) || commander_life.life_points == 0 {
        return StageProgress::Hold;
    }
    StageProgress::TickDelay
}

/// Whether the game is lost: the commander is dead or every player is.
pub fn check_game_over(
    player_info: &PlayerInfo,
    game_mode: &GameMode,
    commander_life: &CommanderLife,
) -> (r: bool)
    ensures
        r == (commander_life.life_points == 0 || all_players_dead_spec(*player_info, *game_mode)),
{
    if commander_life.life_points == 0 {
        return true;
    }
    check_all_players_dead(player_info, game_mode)
}

} // verus!
