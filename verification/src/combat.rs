//! What happens when shells, dashing tanks and barriers meet: which
//! statistics change, what is destroyed, and which effect is shown.

use vstd::prelude::*;
use crate::resources::{info_with, stats_of, PlayerInfo, PlayerStats};
use crate::tracker::{bullet_count, BulletTracker};
use std::collections::HashSet;
use crate::types::{
    StatType, TankType, DASH_ENERGY_COST, DASH_HEAVY_DAMAGE_BELOW, DASH_LIGHT_DAMAGE_BELOW,
    ENEMY_KILL_SCORE, LASER_ENERGY_COST, LASER_SHOT_ENERGY_COST, POWERUP_ATTRIBUTE_INCREASE, STEEL_BREAK_PROTECTION,
};

verus! {

broadcast use vstd::std_specs::hash::group_hash_axioms;

/// A shell, tagged with its owner.
#[derive(Clone, Copy, Debug, PartialEq, Eq, Structural)]
pub enum Bullet {
    Player(TankType),
    Enemy,
}

/// The owner of a shell.
pub open spec fn bullet_owner(b: Bullet) -> TankType {
    match b {
        Bullet::Player(tank_type) => tank_type,
        Bullet::Enemy => TankType::Enemy,
    }
}

impl Bullet {
    /// The shell a tank of the given owner fires.
    pub fn for_owner(owner_type: TankType) -> (b: Bullet)
        ensures
            b == if owner_type == TankType::Enemy { Bullet::Enemy } else { Bullet::Player(owner_type) },
    {
        match owner_type {
            TankType::Enemy => Bullet::Enemy,
            _ => Bullet::Player(owner_type),
        }
    }

    /// The owner of the shell.
    pub fn owner_type(&self) -> (t: TankType)
        ensures
            t == bullet_owner(*self),
    {
        match self {
            Bullet::Player(tank_type) => *tank_type,
            Bullet::Enemy => TankType::Enemy,
        }
    }

    /// Whether a player fired the shell.
    pub fn is_player(&self) -> (r: bool)
        ensures
            r == (*self is Player),
    {
        match self {
            Bullet::Player(_) => true,
            Bullet::Enemy => false,
        }
    }

    /// Whether an enemy fired the shell.
    pub fn is_enemy(&self) -> (r: bool)
        ensures
            r == (*self is Enemy),
    {
        match self {
            Bullet::Player(_) => false,
            Bullet::Enemy => true,
        }
    }
}

// ---------------------------------------------------------------------------
// Enemy shells hitting a player
// ---------------------------------------------------------------------------

/// What an enemy shell did to a player tank.
#[derive(Clone, Copy, Debug, PartialEq, Eq, Structural)]
pub enum ShellHit {
    /// An effect or a spare shell absorbed the hit; the given statistic was lost.
    Absorbed(StatType),
    /// The tank took damage; `destroyed` when it has no life left.
    Damaged { destroyed: bool },
}

/// The statistics after an enemy shell hits, and what happened. The first
/// effect the player has, in the order fire shell, track chain, penetrate,
/// air cushion, absorbs the hit and is lost; without effects, a second shell
/// absorbs it; otherwise the tank loses a life point.
pub open spec fn enemy_hit_spec(s: PlayerStats) -> (PlayerStats, ShellHit) {
    if s.fire_shell {
        (PlayerStats { fire_shell: false, ..s }, ShellHit::Absorbed(StatType::FireShell))
    } else if s.track_chain {
        (PlayerStats { track_chain: false, ..s }, ShellHit::Absorbed(StatType::TrackChain))
    } else if s.penetrate {
        (PlayerStats { penetrate: false, ..s }, ShellHit::Absorbed(StatType::Penetrate))
    } else if s.air_cushion {
        (PlayerStats { air_cushion: false, ..s }, ShellHit::Absorbed(StatType::AirCushion))
    } else if s.shells > 1 {
        (PlayerStats { shells: (s.shells - 1) as usize, ..s }, ShellHit::Absorbed(StatType::Shell))
    } else {
        let life = if s.life_points > 0 { (s.life_points - 1) as usize } else { 0 };
        (PlayerStats { life_points: life, ..s }, ShellHit::Damaged { destroyed: life == 0 })
    }
}

/// Applies an enemy shell hit to a player's statistics.
pub fn absorb_enemy_shell(stats: &mut PlayerStats) -> (hit: ShellHit)
    ensures
        (*final(stats), hit) == enemy_hit_spec(*old(stats)),
{
    if stats.fire_shell {
        stats.fire_shell = false;
        ShellHit::Absorbed(StatType::FireShell)
    } else if stats.track_chain {
        stats.track_chain = false;
        ShellHit::Absorbed(StatType::TrackChain)
    } else if stats.penetrate {
        stats.penetrate = false;
        ShellHit::Absorbed(StatType::Penetrate)
    } else if stats.air_cushion {
        stats.air_cushion = false;
        ShellHit::Absorbed(StatType::AirCushion)
    } else if stats.shells > 1 {
        stats.shells = stats.shells - 1;
        ShellHit::Absorbed(StatType::Shell)
    } else {
        if stats.life_points > 0 {
            stats.life_points = stats.life_points - 1;
        }
        ShellHit::Damaged { destroyed: stats.life_points == 0 }
    }
}

/// An enemy shell hits a player tank: the hit is applied to that player's
/// statistics; `None` when the player is not present.
pub fn enemy_shell_hits_player(info: &mut PlayerInfo, tank_type: TankType) -> (hit: Option<ShellHit>)
    ensures
        match stats_of(*old(info), tank_type) {
            Some(s) => {
                &&& hit == Some(enemy_hit_spec(s).1)
                &&& *final(info) == info_with(*old(info), tank_type, enemy_hit_spec(s).0)
            },
            None => hit.is_none() && *final(info) == *old(info),
        },
{
    match info.get_stats(tank_type) {
        Some(s) => {
            let mut stats = *s;
            let hit = absorb_enemy_shell(&mut stats);
            info.set_stats(tank_type, stats);
            Some(hit)
        },
        None => None,
    }
}

/// A hit costs at most one thing: one effect, one shell or one life point,
/// and keeps the statistics within their bounds.
pub proof fn lemma_enemy_hit_costs_one_thing(s: PlayerStats)
    requires
        s.valid(),
    ensures
        enemy_hit_spec(s).0.valid(),
        enemy_hit_spec(s).0.score == s.score,
        enemy_hit_spec(s).0.speed == s.speed,
        enemy_hit_spec(s).0.protection == s.protection,
        enemy_hit_spec(s).0.life_points < s.life_points ==> {
            &&& !s.fire_shell && !s.track_chain && !s.penetrate && !s.air_cushion
            &&& s.shells <= 1
            &&& enemy_hit_spec(s).0.life_points == s.life_points - 1
        },
        enemy_hit_spec(s).1 is Absorbed ==> enemy_hit_spec(s).0.life_points == s.life_points,
{
}

/// A player destroys an enemy tank and earns `ENEMY_KILL_SCORE` points.
pub fn award_kill(info: &mut PlayerInfo, tank_type: TankType)
    requires
        match stats_of(*old(info), tank_type) {
            Some(s) => s.score + ENEMY_KILL_SCORE <= usize::MAX,
            None => true,
        },
    ensures
        match stats_of(*old(info), tank_type) {
            Some(s) => *final(info) == info_with(
                *old(info),
                tank_type,
                PlayerStats { score: (s.score + ENEMY_KILL_SCORE) as usize, ..s },
            ),
            None => *final(info) == *old(info),
        },
{
    match info.get_stats(tank_type) {
        Some(s) => {
            let mut stats = *s;
            stats.score = stats.score + ENEMY_KILL_SCORE;
            info.set_stats(tank_type, stats);
        },
        None => {},
    }
}

// ---------------------------------------------------------------------------
// Shells hitting terrain and the commander
// ---------------------------------------------------------------------------

/// Kind of entity a shell touched.
#[derive(Clone, Copy, Debug, PartialEq, Eq, Structural)]
pub enum TerrainHit {
    Forest,
    Brick,
    Steel,
    Other,
}

/// The sound that goes with a spark.
#[derive(Clone, Copy, Debug, PartialEq, Eq, Structural)]
pub enum SparkSound {
    BrickHit,
    Hit,
    MetalCrash,
}

/// What a shell touching terrain causes.
#[derive(Clone, Copy, Debug, PartialEq, Eq, Structural)]
pub struct TerrainHitOutcome {
    /// The trees burn (fire effect at the forest).
    pub forest_fire: bool,
    /// The touched terrain is removed.
    pub destroy_terrain: bool,
    /// A spark at the shell, with its sound.
    pub spark: Option<SparkSound>,
    /// The hit sound is played once more.
    pub extra_hit_sound: bool,
    /// The shell is removed.
    pub despawn_bullet: bool,
}

/// The effect of a shell touching terrain. A player's fire shell burns
/// forests (and flies on); bricks always break and stop the shell; steel
/// stops every shell and breaks only under a penetrating player shell.
pub open spec fn terrain_hit_spec(bullet: Bullet, owner: Option<PlayerStats>, terrain: TerrainHit) -> TerrainHitOutcome {
    let nothing = TerrainHitOutcome {
        forest_fire: false,
        destroy_terrain: false,
        spark: None,
        extra_hit_sound: false,
        despawn_bullet: false,
    };
    match terrain {
        TerrainHit::Forest => {
            if bullet is Player && owner is Some && owner->0.fire_shell {
                TerrainHitOutcome { forest_fire: true, destroy_terrain: true, ..nothing }
            } else {
                nothing
            }
        },
        TerrainHit::Brick => TerrainHitOutcome {
            destroy_terrain: true,
            spark: Some(SparkSound::BrickHit),
            despawn_bullet: true,
            ..nothing
        },
        TerrainHit::Steel => {
            if bullet is Enemy {
                TerrainHitOutcome { spark: Some(SparkSound::Hit), despawn_bullet: true, ..nothing }
            } else {
                match owner {
                    Some(s) => if s.penetrate {
                        TerrainHitOutcome {
                            destroy_terrain: true,
                            spark: Some(SparkSound::MetalCrash),
                            despawn_bullet: true,
                            ..nothing
                        }
                    } else {
                        TerrainHitOutcome {
                            spark: Some(SparkSound::Hit),
                            extra_hit_sound: true,
                            despawn_bullet: true,
                            ..nothing
                        }
                    },
                    None => TerrainHitOutcome { despawn_bullet: true, ..nothing },
                }
            }
        },
        TerrainHit::Other => nothing,
    }
}

/// What a shell touching terrain causes, given its owner's statistics.
pub fn bullet_terrain_outcome(bullet: Bullet, player_info: &PlayerInfo, terrain: TerrainHit) -> (o: TerrainHitOutcome)
    ensures
        o == terrain_hit_spec(bullet, stats_of(*player_info, bullet_owner(bullet)), terrain),
{
    let owner = player_info.get_stats(bullet.owner_type());
    let nothing = TerrainHitOutcome {
        forest_fire: false,
        destroy_terrain: false,
        spark: None,
        extra_hit_sound: false,
        despawn_bullet: false,
    };
    match terrain {
        TerrainHit::Forest => {
            let burns = match owner {
                Some(s) => bullet.is_player() && s.fire_shell,
                None => false,
            };
            if burns {
                TerrainHitOutcome { forest_fire: true, destroy_terrain: true, ..nothing }
            } else {
                nothing
            }
        },
        TerrainHit::Brick => TerrainHitOutcome {
            destroy_terrain: true,
            spark: Some(SparkSound::BrickHit),
            despawn_bullet: true,
            ..nothing
        },
        TerrainHit::Steel => {
            if bullet.is_enemy() {
                TerrainHitOutcome { spark: Some(SparkSound::Hit), despawn_bullet: true, ..nothing }
            } else {
                match owner {
                    Some(s) => if s.penetrate {
                        TerrainHitOutcome {
                            destroy_terrain: true,
                            spark: Some(SparkSound::MetalCrash),
                            despawn_bullet: true,
                            ..nothing
                        }
                    } else {
                        TerrainHitOutcome {
                            spark: Some(SparkSound::Hit),
                            extra_hit_sound: true,
                            despawn_bullet: true,
                            ..nothing
                        }
                    },
                    None => TerrainHitOutcome { despawn_bullet: true, ..nothing },
                }
            }
        },
        TerrainHit::Other => nothing,
    }
}

/// A shell touches the commander. Only enemy shells hurt him: one life point
/// less. Returns `None` for a player shell (which flies through), otherwise
/// whether the commander is now dead.
pub fn commander_hit(bullet: Bullet, commander: &mut crate::resources::CommanderLife) -> (r: Option<bool>)
    ensures
        bullet is Player ==> r.is_none() && *final(commander) == *old(commander),
        bullet is Enemy ==> {
            &&& final(commander).life_points == if old(commander).life_points > 0 {
                (old(commander).life_points - 1) as usize
            } else {
                0
            }
            &&& r == Some(final(commander).life_points == 0)
        },
{
    if !bullet.is_enemy() {
        return None;
    }
    Some(commander.take_hit())
}

// ---------------------------------------------------------------------------
// Dash
// ---------------------------------------------------------------------------

/// Life points a dash collision costs at a protection level: two below 40%,
/// one below 80%, none from 80% on.
pub open spec fn dash_health_cost_spec(protection: usize) -> usize {
    if protection < DASH_HEAVY_DAMAGE_BELOW {
        2
    } else if protection < DASH_LIGHT_DAMAGE_BELOW {
        1
    } else {
        0
    }
}

/// Life points a dash collision costs at a protection level.
pub fn dash_health_cost(protection: usize) -> (cost: usize)
    ensures
        cost == dash_health_cost_spec(protection),
{
    if protection < DASH_HEAVY_DAMAGE_BELOW {
        2
    } else if protection < DASH_LIGHT_DAMAGE_BELOW {
        1
    } else {
        0
    }
}

/// The statistics after a dash collision: life points reduced by the cost
/// of the protection level (not below zero).
pub open spec fn dash_damage_spec(s: PlayerStats) -> PlayerStats {
    let cost = dash_health_cost_spec(s.protection);
    PlayerStats {
        life_points: if s.life_points >= cost { (s.life_points - cost) as usize } else { 0 },
        ..s
    }
}

/// The player tanks (by entity bits) that have already lost life in their
/// current dash; a dash costs life at most once.
pub struct DashDamageTracker {
    pub has_taken_damage: HashSet<u64>,
}

impl DashDamageTracker {
    /// No tank has lost life in a dash yet.
    pub fn new() -> (t: Self)
        ensures
            t.has_taken_damage@ == Set::<u64>::empty(),
    {
        DashDamageTracker { has_taken_damage: HashSet::new() }
    }

    /// A tank's dash is over: its next dash may cost life again.
    pub fn end_dash(&mut self, tank: u64)
        ensures
            final(self).has_taken_damage@ == old(self).has_taken_damage@.remove(tank),
    {
        self.has_taken_damage.remove(&tank);
    }

    /// Forgets every tank, as at the start of a stage.
    pub fn clear(&mut self)
        ensures
            final(self).has_taken_damage@ == Set::<u64>::empty(),
    {
        self.has_taken_damage.clear();
    }
}

impl Default for DashDamageTracker {
    /// No tank has lost life in a dash yet.
    fn default() -> (t: Self)
        ensures
            t.has_taken_damage@ == Set::<u64>::empty(),
    {
        DashDamageTracker::new()
    }
}

/// Applies dash collision damage to a player, once per dash: when the tank
/// already lost life in this dash nothing happens. Returns the life points
/// taken and whether the player is dead; an absent player takes nothing. A
/// tank that lost life is remembered until its dash ends.
pub fn apply_dash_damage(info: &mut PlayerInfo, tank_type: TankType, tank: u64, tracker: &mut DashDamageTracker) -> (r: (usize, bool))
    ensures
        ({
            let d = dash_damage_info(*old(info), tank_type, old(tracker).has_taken_damage@.contains(tank));
            &&& *final(info) == d.0
            &&& r == (d.1, d.2)
        }),
        final(tracker).has_taken_damage@ == if !old(tracker).has_taken_damage@.contains(tank) && r.0 > 0 {
            old(tracker).has_taken_damage@.insert(tank)
        } else {
            old(tracker).has_taken_damage@
        },
{
    if tracker.has_taken_damage.contains(&tank) {
        return (0, false);
    }
    match info.get_stats(tank_type) {
        Some(s) => {
            let mut stats = *s;
            let cost = dash_health_cost(stats.protection);
            stats.life_points = if stats.life_points >= cost { stats.life_points - cost } else { 0 };
            let dead = stats.life_points == 0;
            info.set_stats(tank_type, stats);
            if cost > 0 {
                tracker.has_taken_damage.insert(tank);
            }
            (cost, dead)
        },
        None => (0, false),
    }
}

/// A dash costs life at most once: after a collision that cost life, every
/// further collision of the same dash takes nothing.
pub proof fn lemma_dash_costs_life_once(info: PlayerInfo, tank_type: TankType, marked: Set<u64>, tank: u64)
    ensures
        ({
            let first = dash_damage_info(info, tank_type, marked.contains(tank));
            let marked_after = if !marked.contains(tank) && first.1 > 0 { marked.insert(tank) } else { marked };
            first.1 > 0 ==> dash_damage_info(first.0, tank_type, marked_after.contains(tank)) == (first.0, 0usize, false)
        }),
{
}

/// What a dashing tank ran into.
#[derive(Clone, Copy, Debug, PartialEq, Eq, Structural)]
pub enum DashTarget {
    Brick,
    Steel,
    Enemy,
}

/// The visual effect of a dash collision.
#[derive(Clone, Copy, Debug, PartialEq, Eq, Structural)]
pub enum DashEffect {
    /// Spark at the target with the given sound.
    Spark(SparkSound),
    /// Explosion at the target.
    ExplosionAtTarget,
    /// Explosion at the dashing tank.
    ExplosionAtTank,
}

/// Everything a dash collision causes.
#[derive(Clone, Copy, Debug, PartialEq, Eq, Structural)]
pub struct DashOutcome {
    /// The target is removed.
    pub destroy_target: bool,
    pub effect: DashEffect,
    /// The player earned the kill score.
    pub score_awarded: bool,
    /// Life points the dash cost (0 when no damage was taken).
    pub health_cost: usize,
    /// The player's tank is destroyed.
    pub player_dead: bool,
}

/// Dash damage applied to the stored statistics (once per dash): the new
/// statistics, the life points taken, and whether the player is dead.
pub open spec fn dash_damage_info(i: PlayerInfo, tank_type: TankType, already_damaged: bool) -> (PlayerInfo, usize, bool) {
    if already_damaged {
        (i, 0usize, false)
    } else {
        match stats_of(i, tank_type) {
            Some(s) => (
                info_with(i, tank_type, dash_damage_spec(s)),
                dash_health_cost_spec(s.protection),
                dash_damage_spec(s).life_points == 0,
            ),
            None => (i, 0usize, false),
        }
    }
}

/// The rules of dash collisions: a brick breaks and costs the dash damage;
/// steel breaks only at full protection, otherwise the tank is destroyed;
/// an enemy tank is destroyed, scores, and costs the dash damage.
pub open spec fn dash_outcome_spec(info: PlayerInfo, tank_type: TankType, target: DashTarget, already_damaged: bool) -> (PlayerInfo, DashOutcome) {
    let stats = stats_of(info, tank_type);
    match target {
        DashTarget::Brick => {
            let d = dash_damage_info(info, tank_type, already_damaged);
            (d.0, DashOutcome {
                destroy_target: true,
                effect: DashEffect::Spark(SparkSound::BrickHit),
                score_awarded: false,
                health_cost: d.1,
                player_dead: d.2,
            })
        },
        DashTarget::Steel => {
            let protection = match stats { Some(s) => s.protection, None => 0 };
            if protection >= STEEL_BREAK_PROTECTION {
                (info, DashOutcome {
                    destroy_target: true,
                    effect: DashEffect::Spark(SparkSound::MetalCrash),
                    score_awarded: false,
                    health_cost: 0,
                    player_dead: false,
                })
            } else {
                let killed = match stats {
                    Some(s) => info_with(info, tank_type, PlayerStats { life_points: 0, ..s }),
                    None => info,
                };
                (killed, DashOutcome {
                    destroy_target: false,
                    effect: DashEffect::ExplosionAtTank,
                    score_awarded: false,
                    health_cost: 0,
                    player_dead: true,
                })
            }
        },
        DashTarget::Enemy => {
            let scored = match stats {
                Some(s) => info_with(info, tank_type, PlayerStats { score: (s.score + ENEMY_KILL_SCORE) as usize, ..s }),
                None => info,
            };
            let d = dash_damage_info(scored, tank_type, already_damaged);
            (d.0, DashOutcome {
                destroy_target: true,
                effect: DashEffect::ExplosionAtTarget,
                score_awarded: true,
                health_cost: d.1,
                player_dead: d.2,
            })
        },
    }
}

/// Resolves a dashing player tank running into a brick, steel or an enemy tank.
pub fn resolve_dash_collision(
    info: &mut PlayerInfo,
    tank_type: TankType,
    tank: u64,
    target: DashTarget,
    tracker: &mut DashDamageTracker,
) -> (o: DashOutcome)
    requires
        target == DashTarget::Enemy ==> match stats_of(*old(info), tank_type) {
            Some(s) => s.score + ENEMY_KILL_SCORE <= usize::MAX,
            None => true,
        },
    ensures
        (*final(info), o) == dash_outcome_spec(
            *old(info),
            tank_type,
            target,
            old(tracker).has_taken_damage@.contains(tank),
        ),
        final(tracker).has_taken_damage@ == if target != DashTarget::Steel
            && !old(tracker).has_taken_damage@.contains(tank) && o.health_cost > 0 {
            old(tracker).has_taken_damage@.insert(tank)
        } else {
            old(tracker).has_taken_damage@
        },
{
    match target {
        DashTarget::Brick => {
            let (cost, dead) = apply_dash_damage(info, tank_type, tank, tracker);
            DashOutcome {
                destroy_target: true,
                effect: DashEffect::Spark(SparkSound::BrickHit),
                score_awarded: false,
                health_cost: cost,
                player_dead: dead,
            }
        },
        DashTarget::Steel => {
            let protection = match info.get_stats(tank_type) {
                Some(s) => s.protection,
                None => 0,
            };
            if protection >= STEEL_BREAK_PROTECTION {
                DashOutcome {
                    destroy_target: true,
                    effect: DashEffect::Spark(SparkSound::MetalCrash),
                    score_awarded: false,
                    health_cost: 0,
                    player_dead: false,
                }
            } else {
                match info.get_stats(tank_type) {
                    Some(s) => {
                        let mut stats = *s;
                        stats.life_points = 0;
                        info.set_stats(tank_type, stats);
                    },
                    None => {},
                }
                DashOutcome {
                    destroy_target: false,
                    effect: DashEffect::ExplosionAtTank,
                    score_awarded: false,
                    health_cost: 0,
                    player_dead: true,
                }
            }
        },
        DashTarget::Enemy => {
            award_kill(info, tank_type);
            let (cost, dead) = apply_dash_damage(info, tank_type, tank, tracker);
            DashOutcome {
                destroy_target: true,
                effect: DashEffect::ExplosionAtTarget,
                score_awarded: true,
                health_cost: cost,
                player_dead: dead,
            }
        },
    }
}

/// Starting a dash costs one energy point; without it the dash is refused.
/// Returns whether the dash starts.
pub fn try_spend_dash_energy(info: &mut PlayerInfo, tank_type: TankType) -> (started: bool)
    ensures
        match stats_of(*old(info), tank_type) {
            Some(s) => if s.energy_points >= DASH_ENERGY_COST {
                &&& started
                &&& *final(info) == info_with(
                    *old(info),
                    tank_type,
                    PlayerStats { energy_points: (s.energy_points - DASH_ENERGY_COST) as usize, ..s },
                )
            } else {
                !started && *final(info) == *old(info)
            },
            None => !started && *final(info) == *old(info),
        },
{
    match info.get_stats(tank_type) {
        Some(s) => {
            if s.energy_points >= DASH_ENERGY_COST {
                let mut stats = *s;
                stats.energy_points = stats.energy_points - DASH_ENERGY_COST;
                info.set_stats(tank_type, stats);
                true
            } else {
                false
            }
        },
        None => false,
    }
}

// ---------------------------------------------------------------------------
// Laser
// ---------------------------------------------------------------------------

/// Whether a player may start charging the laser: it needs a full energy bar.
pub fn can_start_laser_charge(info: &PlayerInfo, tank_type: TankType) -> (r: bool)
    ensures
        r == match stats_of(*info, tank_type) {
            Some(s) => s.energy_points >= LASER_ENERGY_COST,
            None => false,
        },
{
    match info.get_stats(tank_type) {
        Some(s) => s.energy_points >= LASER_ENERGY_COST,
        None => false,
    }
}

/// Firing the laser costs one energy point (an empty bar stays empty).
pub fn spend_energy_for_laser(info: &mut PlayerInfo, tank_type: TankType)
    ensures
        match stats_of(*old(info), tank_type) {
            Some(s) => *final(info) == info_with(
                *old(info),
                tank_type,
                PlayerStats {
                    energy_points: if s.energy_points >= LASER_SHOT_ENERGY_COST {
                        (s.energy_points - LASER_SHOT_ENERGY_COST) as usize
                    } else {
                        0
                    },
                    ..s
                },
            ),
            None => *final(info) == *old(info),
        },
{
    match info.get_stats(tank_type) {
        Some(s) => {
            let mut stats = *s;
            stats.energy_points = stats.energy_points.saturating_sub(LASER_SHOT_ENERGY_COST);
            info.set_stats(tank_type, stats);
        },
        None => {},
    }
}

// ---------------------------------------------------------------------------
// Barrier
// ---------------------------------------------------------------------------

/// The statistics after touching a barrier: speed and protection each drop
/// by 20 (not below zero).
pub open spec fn barrier_damage_spec(s: PlayerStats) -> PlayerStats {
    PlayerStats {
        speed: if s.speed >= POWERUP_ATTRIBUTE_INCREASE { (s.speed - POWERUP_ATTRIBUTE_INCREASE) as usize } else { 0 },
        protection: if s.protection >= POWERUP_ATTRIBUTE_INCREASE {
            (s.protection - POWERUP_ATTRIBUTE_INCREASE) as usize
        } else {
            0
        },
        ..s
    }
}

/// A player tank is near a barrier. When the barrier cooldown is over and the
/// player has no track chains, speed and protection drop by 20 and the
/// result is `true` (the cooldown starts again and both statistics are
/// reported). Track chains make the player immune.
pub fn apply_barrier_damage(info: &mut PlayerInfo, tank_type: TankType, cooldown_over: bool) -> (damaged: bool)
    ensures
        match stats_of(*old(info), tank_type) {
            Some(s) => if cooldown_over && !s.track_chain {
                damaged && *final(info) == info_with(*old(info), tank_type, barrier_damage_spec(s))
            } else {
                !damaged && *final(info) == *old(info)
            },
            None => !damaged && *final(info) == *old(info),
        },
{
    match info.get_stats(tank_type) {
        Some(s) => {
            if !cooldown_over || s.track_chain {
                return false;
            }
            let mut stats = *s;
            stats.speed = stats.speed.saturating_sub(POWERUP_ATTRIBUTE_INCREASE);
            stats.protection = stats.protection.saturating_sub(POWERUP_ATTRIBUTE_INCREASE);
            info.set_stats(tank_type, stats);
            true
        },
        None => false,
    }
}

/// Barrier and dash damage, and spending energy, keep statistics within bounds.
pub proof fn lemma_damage_keeps_stats_valid(s: PlayerStats)
    requires
        s.valid(),
    ensures
        barrier_damage_spec(s).valid(),
        dash_damage_spec(s).valid(),
        dash_damage_spec(s).life_points <= s.life_points,
        barrier_damage_spec(s).speed <= s.speed,
        barrier_damage_spec(s).protection <= s.protection,
{
}

/// Updating one player's statistics with valid ones keeps all statistics valid.
pub proof fn lemma_info_with_keeps_valid(info: PlayerInfo, tank_type: TankType, s: PlayerStats)
    requires
        info.valid(),
        s.valid(),
    ensures
        info_with(info, tank_type, s).valid(),
{
}

/// What the laser system does for a player's tank in a frame.
#[derive(Clone, Copy, Debug, PartialEq, Eq, Structural)]
pub enum LaserAction {
    /// Nothing (the tank is turning, or the laser key is not held and no
    /// charge is running).
    Skip,
    /// Stop the running charge.
    CancelCharge,
    /// Advance the running charge (firing when it completes).
    UpdateCharge,
    /// Try to start a charge (it needs a full energy bar).
    StartCharge,
}

/// The laser system's decision for a player's tank: a turning tank is left
/// alone; moving or shooting breaks a running charge; letting go of the
/// laser key breaks it too; holding the key advances a running charge or
/// starts a new one.
pub fn laser_step(rotating: bool, interrupted: bool, laser_held: bool, has_charge: bool) -> (a: LaserAction)
    ensures
        a == if rotating {
            LaserAction::Skip
        } else if interrupted && has_charge {
            LaserAction::CancelCharge
        } else if !laser_held {
            if has_charge { LaserAction::CancelCharge } else { LaserAction::Skip }
        } else if has_charge {
            LaserAction::UpdateCharge
        } else {
            LaserAction::StartCharge
        },
{
    if rotating {
        LaserAction::Skip
    } else if interrupted && has_charge {
        LaserAction::CancelCharge
    } else if !laser_held {
        if has_charge {
            LaserAction::CancelCharge
        } else {
            LaserAction::Skip
        }
    } else if has_charge {
        LaserAction::UpdateCharge
    } else {
        LaserAction::StartCharge
    }
}

// ---------------------------------------------------------------------------
// Shooting
// ---------------------------------------------------------------------------

/// Whether a player's tank fires this frame: it is not turning, its fire
/// cooldown is over, the shoot key is held, and it has fewer shells in
/// flight than its shell count allows.
pub fn player_shot_allowed(
    tracker: &BulletTracker,
    tank: u64,
    info: &PlayerInfo,
    tank_type: TankType,
    rotating: bool,
    cooldown_finished: bool,
    shoot_pressed: bool,
) -> (r: bool)
    requires
        tracker.wf(),
        !rotating && cooldown_finished && shoot_pressed ==> stats_of(*info, tank_type).is_some(),
    ensures
        r == (!rotating && cooldown_finished && shoot_pressed
            && bullet_count(tracker@, tank) < stats_of(*info, tank_type).unwrap().shells),
{
    if rotating || !cooldown_finished || !shoot_pressed {
        return false;
    }
    match info.get_stats(tank_type) {
        Some(s) => tracker.can_fire(tank, s.shells),
        None => false,
    }
}

/// Whether an enemy tank fires this frame: it has fewer shells in flight
/// than its limit, and the frame's chance roll came up.
pub fn enemy_shot_allowed(tracker: &BulletTracker, tank: u64, max_bullets: usize, roll_hit: bool) -> (r: bool)
    requires
        tracker.wf(),
    ensures
        r == (bullet_count(tracker@, tank) < max_bullets && roll_hit),
{
    tracker.can_fire(tank, max_bullets) && roll_hit
}

/// The effects a new shell carries: flames when its owner has fire shells,
/// the penetrating glow when its owner has penetration.
#[derive(Clone, Copy, Debug, PartialEq, Eq, Structural)]
pub struct ShellEffects {
    pub fire: bool,
    pub penetrate: bool,
}

/// The effects a shell fired by `owner_type` carries.
pub fn shell_effects(owner_type: TankType, info: &PlayerInfo) -> (e: ShellEffects)
    ensures
        e.fire == match stats_of(*info, owner_type) {
            Some(s) => s.fire_shell,
            None => false,
        },
        e.penetrate == match stats_of(*info, owner_type) {
            Some(s) => s.penetrate,
            None => false,
        },
{
    ShellEffects { fire: info.has_fire_shell(owner_type), penetrate: info.has_penetrate(owner_type) }
}

/// Whether the "insufficient energy" warning may be shown for a tank: only
/// for players, and only when the player's last warning has timed out (or
/// there was none).
pub fn energy_warning_allowed(tank_type: TankType, cooldown_finished: Option<bool>) -> (r: bool)
    ensures
        r == (tank_type != TankType::Enemy && match cooldown_finished {
            Some(f) => f,
            None => true,
        }),
{
    match tank_type {
        TankType::Enemy => false,
        _ => match cooldown_finished {
            Some(f) => f,
            None => true,
        },
    }
}


/// How long a player's "insufficient energy" warning blocks the next one,
/// in milliseconds.
pub const INSUFFICIENT_ENERGY_DISPLAY_MS: u64 = 2000;

/// A warning cooldown after `delta_ms` milliseconds: the time left shrinks
/// (down to zero); no cooldown stays none.
pub open spec fn cooldown_after(c: Option<u64>, delta_ms: u64) -> Option<u64> {
    match c {
        Some(left) => Some(if left >= delta_ms { (left - delta_ms) as u64 } else { 0u64 }),
        None => None,
    }
}

/// Whether a warning cooldown is over: there was none, or its time is up.
pub open spec fn cooldown_over(c: Option<u64>) -> bool {
    match c {
        Some(left) => left == 0,
        None => true,
    }
}

/// Time left before each player may be warned of insufficient energy again
/// (`None`: not warned yet).
#[derive(Clone, Copy, Debug, PartialEq, Eq, Structural)]
pub struct InsufficientEnergyTracker {
    pub p1_cooldown: Option<u64>,
    pub p2_cooldown: Option<u64>,
}

impl Default for InsufficientEnergyTracker {
    /// Nobody warned yet.
    fn default() -> (t: Self)
        ensures
            t.p1_cooldown.is_none(),
            t.p2_cooldown.is_none(),
    {
        InsufficientEnergyTracker { p1_cooldown: None, p2_cooldown: None }
    }
}

fn tick_cooldown(c: Option<u64>, delta_ms: u64) -> (r: Option<u64>)
    ensures
        r == cooldown_after(c, delta_ms),
{
    match c {
        Some(left) => Some(left.saturating_sub(delta_ms)),
        None => None,
    }
}

impl InsufficientEnergyTracker {
    /// Lets `delta_ms` milliseconds pass on both players' cooldowns.
    pub fn tick_all(&mut self, delta_ms: u64)
        ensures
            final(self).p1_cooldown == cooldown_after(old(self).p1_cooldown, delta_ms),
            final(self).p2_cooldown == cooldown_after(old(self).p2_cooldown, delta_ms),
    {
        self.p1_cooldown = tick_cooldown(self.p1_cooldown, delta_ms);
        self.p2_cooldown = tick_cooldown(self.p2_cooldown, delta_ms);
    }

    /// A player lacks energy for a skill: the warning is shown when the
    /// player's cooldown is over, which starts the cooldown again. Enemy
    /// tanks are never warned. Returns whether the warning is shown.
    pub fn try_show_warning(&mut self, tank_type: TankType) -> (shown: bool)
        ensures
            shown == match tank_type {
                TankType::Player1 => cooldown_over(old(self).p1_cooldown),
                TankType::Player2 => cooldown_over(old(self).p2_cooldown),
                TankType::Enemy => false,
            },
            final(self).p1_cooldown == if shown && tank_type == TankType::Player1 {
                Some(INSUFFICIENT_ENERGY_DISPLAY_MS)
            } else {
                old(self).p1_cooldown
            },
            final(self).p2_cooldown == if shown && tank_type == TankType::Player2 {
                Some(INSUFFICIENT_ENERGY_DISPLAY_MS)
            } else {
                old(self).p2_cooldown
            },
    {
        let finished = match tank_type {
            TankType::Player1 => match self.p1_cooldown {
                Some(left) => Some(left == 0),
                None => None,
            },
            TankType::Player2 => match self.p2_cooldown {
                Some(left) => Some(left == 0),
                None => None,
            },
            TankType::Enemy => None,
        };
        let shown = energy_warning_allowed(tank_type, finished);
        if shown {
            match tank_type {
                TankType::Player1 => {
                    self.p1_cooldown = Some(INSUFFICIENT_ENERGY_DISPLAY_MS);
                },
                TankType::Player2 => {
                    self.p2_cooldown = Some(INSUFFICIENT_ENERGY_DISPLAY_MS);
                },
                TankType::Enemy => {},
            }
        }
        shown
    }
}


/// An enemy shell absorbed by an effect or a spare shell costs exactly that
/// thing: the absorbing effect is switched off, a spare shell is one shell
/// fewer, and nothing else about the player changes; the effects are tried
/// in the order fire shell, track chain, penetrate, air cushion, and no
/// effect is ever switched on by a hit. Only a tank with no effect and no
/// spare shell loses a life point.
pub proof fn lemma_absorbing_costs_the_absorber(s: PlayerStats)
    ensures
        ({
            let (a, hit) = enemy_hit_spec(s);
            &&& (a.fire_shell ==> s.fire_shell)
            &&& (a.track_chain ==> s.track_chain)
            &&& (a.penetrate ==> s.penetrate)
            &&& (a.air_cushion ==> s.air_cushion)
            &&& a.shells <= s.shells
            &&& (hit == ShellHit::Absorbed(StatType::FireShell) <==> s.fire_shell)
            &&& (hit == ShellHit::Absorbed(StatType::FireShell) ==> !a.fire_shell
                && a == PlayerStats { fire_shell: a.fire_shell, ..s })
            &&& (hit == ShellHit::Absorbed(StatType::TrackChain) <==> (!s.fire_shell && s.track_chain))
            &&& (hit == ShellHit::Absorbed(StatType::TrackChain) ==> !a.track_chain
                && a == PlayerStats { track_chain: a.track_chain, ..s })
            &&& (hit == ShellHit::Absorbed(StatType::Penetrate) <==> (!s.fire_shell && !s.track_chain && s.penetrate))
            &&& (hit == ShellHit::Absorbed(StatType::Penetrate) ==> !a.penetrate
                && a == PlayerStats { penetrate: a.penetrate, ..s })
            &&& (hit == ShellHit::Absorbed(StatType::AirCushion) <==> (!s.fire_shell && !s.track_chain
                && !s.penetrate && s.air_cushion))
            &&& (hit == ShellHit::Absorbed(StatType::AirCushion) ==> !a.air_cushion
                && a == PlayerStats { air_cushion: a.air_cushion, ..s })
            &&& (hit == ShellHit::Absorbed(StatType::Shell) ==> a.shells + 1 == s.shells
                && a == PlayerStats { shells: a.shells, ..s })
            &&& (hit is Damaged <==> (!s.fire_shell && !s.track_chain && !s.penetrate && !s.air_cushion
                && s.shells <= 1))
            &&& (hit is Damaged ==> a == PlayerStats { life_points: a.life_points, ..s }
                && (s.life_points > 0 ==> a.life_points + 1 == s.life_points)
                && (s.life_points == 0 ==> a.life_points == 0)
                && hit == ShellHit::Damaged { destroyed: a.life_points == 0 })
        }),
{
}

/// Two enemy shells on a tank whose only protection is one effect: the
/// first is absorbed and removes the effect, the second costs a life point.
pub proof fn lemma_one_effect_absorbs_one_shell(s: PlayerStats)
    requires
        (s.fire_shell as int) + (s.track_chain as int) + (s.penetrate as int) + (s.air_cushion as int) == 1,
        s.shells <= 1,
        s.life_points > 0,
    ensures
        enemy_hit_spec(s).1 is Absorbed,
        enemy_hit_spec(enemy_hit_spec(s).0).1 is Damaged,
        enemy_hit_spec(enemy_hit_spec(s).0).0.life_points + 1 == s.life_points,
{
}

/// What a shell does to terrain, by the shell's owner's statistics: a forest
/// burns and goes only under a player's shell with fire shells (and the
/// shell flies on); a brick always goes and stops the shell; steel always
/// stops the shell and goes only under a player's shell with penetration;
/// anything else is untouched.
pub proof fn lemma_terrain_hit_rules(bullet: Bullet, info: PlayerInfo, terrain: TerrainHit)
    ensures
        ({
            let owner = stats_of(info, bullet_owner(bullet));
            let fire = bullet is Player && match owner { Some(s) => s.fire_shell, None => false };
            let pierce = bullet is Player && match owner { Some(s) => s.penetrate, None => false };
            let o = terrain_hit_spec(bullet, owner, terrain);
            &&& o.forest_fire == (terrain == TerrainHit::Forest && fire)
            &&& o.destroy_terrain == ((terrain == TerrainHit::Forest && fire) || terrain == TerrainHit::Brick
                || (terrain == TerrainHit::Steel && pierce))
            &&& o.despawn_bullet == (terrain == TerrainHit::Brick || terrain == TerrainHit::Steel)
            &&& (terrain == TerrainHit::Brick ==> o.spark == Some(SparkSound::BrickHit))
            &&& (terrain == TerrainHit::Steel && pierce ==> o.spark == Some(SparkSound::MetalCrash))
            &&& (terrain == TerrainHit::Forest || terrain == TerrainHit::Other ==> o.spark.is_none())
            &&& (o.extra_hit_sound ==> terrain == TerrainHit::Steel && bullet is Player && !pierce)
        }),
{
}

} // verus!
