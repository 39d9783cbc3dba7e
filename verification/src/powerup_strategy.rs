//! Power-ups and the effect each one has when a player picks it up.

use vstd::prelude::*;
use crate::resources::{info_with, stats_of, CommanderLife, PlayerInfo, PlayerStats};
use crate::localization::{
    powerup_floating_air_cushion, powerup_floating_fire_shell, powerup_floating_fire_speed,
    powerup_floating_hamburger, powerup_floating_penetrate, powerup_floating_protection,
    powerup_floating_repair, powerup_floating_shell, powerup_floating_speed_up,
    powerup_floating_track_chain, text_for,
};
use crate::text::{decimal, replace_all};
use crate::types::{Language, StatType, TankType, COMMANDER_LIFE_MAX, MAX_ATTRIBUTE_VALUE, MAX_SHELLS, POWERUP_ATTRIBUTE_INCREASE};

verus! {

broadcast use vstd::string::group_string_axioms;

/// What applying a power-up to a player changed.
#[derive(Debug, Clone, Copy, PartialEq, Eq, Structural)]
pub enum PowerUpResult {
    /// A statistic shown on the HUD changed (or was pushed against its maximum).
    StatChanged(StatType),
    /// No HUD statistic changed.
    NoStatChange,
    /// The commander's life is concerned, not the player's statistics.
    CommanderLifeChanged,
}

/// The effect of a power-up.
#[derive(Debug, Clone, Copy, PartialEq, Eq, Structural)]
pub enum PowerUpStrategy {
    SpeedUp,
    Protection,
    FireSpeed,
    FireShell,
    TrackChain,
    Penetrate,
    Repair,
    Hamburger,
    AirCushion,
    Shell,
    NoEffect,
}

impl Default for PowerUpStrategy {
    /// No effect.
    fn default() -> (s: Self)
        ensures
            s == PowerUpStrategy::NoEffect,
    {
        PowerUpStrategy::NoEffect
    }
}

/// An attribute raised by a power-up: `POWERUP_ATTRIBUTE_INCREASE` more, capped at
/// `MAX_ATTRIBUTE_VALUE`; an attribute already at (or above) the cap stays as it is.
pub open spec fn raised_attribute(v: usize) -> usize {
    if v < MAX_ATTRIBUTE_VALUE {
        if v + POWERUP_ATTRIBUTE_INCREASE < MAX_ATTRIBUTE_VALUE {
            (v + POWERUP_ATTRIBUTE_INCREASE) as usize
        } else {
            MAX_ATTRIBUTE_VALUE
        }
    } else {
        v
    }
}

/// The statistics after a power-up, and what it reports.
pub open spec fn apply_spec(s: PowerUpStrategy, stats: PlayerStats) -> (PlayerStats, PowerUpResult) {
    match s {
        PowerUpStrategy::SpeedUp => (
            PlayerStats { speed: raised_attribute(stats.speed), ..stats },
            PowerUpResult::StatChanged(StatType::Speed),
        ),
        PowerUpStrategy::Protection => (
            PlayerStats { protection: raised_attribute(stats.protection), ..stats },
            PowerUpResult::StatChanged(StatType::Protection),
        ),
        PowerUpStrategy::FireSpeed => (
            PlayerStats { fire_speed: raised_attribute(stats.fire_speed), ..stats },
            PowerUpResult::StatChanged(StatType::FireSpeed),
        ),
        PowerUpStrategy::FireShell => (
            PlayerStats { fire_shell: true, ..stats },
            PowerUpResult::StatChanged(StatType::FireShell),
        ),
        PowerUpStrategy::TrackChain => (
            PlayerStats { track_chain: true, ..stats },
            PowerUpResult::StatChanged(StatType::TrackChain),
        ),
        PowerUpStrategy::Penetrate => (
            PlayerStats { penetrate: true, ..stats },
            PowerUpResult::StatChanged(StatType::Penetrate),
        ),
        PowerUpStrategy::Repair => (
            PlayerStats {
                life_points: if stats.life_points < COMMANDER_LIFE_MAX {
                    (stats.life_points + 1) as usize
                } else {
                    stats.life_points
                },
                ..stats
            },
            PowerUpResult::NoStatChange,
        ),
        PowerUpStrategy::Hamburger => (stats, PowerUpResult::CommanderLifeChanged),
        PowerUpStrategy::AirCushion => (
            PlayerStats { air_cushion: true, ..stats },
            PowerUpResult::StatChanged(StatType::AirCushion),
        ),
        PowerUpStrategy::Shell => (
            PlayerStats {
                shells: if stats.shells < MAX_SHELLS { (stats.shells + 1) as usize } else { stats.shells },
                ..stats
            },
            PowerUpResult::StatChanged(StatType::Shell),
        ),
        PowerUpStrategy::NoEffect => (stats, PowerUpResult::NoStatChange),
    }
}

fn raise_attribute(v: usize) -> (r: usize)
    ensures
        r == raised_attribute(v),
{
    if v < MAX_ATTRIBUTE_VALUE {
        let raised = v + POWERUP_ATTRIBUTE_INCREASE;
        if raised < MAX_ATTRIBUTE_VALUE { raised } else { MAX_ATTRIBUTE_VALUE }
    } else {
        v
    }
}

impl PowerUpStrategy {
    /// Applies the power-up's effect to a player's statistics and tells
    /// which statistic changed. Attribute power-ups add 20 points up to 100,
    /// effect power-ups switch their effect on, repair adds a life point (up
    /// to 3), shell adds a shell (up to 2); the hamburger leaves the player
    /// unchanged and reports that the commander is concerned.
    pub fn apply(&self, stats: &mut PlayerStats) -> (r: PowerUpResult)
        ensures
            (*final(stats), r) == apply_spec(*self, *old(stats)),
    {
        match self {
            PowerUpStrategy::SpeedUp => {
                stats.speed = raise_attribute(stats.speed);
                PowerUpResult::StatChanged(StatType::Speed)
            },
            PowerUpStrategy::Protection => {
                stats.protection = raise_attribute(stats.protection);
                PowerUpResult::StatChanged(StatType::Protection)
            },
            PowerUpStrategy::FireSpeed => {
                stats.fire_speed = raise_attribute(stats.fire_speed);
                PowerUpResult::StatChanged(StatType::FireSpeed)
            },
            PowerUpStrategy::FireShell => {
                stats.fire_shell = true;
                PowerUpResult::StatChanged(StatType::FireShell)
            },
            PowerUpStrategy::TrackChain => {
                stats.track_chain = true;
                PowerUpResult::StatChanged(StatType::TrackChain)
            },
            PowerUpStrategy::Penetrate => {
                stats.penetrate = true;
                PowerUpResult::StatChanged(StatType::Penetrate)
            },
            PowerUpStrategy::Repair => {
                if stats.life_points < COMMANDER_LIFE_MAX {
                    stats.life_points = stats.life_points + 1;
                }
                PowerUpResult::NoStatChange
            },
            PowerUpStrategy::Hamburger => PowerUpResult::CommanderLifeChanged,
            PowerUpStrategy::AirCushion => {
                stats.air_cushion = true;
                PowerUpResult::StatChanged(StatType::AirCushion)
            },
            PowerUpStrategy::Shell => {
                if stats.shells < MAX_SHELLS {
                    stats.shells = stats.shells + 1;
                }
                PowerUpResult::StatChanged(StatType::Shell)
            },
            PowerUpStrategy::NoEffect => PowerUpResult::NoStatChange,
        }
    }

    /// Whether picking this power-up changes the tank's collision groups
    /// (the air cushion lets it cross the sea).
    pub fn update_filter_groups(&self) -> (r: bool)
        ensures
            r == (*self == PowerUpStrategy::AirCushion),
    {
        match self {
            PowerUpStrategy::AirCushion => true,
            _ => false,
        }
    }

    /// Whether this power-up heals the commander instead of the player.
    pub fn affects_commander(&self) -> (r: bool)
        ensures
            r == (*self == PowerUpStrategy::Hamburger),
    {
        match self {
            PowerUpStrategy::Hamburger => true,
            _ => false,
        }
    }
}

/// Applying any power-up keeps a player's statistics within their bounds,
/// and never lowers an attribute, a life point, a shell or the score.
pub proof fn lemma_apply_keeps_stats_valid(s: PowerUpStrategy, stats: PlayerStats)
    requires
        stats.valid(),
    ensures
        apply_spec(s, stats).0.valid(),
        apply_spec(s, stats).0.speed >= stats.speed,
        apply_spec(s, stats).0.fire_speed >= stats.fire_speed,
        apply_spec(s, stats).0.protection >= stats.protection,
        apply_spec(s, stats).0.shells >= stats.shells,
        apply_spec(s, stats).0.life_points >= stats.life_points,
        apply_spec(s, stats).0.score == stats.score,
        apply_spec(s, stats).0.energy_points == stats.energy_points,
{
}

/// An attribute power-up on an attribute below the cap raises it by 20 or to the cap.
pub proof fn lemma_attribute_raise(v: usize)
    requires
        v <= MAX_ATTRIBUTE_VALUE,
    ensures
        raised_attribute(v) <= MAX_ATTRIBUTE_VALUE,
        v < MAX_ATTRIBUTE_VALUE ==> raised_attribute(v) > v,
        raised_attribute(v) == if v + POWERUP_ATTRIBUTE_INCREASE <= MAX_ATTRIBUTE_VALUE {
            v + POWERUP_ATTRIBUTE_INCREASE
        } else {
            MAX_ATTRIBUTE_VALUE as int
        },
{
}

/// The power-ups that can lie on the map.
#[derive(Debug, Clone, Copy, PartialEq, Eq, Structural)]
pub enum PowerUp {
    SpeedUp,
    Protection,
    FireSpeed,
    FireShell,
    TrackChain,
    Penetrate,
    Repair,
    Hamburger,
    AirCushion,
    Shell,
}

/// The effect of a power-up kind.
pub open spec fn strategy_of(p: PowerUp) -> PowerUpStrategy {
    match p {
        PowerUp::SpeedUp => PowerUpStrategy::SpeedUp,
        PowerUp::Protection => PowerUpStrategy::Protection,
        PowerUp::FireSpeed => PowerUpStrategy::FireSpeed,
        PowerUp::FireShell => PowerUpStrategy::FireShell,
        PowerUp::TrackChain => PowerUpStrategy::TrackChain,
        PowerUp::Penetrate => PowerUpStrategy::Penetrate,
        PowerUp::Repair => PowerUpStrategy::Repair,
        PowerUp::Hamburger => PowerUpStrategy::Hamburger,
        PowerUp::AirCushion => PowerUpStrategy::AirCushion,
        PowerUp::Shell => PowerUpStrategy::Shell,
    }
}

/// The ten power-up kinds, in the order the random spawner draws from.
pub open spec fn all_powerups() -> Seq<PowerUp> {
    seq![
        PowerUp::SpeedUp,
        PowerUp::Protection,
        PowerUp::FireSpeed,
        PowerUp::FireShell,
        PowerUp::TrackChain,
        PowerUp::Penetrate,
        PowerUp::Repair,
        PowerUp::Hamburger,
        PowerUp::AirCushion,
        PowerUp::Shell,
    ]
}

/// A template filled with the attribute bonus of a power-up.
pub open spec fn with_bonus(template: Seq<char>) -> Seq<char> {
    replace_all(template, "{var}"@, decimal(POWERUP_ATTRIBUTE_INCREASE as nat))
}

/// The text that pops up over a tank that picks up a power-up.
pub open spec fn floating_text_of(p: PowerUp, language: Language) -> Seq<char> {
    match p {
        PowerUp::SpeedUp => with_bonus(text_for("速度 +{var}"@, "Speed +{var}"@, language)),
        PowerUp::Protection => with_bonus(text_for("护甲 +{var}"@, "Armor +{var}"@, language)),
        PowerUp::FireSpeed => with_bonus(text_for("射速 +{var}"@, "FireRate +{var}"@, language)),
        PowerUp::Repair => text_for("生命 +1"@, "Life +1"@, language),
        PowerUp::Hamburger => text_for("司令生命 +1"@, "Commander +1"@, language),
        PowerUp::Shell => text_for("炮弹 +1"@, "Shell +1"@, language),
        PowerUp::FireShell => text_for("火焰"@, "Fire"@, language),
        PowerUp::TrackChain => text_for("履带"@, "Chain"@, language),
        PowerUp::Penetrate => text_for("穿透"@, "Penetrate"@, language),
        PowerUp::AirCushion => text_for("气垫"@, "Cushion"@, language),
    }
}

impl PowerUp {
    /// The effect this power-up has.
    pub fn into_strategy(self) -> (s: PowerUpStrategy)
        ensures
            s == strategy_of(self),
    {
        match self {
            PowerUp::SpeedUp => PowerUpStrategy::SpeedUp,
            PowerUp::Protection => PowerUpStrategy::Protection,
            PowerUp::FireSpeed => PowerUpStrategy::FireSpeed,
            PowerUp::FireShell => PowerUpStrategy::FireShell,
            PowerUp::TrackChain => PowerUpStrategy::TrackChain,
            PowerUp::Penetrate => PowerUpStrategy::Penetrate,
            PowerUp::Repair => PowerUpStrategy::Repair,
            PowerUp::Hamburger => PowerUpStrategy::Hamburger,
            PowerUp::AirCushion => PowerUpStrategy::AirCushion,
            PowerUp::Shell => PowerUpStrategy::Shell,
        }
    }

    /// The text that pops up over the tank that picks this power-up up;
    /// attribute power-ups show their bonus ("Speed +20").
    pub fn get_floating_text(&self, language: Language) -> (s: String)
        ensures
            s@ == floating_text_of(*self, language),
    {
        match self {
            PowerUp::SpeedUp => powerup_floating_speed_up().format(language, POWERUP_ATTRIBUTE_INCREASE),
            PowerUp::Protection => powerup_floating_protection().format(language, POWERUP_ATTRIBUTE_INCREASE),
            PowerUp::FireSpeed => powerup_floating_fire_speed().format(language, POWERUP_ATTRIBUTE_INCREASE),
            PowerUp::Repair => powerup_floating_repair().get(language).to_string(),
            PowerUp::Hamburger => powerup_floating_hamburger().get(language).to_string(),
            PowerUp::Shell => powerup_floating_shell().get(language).to_string(),
            PowerUp::FireShell => powerup_floating_fire_shell().get(language).to_string(),
            PowerUp::TrackChain => powerup_floating_track_chain().get(language).to_string(),
            PowerUp::Penetrate => powerup_floating_penetrate().get(language).to_string(),
            PowerUp::AirCushion => powerup_floating_air_cushion().get(language).to_string(),
        }
    }

    /// The power-up kind at a position of the spawner's list (`index < 10`).
    pub fn from_index(index: usize) -> (p: PowerUp)
        requires
            index < 10,
        ensures
            p == all_powerups()[index as int],
    {
        if index == 0 {
            PowerUp::SpeedUp
        } else if index == 1 {
            PowerUp::Protection
        } else if index == 2 {
            PowerUp::FireSpeed
        } else if index == 3 {
            PowerUp::FireShell
        } else if index == 4 {
            PowerUp::TrackChain
        } else if index == 5 {
            PowerUp::Penetrate
        } else if index == 6 {
            PowerUp::Repair
        } else if index == 7 {
            PowerUp::Hamburger
        } else if index == 8 {
            PowerUp::AirCushion
        } else {
            PowerUp::Shell
        }
    }
}

/// What a player picking up a power-up leads to besides the new statistics.
#[derive(Debug, Clone, Copy, PartialEq, Eq, Structural)]
pub struct PickupOutcome {
    /// The HUD line to blink, if a shown statistic changed.
    pub stat_changed: Option<StatType>,
    /// The tank now crosses the sea (air cushion).
    pub update_filter_groups: bool,
}

/// A player's tank picks up a power-up: the hamburger heals the commander
/// by a point (up to `COMMANDER_LIFE_MAX`), every power-up is applied to the
/// player's statistics, a changed shown statistic is reported for the HUD,
/// and the air cushion changes the tank's collision groups.
pub fn pick_up_powerup(
    powerup: PowerUp,
    tank_type: TankType,
    player_info: &mut PlayerInfo,
    commander_life: &mut CommanderLife,
) -> (out: PickupOutcome)
    ensures
        final(commander_life).life_points == if strategy_of(powerup) == PowerUpStrategy::Hamburger
            && old(commander_life).life_points < COMMANDER_LIFE_MAX {
            (old(commander_life).life_points + 1) as usize
        } else {
            old(commander_life).life_points
        },
        match stats_of(*old(player_info), tank_type) {
            Some(s) => {
                let (after, result) = apply_spec(strategy_of(powerup), s);
                &&& *final(player_info) == info_with(*old(player_info), tank_type, after)
                &&& out.stat_changed == match result {
                    PowerUpResult::StatChanged(t) => Some(t),
                    _ => None,
                }
            },
            None => *final(player_info) == *old(player_info) && out.stat_changed.is_none(),
        },
        out.update_filter_groups == (strategy_of(powerup) == PowerUpStrategy::AirCushion),
{
    let strategy = powerup.into_strategy();
    if strategy.affects_commander() && commander_life.life_points < COMMANDER_LIFE_MAX {
        commander_life.life_points = commander_life.life_points + 1;
    }
    let mut stat_changed: Option<StatType> = None;
    match player_info.get_stats(tank_type) {
        Some(s) => {
            let mut stats = *s;
            let result = strategy.apply(&mut stats);
            player_info.set_stats(tank_type, stats);
            if let PowerUpResult::StatChanged(t) = result {
                stat_changed = Some(t);
            }
        },
        None => {},
    }
    PickupOutcome { stat_changed, update_filter_groups: strategy.update_filter_groups() }
}


/// What each power-up does to the statistics, field by field: an attribute
/// power-up raises its attribute by 20 without passing 100 (an attribute at
/// 100 or more stays); an effect power-up switches its effect on; repair
/// adds exactly one life point below three; shell adds exactly one shell
/// below two; the hamburger and no effect leave the player as is. Every
/// other statistic is unchanged.
pub proof fn lemma_powerup_field_effects(stats: PlayerStats)
    ensures
        ({
            let r = apply_spec(PowerUpStrategy::Repair, stats).0;
            &&& r == PlayerStats { life_points: r.life_points, ..stats }
            &&& (stats.life_points < 3 ==> r.life_points == stats.life_points + 1)
            &&& (stats.life_points >= 3 ==> r.life_points == stats.life_points)
        }),
        ({
            let r = apply_spec(PowerUpStrategy::Shell, stats).0;
            &&& r == PlayerStats { shells: r.shells, ..stats }
            &&& (stats.shells < 2 ==> r.shells == stats.shells + 1)
            &&& (stats.shells >= 2 ==> r.shells == stats.shells)
        }),
        ({
            let r = apply_spec(PowerUpStrategy::SpeedUp, stats).0;
            &&& r == PlayerStats { speed: r.speed, ..stats }
            &&& (stats.speed < 100 ==> r.speed == if stats.speed + 20 < 100 { stats.speed + 20 } else { 100 })
            &&& (stats.speed >= 100 ==> r.speed == stats.speed)
        }),
        ({
            let r = apply_spec(PowerUpStrategy::Protection, stats).0;
            &&& r == PlayerStats { protection: r.protection, ..stats }
            &&& (stats.protection < 100 ==> r.protection == if stats.protection + 20 < 100 {
                stats.protection + 20
            } else {
                100
            })
            &&& (stats.protection >= 100 ==> r.protection == stats.protection)
        }),
        ({
            let r = apply_spec(PowerUpStrategy::FireSpeed, stats).0;
            &&& r == PlayerStats { fire_speed: r.fire_speed, ..stats }
            &&& (stats.fire_speed < 100 ==> r.fire_speed == if stats.fire_speed + 20 < 100 {
                stats.fire_speed + 20
            } else {
                100
            })
            &&& (stats.fire_speed >= 100 ==> r.fire_speed == stats.fire_speed)
        }),
        ({
            let r = apply_spec(PowerUpStrategy::FireShell, stats).0;
            r.fire_shell && r == PlayerStats { fire_shell: true, ..stats }
        }),
        ({
            let r = apply_spec(PowerUpStrategy::TrackChain, stats).0;
            r.track_chain && r == PlayerStats { track_chain: true, ..stats }
        }),
        ({
            let r = apply_spec(PowerUpStrategy::Penetrate, stats).0;
            r.penetrate && r == PlayerStats { penetrate: true, ..stats }
        }),
        ({
            let r = apply_spec(PowerUpStrategy::AirCushion, stats).0;
            r.air_cushion && r == PlayerStats { air_cushion: true, ..stats }
        }),
        apply_spec(PowerUpStrategy::Hamburger, stats).0 == stats,
        apply_spec(PowerUpStrategy::NoEffect, stats).0 == stats,
{
}

/// Repairing twice from one life point gives three, and a third repair
/// changes nothing: each repair is one life point, up to three.
pub proof fn lemma_repairs_add_one_each(stats: PlayerStats)
    requires
        stats.life_points == 1,
    ensures
        apply_spec(PowerUpStrategy::Repair, stats).0.life_points == 2,
        apply_spec(PowerUpStrategy::Repair, apply_spec(PowerUpStrategy::Repair, stats).0).0.life_points == 3,
        apply_spec(
            PowerUpStrategy::Repair,
            apply_spec(PowerUpStrategy::Repair, apply_spec(PowerUpStrategy::Repair, stats).0).0,
        ).0.life_points == 3,
{
}

} // verus!
