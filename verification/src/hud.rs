//! What the heads-up display shows: the attribute lines of a player, the
//! stage and enemy counters, and the combo pop-up.

use vstd::prelude::*;
use crate::localization::{
    combo_floating_2, combo_floating_3, combo_floating_4, combo_floating_5, combo_floating_high,
    enemy_count_text, fill_named, hud_label_air_cushion, hud_label_fire_shell,
    hud_label_fire_speed, hud_label_penetrate, hud_label_protection, hud_label_score,
    hud_label_shells, hud_label_speed, hud_label_track_chain, hud_off, hud_on, hud_player1_name,
    hud_player2_name, stage_text, text_for,
};
use crate::resources::{EnemySpawnState, PlayerInfo, PlayerStats};
use crate::text::{decimal, replace_all, usize_to_decimal};
use crate::types::{Language, StatType, TankType};

verus! {

/// A percentage shown at or above this value reads "MAX".
pub const HUD_MAX_PERCENT: usize = 100;

/// A shell count shown at or above this value is at its maximum.
pub const HUD_MAX_SHELLS: usize = 2;

/// The attribute a line of a player's panel shows.
#[derive(Clone, Copy, Debug, PartialEq, Eq, Structural)]
pub enum HudStatType {
    Speed,
    FireSpeed,
    Protection,
    Shells,
    FireShell,
    Penetrate,
    TrackChain,
    AirCushion,
    Score,
}

/// The rows of a player panel, from the top of the window.
#[derive(Clone, Copy, Debug, PartialEq, Eq, Structural)]
pub enum HudYPosition {
    Name,
    Speed,
    FireSpeed,
    Protection,
    Shells,
    EffectsTitle,
    FireShell,
    Penetrate,
    TrackChain,
    AirCushion,
    InsufficientEnergy,
    Score,
    Avatar,
    BarHealth,
    BarBlue,
}

impl HudYPosition {
    /// The height of the row above the bottom of the window, in pixels.
    pub fn offset(self) -> (y: u32)
        ensures
            y == match self {
                HudYPosition::Name => 780u32,
                HudYPosition::Speed => 830u32,
                HudYPosition::FireSpeed => 880u32,
                HudYPosition::Protection => 930u32,
                HudYPosition::Shells => 980u32,
                HudYPosition::EffectsTitle => 320u32,
                HudYPosition::FireShell => 370u32,
                HudYPosition::Penetrate => 420u32,
                HudYPosition::TrackChain => 470u32,
                HudYPosition::AirCushion => 520u32,
                HudYPosition::InsufficientEnergy => 610u32,
                HudYPosition::Score => 50u32,
                HudYPosition::Avatar => 150u32,
                HudYPosition::BarHealth => 235u32,
                HudYPosition::BarBlue => 250u32,
            },
    {
        match self {
            HudYPosition::Name => 780,
            HudYPosition::Speed => 830,
            HudYPosition::FireSpeed => 880,
            HudYPosition::Protection => 930,
            HudYPosition::Shells => 980,
            HudYPosition::EffectsTitle => 320,
            HudYPosition::FireShell => 370,
            HudYPosition::Penetrate => 420,
            HudYPosition::TrackChain => 470,
            HudYPosition::AirCushion => 520,
            HudYPosition::InsufficientEnergy => 610,
            HudYPosition::Score => 50,
            HudYPosition::Avatar => 150,
            HudYPosition::BarHealth => 235,
            HudYPosition::BarBlue => 250,
        }
    }
}

/// A line of a player panel: its row and the attribute it shows.
#[derive(Clone, Copy, Debug, PartialEq, Eq, Structural)]
pub struct HudElementConfig {
    pub y_position: HudYPosition,
    pub stat_type: HudStatType,
}

/// The percentage lines of a player panel: speed, fire speed, protection.
pub open spec fn percent_lines() -> Seq<HudElementConfig> {
    seq![
        HudElementConfig { y_position: HudYPosition::Speed, stat_type: HudStatType::Speed },
        HudElementConfig { y_position: HudYPosition::FireSpeed, stat_type: HudStatType::FireSpeed },
        HudElementConfig { y_position: HudYPosition::Protection, stat_type: HudStatType::Protection },
    ]
}

/// The effect lines of a player panel: fire shell, penetrate, track chain,
/// air cushion.
pub open spec fn effect_lines() -> Seq<HudElementConfig> {
    seq![
        HudElementConfig { y_position: HudYPosition::FireShell, stat_type: HudStatType::FireShell },
        HudElementConfig { y_position: HudYPosition::Penetrate, stat_type: HudStatType::Penetrate },
        HudElementConfig { y_position: HudYPosition::TrackChain, stat_type: HudStatType::TrackChain },
        HudElementConfig { y_position: HudYPosition::AirCushion, stat_type: HudStatType::AirCushion },
    ]
}

/// The percentage lines of a player panel, top to bottom.
pub fn percent_stat_configs() -> (v: Vec<HudElementConfig>)
    ensures
        v@ == percent_lines(),
{
    let v = vec![
        HudElementConfig { y_position: HudYPosition::Speed, stat_type: HudStatType::Speed },
        HudElementConfig { y_position: HudYPosition::FireSpeed, stat_type: HudStatType::FireSpeed },
        HudElementConfig { y_position: HudYPosition::Protection, stat_type: HudStatType::Protection },
    ];
    assert(v@ =~= percent_lines());
    v
}

/// The effect lines of a player panel, top to bottom.
pub fn effect_stat_configs() -> (v: Vec<HudElementConfig>)
    ensures
        v@ == effect_lines(),
{
    let v = vec![
        HudElementConfig { y_position: HudYPosition::FireShell, stat_type: HudStatType::FireShell },
        HudElementConfig { y_position: HudYPosition::Penetrate, stat_type: HudStatType::Penetrate },
        HudElementConfig { y_position: HudYPosition::TrackChain, stat_type: HudStatType::TrackChain },
        HudElementConfig { y_position: HudYPosition::AirCushion, stat_type: HudStatType::AirCushion },
    ];
    assert(v@ =~= effect_lines());
    v
}

/// Marks a line of the first player's panel.
#[derive(Clone, Copy, Debug)]
pub struct Player1Hud;

/// Marks a line of the second player's panel.
#[derive(Clone, Copy, Debug)]
pub struct Player2Hud;

/// The line a changed statistic is shown on.
pub open spec fn hud_stat_of(s: StatType) -> HudStatType {
    match s {
        StatType::Speed => HudStatType::Speed,
        StatType::FireSpeed => HudStatType::FireSpeed,
        StatType::Protection => HudStatType::Protection,
        StatType::Shell => HudStatType::Shells,
        StatType::FireShell => HudStatType::FireShell,
        StatType::Penetrate => HudStatType::Penetrate,
        StatType::TrackChain => HudStatType::TrackChain,
        StatType::AirCushion => HudStatType::AirCushion,
        StatType::Score => HudStatType::Score,
    }
}

impl From<StatType> for HudStatType {
    fn from(stat_type: StatType) -> (r: Self) {
        match stat_type {
            StatType::Speed => HudStatType::Speed,
            StatType::FireSpeed => HudStatType::FireSpeed,
            StatType::Protection => HudStatType::Protection,
            StatType::Shell => HudStatType::Shells,
            StatType::FireShell => HudStatType::FireShell,
            StatType::Penetrate => HudStatType::Penetrate,
            StatType::TrackChain => HudStatType::TrackChain,
            StatType::AirCushion => HudStatType::AirCushion,
            StatType::Score => HudStatType::Score,
        }
    }
}

impl vstd::std_specs::convert::FromSpecImpl<StatType> for HudStatType {
    open spec fn obeys_from_spec() -> bool {
        true
    }

    open spec fn from_spec(v: StatType) -> HudStatType {
        hud_stat_of(v)
    }
}

/// The value a line shows, before it is written out.
#[derive(Clone, Copy, Debug, PartialEq, Eq, Structural)]
pub enum StatValue {
    /// A percentage (speed, fire speed, protection).
    Percent(usize),
    /// A count (shells, score).
    Count(usize),
    /// An effect that is on or off.
    Bool(bool),
}

/// How a value is written: a percentage as "MAX" once at its maximum and
/// otherwise as its number and `%`, a count as its number, a flag as the
/// given on or off word.
pub open spec fn stat_value_text(v: StatValue, is_max: bool, on: Seq<char>, off: Seq<char>) -> Seq<char> {
    match v {
        StatValue::Percent(p) => if is_max { "MAX"@ } else { decimal(p as nat).push('%') },
        StatValue::Count(c) => decimal(c as nat),
        StatValue::Bool(b) => if b { on } else { off },
    }
}

impl StatValue {
    /// Writes the value out: "MAX", "60%", "2", or the on or off word.
    pub fn format(self, is_max: bool, label_on: &'static str, label_off: &'static str) -> (s: String)
        ensures
            s@ == stat_value_text(self, is_max, label_on@, label_off@),
    {
        match self {
            StatValue::Percent(v) => {
                if is_max {
                    proof {
                        reveal_strlit("MAX");
                    }
                    "MAX".to_string()
                } else {
                    let mut s = usize_to_decimal(v);
                    s.append("%");
                    proof {
                        reveal_strlit("%");
                    }
                    s
                }
            },
            StatValue::Count(v) => usize_to_decimal(v),
            StatValue::Bool(v) => if v {
                label_on.to_string()
            } else {
                label_off.to_string()
            },
        }
    }
}

/// The label in front of a line.
pub open spec fn label_text(t: HudStatType, language: Language) -> Seq<char> {
    match t {
        HudStatType::Speed => text_for("速度:"@, "Speed:"@, language),
        HudStatType::FireSpeed => text_for("射速:"@, "Fire Speed:"@, language),
        HudStatType::Protection => text_for("护盾:"@, "Protection:"@, language),
        HudStatType::Shells => text_for("炮弹:"@, "Shells:"@, language),
        HudStatType::FireShell => text_for("火焰炮弹"@, "Fire Shell"@, language),
        HudStatType::Penetrate => text_for("穿透"@, "Penetrate"@, language),
        HudStatType::TrackChain => text_for("履带链"@, "Track Chain"@, language),
        HudStatType::AirCushion => text_for("气垫"@, "Air Cushion"@, language),
        HudStatType::Score => text_for("分数:"@, "Scores:"@, language),
    }
}

/// The value a line shows for a player's statistics.
pub open spec fn value_of(t: HudStatType, stats: PlayerStats) -> StatValue {
    match t {
        HudStatType::Speed => StatValue::Percent(stats.speed),
        HudStatType::FireSpeed => StatValue::Percent(stats.fire_speed),
        HudStatType::Protection => StatValue::Percent(stats.protection),
        HudStatType::Shells => StatValue::Count(stats.shells),
        HudStatType::FireShell => StatValue::Bool(stats.fire_shell),
        HudStatType::Penetrate => StatValue::Bool(stats.penetrate),
        HudStatType::TrackChain => StatValue::Bool(stats.track_chain),
        HudStatType::AirCushion => StatValue::Bool(stats.air_cushion),
        HudStatType::Score => StatValue::Count(stats.score),
    }
}

/// Whether a line is at its maximum: a percentage at 100 or more, two or
/// more shells, an effect that is on. The score has no maximum.
pub open spec fn at_max(t: HudStatType, stats: PlayerStats) -> bool {
    match t {
        HudStatType::Speed => stats.speed >= HUD_MAX_PERCENT,
        HudStatType::FireSpeed => stats.fire_speed >= HUD_MAX_PERCENT,
        HudStatType::Protection => stats.protection >= HUD_MAX_PERCENT,
        HudStatType::Shells => stats.shells >= HUD_MAX_SHELLS,
        HudStatType::FireShell => stats.fire_shell,
        HudStatType::Penetrate => stats.penetrate,
        HudStatType::TrackChain => stats.track_chain,
        HudStatType::AirCushion => stats.air_cushion,
        HudStatType::Score => false,
    }
}

impl HudStatType {
    /// The label in front of the line, in the given language.
    pub fn get_label(self, language: Language) -> (s: &'static str)
        ensures
            s@ == label_text(self, language),
    {
        match self {
            HudStatType::Speed => hud_label_speed().get(language),
            HudStatType::FireSpeed => hud_label_fire_speed().get(language),
            HudStatType::Protection => hud_label_protection().get(language),
            HudStatType::Shells => hud_label_shells().get(language),
            HudStatType::FireShell => hud_label_fire_shell().get(language),
            HudStatType::Penetrate => hud_label_penetrate().get(language),
            HudStatType::TrackChain => hud_label_track_chain().get(language),
            HudStatType::AirCushion => hud_label_air_cushion().get(language),
            HudStatType::Score => hud_label_score().get(language),
        }
    }

    /// The value the line shows for these statistics.
    pub fn get_value(self, stats: &PlayerStats) -> (v: StatValue)
        ensures
            v == value_of(self, *stats),
    {
        match self {
            HudStatType::Speed => StatValue::Percent(stats.speed),
            HudStatType::FireSpeed => StatValue::Percent(stats.fire_speed),
            HudStatType::Protection => StatValue::Percent(stats.protection),
            HudStatType::Shells => StatValue::Count(stats.shells),
            HudStatType::FireShell => StatValue::Bool(stats.fire_shell),
            HudStatType::Penetrate => StatValue::Bool(stats.penetrate),
            HudStatType::TrackChain => StatValue::Bool(stats.track_chain),
            HudStatType::AirCushion => StatValue::Bool(stats.air_cushion),
            HudStatType::Score => StatValue::Count(stats.score),
        }
    }

    /// Whether the line is at its maximum for these statistics.
    pub fn is_max(self, stats: &PlayerStats) -> (r: bool)
        ensures
            r == at_max(self, *stats),
    {
        match self {
            HudStatType::Speed => stats.speed >= HUD_MAX_PERCENT,
            HudStatType::FireSpeed => stats.fire_speed >= HUD_MAX_PERCENT,
            HudStatType::Protection => stats.protection >= HUD_MAX_PERCENT,
            HudStatType::Shells => stats.shells >= HUD_MAX_SHELLS,
            HudStatType::FireShell => stats.fire_shell,
            HudStatType::Penetrate => stats.penetrate,
            HudStatType::TrackChain => stats.track_chain,
            HudStatType::AirCushion => stats.air_cushion,
            HudStatType::Score => false,
        }
    }
}

/// A whole line of a player's panel: its label, then its value.
pub open spec fn stat_line(stats: PlayerStats, t: HudStatType, language: Language) -> Seq<char> {
    label_text(t, language) + stat_value_text(
        value_of(t, stats),
        at_max(t, stats),
        text_for("开启"@, "On"@, language),
        text_for("关闭"@, "Off"@, language),
    )
}

/// The text of one line of a player's panel, e.g. "Speed:60%" or
/// "Fire Shell On".
pub fn update_single_player_text(stats: &PlayerStats, stat_type: HudStatType, language: Language) -> (s: String)
    ensures
        s@ == stat_line(*stats, stat_type, language),
{
    let prefix = stat_type.get_label(language);
    let value = stat_type.get_value(stats);
    let is_max = stat_type.is_max(stats);
    let label_on = hud_on().get(language);
    let label_off = hud_off().get(language);
    let formatted_value = value.format(is_max, label_on, label_off);
    let mut s = prefix.to_string();
    s.append(formatted_value.as_str());
    s
}

/// Whether a line of a player's panel is at its maximum; a line that
/// belongs to neither panel never is.
pub fn is_hud_stat_at_max_value(
    stat_type: HudStatType,
    player_info: &PlayerInfo,
    player_hud: Option<&Player1Hud>,
    player_hud2: Option<&Player2Hud>,
) -> (r: bool)
    requires
        player_hud.is_none() && player_hud2.is_some() ==> player_info.player2.is_some(),
    ensures
        r == if player_hud.is_some() {
            at_max(stat_type, player_info.player1)
        } else if player_hud2.is_some() {
            at_max(stat_type, player_info.player2.unwrap())
        } else {
            false
        },
{
    if player_hud.is_some() {
        stat_type.is_max(&player_info.player1)
    } else if player_hud2.is_some() {
        match &player_info.player2 {
            Some(stats) => stat_type.is_max(stats),
            None => false,
        }
    } else {
        false
    }
}

/// The name shown over a player's panel.
pub open spec fn player_name_text(player_type: TankType, language: Language) -> Seq<char> {
    match player_type {
        TankType::Player1 => text_for("南敬业"@, "Nan Jingye"@, language),
        TankType::Player2 => text_for("南金成"@, "Nan Jincheng"@, language),
        TankType::Enemy => "Enemy"@,
    }
}

/// The name shown over a player's panel.
pub fn get_player_name(player_type: TankType, language: Language) -> (s: &'static str)
    ensures
        s@ == player_name_text(player_type, language),
{
    match player_type {
        TankType::Player1 => hud_player1_name().get(language),
        TankType::Player2 => hud_player2_name().get(language),
        TankType::Enemy => {
            proof {
                reveal_strlit("Enemy");
            }
            "Enemy"
        },
    }
}

/// The statistics a panel starts from: the player's own, or all zeros
/// where the tank has none.
pub fn get_player_stats_for_spawn(player_info: &PlayerInfo, player_type: TankType) -> (s: PlayerStats)
    ensures
        s == match player_type {
            TankType::Player1 => player_info.player1,
            TankType::Player2 => match player_info.player2 {
                Some(p) => p,
                None => PlayerStats::spec_zero(),
            },
            TankType::Enemy => PlayerStats::spec_zero(),
        },
{
    match player_type {
        TankType::Player1 => player_info.player1,
        TankType::Player2 => match player_info.player2 {
            Some(p) => p,
            None => PlayerStats::default(),
        },
        TankType::Enemy => PlayerStats::default(),
    }
}

/// The stage counter at the top of the screen ("Stage 3").
pub open spec fn stage_line(stage: nat, language: Language) -> Seq<char> {
    replace_all(text_for("第 {var} 关"@, "Stage {var}"@, language), "{var}"@, decimal(stage))
}

/// The stage counter at the top of the screen ("Stage 3").
pub fn stage_text_for(stage: usize, language: Language) -> (s: String)
    ensures
        s@ == stage_line(stage as nat, language),
{
    stage_text().format(language, stage)
}

/// The enemy counter at the top of the screen: enemies still to come out of
/// the stage's total ("Enemy Left: 3/5").
pub open spec fn enemy_count_line(remaining: nat, total: nat, language: Language) -> Seq<char> {
    fill_named(
        text_for("敌方剩余: {remaining}/{total}"@, "Enemy Left: {remaining}/{total}"@, language),
        seq![("remaining"@, remaining), ("total"@, total)],
    )
}

/// The enemy counter at the top of the screen for a stage's spawn state.
pub fn enemy_count_text_for(state: &EnemySpawnState, language: Language) -> (s: String)
    requires
        state.valid(),
    ensures
        s@ == enemy_count_line((state.max_count - state.has_spawned) as nat, state.max_count as nat, language),
{
    let remaining = state.max_count - state.has_spawned;
    let max_count = state.max_count;
    let values = [("remaining", remaining), ("total", max_count)];
    proof {
        reveal_strlit("remaining");
        reveal_strlit("total");
        assert(crate::localization::named_values(values@) =~= seq![("remaining"@, remaining as nat), ("total"@, max_count as nat)]);
    }
    enemy_count_text().format_named(language, &values)
}

/// The pop-up for a run of kills: its own words for two to five; above
/// that, and below two, the count written as a 32-bit number.
pub open spec fn combo_line(combo_count: usize, language: Language) -> Seq<char> {
    if combo_count == 2 {
        text_for("连击 x2"@, "Combo x2!"@, language)
    } else if combo_count == 3 {
        text_for("连击 x3"@, "Combo x3!"@, language)
    } else if combo_count == 4 {
        text_for("连击 x4"@, "Combo x4!"@, language)
    } else if combo_count == 5 {
        text_for("连击 x5"@, "Combo x5!"@, language)
    } else {
        replace_all(
            text_for("连击 x{var}"@, "Combo x{var}!"@, language),
            "{var}"@,
            decimal((combo_count as u32) as nat),
        )
    }
}

/// The pop-up for a run of kills ("Combo x3!").
pub fn get_combo_text(combo_count: usize, language: Language) -> (s: String)
    ensures
        s@ == combo_line(combo_count, language),
{
    if combo_count == 2 {
        combo_floating_2().get(language).to_string()
    } else if combo_count == 3 {
        combo_floating_3().get(language).to_string()
    } else if combo_count == 4 {
        combo_floating_4().get(language).to_string()
    } else if combo_count == 5 {
        combo_floating_5().get(language).to_string()
    } else {
        let shown: u32 = combo_count as u32;
        combo_floating_high().format(language, shown as usize)
    }
}

/// A player's portrait: the death picture replaces it once per death of
/// the player, when there is a portrait to change. Returns whether to put
/// the death picture up now; `has_handled` remembers that it is up and is
/// cleared once the player lives again.
pub fn handle_avatar_death_internal(player_dead: bool, has_handled: &mut bool, avatar_present: bool) -> (show_death: bool)
    ensures
        show_death == (player_dead && !*old(has_handled) && avatar_present),
        *final(has_handled) == if player_dead && !*old(has_handled) {
            avatar_present
        } else if !player_dead {
            false
        } else {
            *old(has_handled)
        },
{
    if player_dead && !*has_handled {
        if avatar_present {
            *has_handled = true;
            true
        } else {
            false
        }
    } else {
        if !player_dead && *has_handled {
            *has_handled = false;
        }
        false
    }
}

/// The commander's death is shown once: when its life first reaches zero.
/// Returns whether to show it now; `has_handled` is cleared while the
/// commander lives.
pub fn commander_death_step(life_points: usize, has_handled: &mut bool) -> (show: bool)
    ensures
        show == (life_points == 0 && !*old(has_handled)),
        *final(has_handled) == (life_points == 0),
{
    if life_points != 0 {
        *has_handled = false;
        false
    } else if *has_handled {
        false
    } else {
        *has_handled = true;
        true
    }
}

/// The picture a player's portrait shows once the commander has died.
#[derive(Clone, Copy, Debug, PartialEq, Eq, Structural)]
pub enum AvatarImage {
    /// The player is dead too.
    Death,
    /// The player lives and mourns the commander.
    CommanderDead,
}

/// The picture a portrait shows once the commander has died: a dead player
/// keeps the death picture, a living one mourns. A portrait of no player
/// counts as living.
pub fn avatar_after_commander_death(player_type: TankType, player_info: &PlayerInfo) -> (img: AvatarImage)
    ensures
        img == if match player_type {
            TankType::Player1 => player_info.player1.life_points == 0,
            TankType::Player2 => match player_info.player2 {
                Some(p) => p.life_points == 0,
                None => false,
            },
            TankType::Enemy => false,
        } {
            AvatarImage::Death
        } else {
            AvatarImage::CommanderDead
        },
{
    let player_dead = match player_type {
        TankType::Player1 => player_info.player1.life_points == 0,
        TankType::Player2 => match &player_info.player2 {
            Some(p) => p.life_points == 0,
            None => false,
        },
        TankType::Enemy => false,
    };
    if player_dead {
        AvatarImage::Death
    } else {
        AvatarImage::CommanderDead
    }
}


/// The statistic a line of a player panel reads.
pub open spec fn reads_field(t: HudStatType, a: PlayerStats, b: PlayerStats) -> bool {
    match t {
        HudStatType::Speed => a.speed == b.speed,
        HudStatType::FireSpeed => a.fire_speed == b.fire_speed,
        HudStatType::Protection => a.protection == b.protection,
        HudStatType::Shells => a.shells == b.shells,
        HudStatType::FireShell => a.fire_shell == b.fire_shell,
        HudStatType::Penetrate => a.penetrate == b.penetrate,
        HudStatType::TrackChain => a.track_chain == b.track_chain,
        HudStatType::AirCushion => a.air_cushion == b.air_cushion,
        HudStatType::Score => a.score == b.score,
    }
}

/// Each line of a player panel shows its own statistic and nothing else:
/// two players who agree on that statistic get the same value and maximum
/// on that line, whatever their other statistics; the effect lines are
/// on exactly when their own effect is, the percentage lines carry their
/// own attribute and the count lines their own count.
pub proof fn lemma_line_shows_its_own_statistic(t: HudStatType, a: PlayerStats, b: PlayerStats)
    ensures
        reads_field(t, a, b) ==> value_of(t, a) == value_of(t, b) && at_max(t, a) == at_max(t, b),
        value_of(HudStatType::FireShell, a) == StatValue::Bool(a.fire_shell),
        value_of(HudStatType::Penetrate, a) == StatValue::Bool(a.penetrate),
        value_of(HudStatType::TrackChain, a) == StatValue::Bool(a.track_chain),
        value_of(HudStatType::AirCushion, a) == StatValue::Bool(a.air_cushion),
        value_of(HudStatType::Speed, a) == StatValue::Percent(a.speed),
        value_of(HudStatType::FireSpeed, a) == StatValue::Percent(a.fire_speed),
        value_of(HudStatType::Protection, a) == StatValue::Percent(a.protection),
        value_of(HudStatType::Shells, a) == StatValue::Count(a.shells),
        value_of(HudStatType::Score, a) == StatValue::Count(a.score),
{
}

/// An effect line reads the on word exactly when its effect is on: the
/// fire-shell line of two panels differs only if their fire shells differ.
pub proof fn lemma_effect_line_text(s: PlayerStats, language: Language)
    ensures
        stat_line(s, HudStatType::FireShell, language) == label_text(HudStatType::FireShell, language) + if s.fire_shell {
            text_for("开启"@, "On"@, language)
        } else {
            text_for("关闭"@, "Off"@, language)
        },
        stat_line(s, HudStatType::Penetrate, language) == label_text(HudStatType::Penetrate, language) + if s.penetrate {
            text_for("开启"@, "On"@, language)
        } else {
            text_for("关闭"@, "Off"@, language)
        },
        stat_line(s, HudStatType::TrackChain, language) == label_text(HudStatType::TrackChain, language) + if s.track_chain {
            text_for("开启"@, "On"@, language)
        } else {
            text_for("关闭"@, "Off"@, language)
        },
        stat_line(s, HudStatType::AirCushion, language) == label_text(HudStatType::AirCushion, language) + if s.air_cushion {
            text_for("开启"@, "On"@, language)
        } else {
            text_for("关闭"@, "Off"@, language)
        },
{
}

} // verus!
