use tank_battle::hud::{
    effect_stat_configs, percent_stat_configs, HudYPosition,
    avatar_after_commander_death, commander_death_step, enemy_count_text_for, get_combo_text,
    get_player_name, get_player_stats_for_spawn, handle_avatar_death_internal,
    is_hud_stat_at_max_value, stage_text_for, update_single_player_text, AvatarImage, HudStatType,
    Player1Hud, Player2Hud, StatValue,
};
use tank_battle::resources::{EnemySpawnState, PlayerInfo, PlayerStats};
use tank_battle::types::{GameMode, Language, StatType, TankType};

#[test]
fn percent_lines_show_percent_or_max() {
    let mut s = PlayerStats::new_default();
    assert_eq!(update_single_player_text(&s, HudStatType::Speed, Language::English), "Speed:40%");
    assert_eq!(update_single_player_text(&s, HudStatType::Speed, Language::Chinese), "速度:40%");
    s.fire_speed = 100;
    assert_eq!(update_single_player_text(&s, HudStatType::FireSpeed, Language::English), "Fire Speed:MAX");
    s.protection = 0;
    assert_eq!(update_single_player_text(&s, HudStatType::Protection, Language::English), "Protection:0%");
}

#[test]
fn count_and_flag_lines() {
    let mut s = PlayerStats::new_default();
    s.score = 1200;
    assert_eq!(update_single_player_text(&s, HudStatType::Score, Language::English), "Scores:1200");
    assert_eq!(update_single_player_text(&s, HudStatType::Shells, Language::English), "Shells:1");
    assert_eq!(update_single_player_text(&s, HudStatType::FireShell, Language::English), "Fire ShellOff");
    s.penetrate = true;
    assert_eq!(update_single_player_text(&s, HudStatType::Penetrate, Language::Chinese), "穿透开启");
    assert_eq!(update_single_player_text(&s, HudStatType::TrackChain, Language::Chinese), "履带链关闭");
}

#[test]
fn stat_value_format() {
    assert_eq!(StatValue::Percent(60).format(false, "On", "Off"), "60%");
    assert_eq!(StatValue::Percent(100).format(true, "On", "Off"), "MAX");
    assert_eq!(StatValue::Count(0).format(true, "On", "Off"), "0");
    assert_eq!(StatValue::Bool(true).format(false, "On", "Off"), "On");
    assert_eq!(StatValue::Bool(false).format(true, "On", "Off"), "Off");
}

#[test]
fn maxima() {
    let mut s = PlayerStats::new_default();
    assert!(!HudStatType::Shells.is_max(&s));
    s.shells = 2;
    assert!(HudStatType::Shells.is_max(&s));
    s.score = usize::MAX;
    assert!(!HudStatType::Score.is_max(&s));
    s.air_cushion = true;
    assert!(HudStatType::AirCushion.is_max(&s));
    assert_eq!(HudStatType::AirCushion.get_value(&s), StatValue::Bool(true));
    assert_eq!(HudStatType::Speed.get_value(&s), StatValue::Percent(40));
    assert_eq!(HudStatType::Speed.get_label(Language::English), "Speed:");
}

#[test]
fn stat_types_map_to_hud_lines() {
    assert_eq!(HudStatType::from(StatType::Shell), HudStatType::Shells);
    assert_eq!(HudStatType::from(StatType::Score), HudStatType::Score);
    let t: HudStatType = StatType::FireSpeed.into();
    assert_eq!(t, HudStatType::FireSpeed);
}

#[test]
fn max_check_by_panel() {
    let mut info = PlayerInfo::for_mode(GameMode::TwoPlayers);
    info.player1.speed = 100;
    assert!(is_hud_stat_at_max_value(HudStatType::Speed, &info, Some(&Player1Hud), None));
    assert!(!is_hud_stat_at_max_value(HudStatType::Speed, &info, None, Some(&Player2Hud)));
    assert!(!is_hud_stat_at_max_value(HudStatType::Speed, &info, None, None));
}

#[test]
fn names_and_panel_stats() {
    assert_eq!(get_player_name(TankType::Player1, Language::English), "Nan Jingye");
    assert_eq!(get_player_name(TankType::Player2, Language::Chinese), "南金成");
    assert_eq!(get_player_name(TankType::Enemy, Language::Chinese), "Enemy");
    let info = PlayerInfo::for_mode(GameMode::OnePlayer);
    assert_eq!(get_player_stats_for_spawn(&info, TankType::Player1), PlayerStats::new_default());
    assert_eq!(get_player_stats_for_spawn(&info, TankType::Player2), PlayerStats::default());
}

#[test]
fn top_bar_texts() {
    assert_eq!(stage_text_for(3, Language::English), "Stage 3");
    assert_eq!(stage_text_for(12, Language::Chinese), "第 12 关");
    let state = EnemySpawnState { has_spawned: 2, max_count: 5 };
    assert_eq!(enemy_count_text_for(&state, Language::English), "Enemy Left: 3/5");
    assert_eq!(enemy_count_text_for(&state, Language::Chinese), "敌方剩余: 3/5");
}

#[test]
fn combo_texts() {
    assert_eq!(get_combo_text(2, Language::English), "Combo x2!");
    assert_eq!(get_combo_text(5, Language::Chinese), "连击 x5");
    assert_eq!(get_combo_text(7, Language::English), "Combo x7!");
    assert_eq!(get_combo_text(12, Language::Chinese), "连击 x12");
}

#[test]
fn avatar_death_is_shown_once_per_death() {
    let mut handled = false;
    assert!(handle_avatar_death_internal(true, &mut handled, true));
    assert!(handled);
    assert!(!handle_avatar_death_internal(true, &mut handled, true));
    assert!(!handle_avatar_death_internal(false, &mut handled, true));
    assert!(!handled);
    let mut none = false;
    assert!(!handle_avatar_death_internal(true, &mut none, false));
    assert!(!none);
}

#[test]
fn commander_death_is_shown_once() {
    let mut handled = false;
    assert!(!commander_death_step(2, &mut handled));
    assert!(commander_death_step(0, &mut handled));
    assert!(!commander_death_step(0, &mut handled));
    assert!(!commander_death_step(1, &mut handled));
    assert!(!handled);
    let mut info = PlayerInfo::for_mode(GameMode::TwoPlayers);
    info.player1.life_points = 0;
    assert_eq!(avatar_after_commander_death(TankType::Player1, &info), AvatarImage::Death);
    assert_eq!(avatar_after_commander_death(TankType::Player2, &info), AvatarImage::CommanderDead);
}

#[test]
fn panel_layout() {
    let p = percent_stat_configs();
    assert_eq!(p.len(), 3);
    assert_eq!(p[0].stat_type, HudStatType::Speed);
    assert_eq!(p[2].y_position, HudYPosition::Protection);
    let e = effect_stat_configs();
    assert_eq!(e.len(), 4);
    assert_eq!(e[1].stat_type, HudStatType::Penetrate);
    assert_eq!(HudYPosition::Name.offset(), 780);
    assert_eq!(HudYPosition::Score.offset(), 50);
    assert_eq!(HudYPosition::BarBlue.offset(), 250);
}
