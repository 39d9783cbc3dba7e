use tank_battle::resources::{
    check_all_players_dead, check_game_over, check_stage_complete, CommanderLife, EnemyLife,
    EnemySpawnState, PlayerInfo, PlayerStats, StageLevel, StageProgress,
};
use tank_battle::terrain::{get_terrain_config, Quadrant, TerrainTileType, TerrainType, TileLayout};
use tank_battle::tracker::BulletTracker;
use tank_battle::types::{EnemyTankType, GameMode, Language, TankType};

#[test]
fn new_players_start_with_default_statistics() {
    let s = PlayerStats::new_default();
    assert_eq!((s.speed, s.fire_speed, s.protection), (40, 40, 40));
    assert_eq!((s.shells, s.life_points, s.energy_points, s.score), (1, 3, 3, 0));
    let one = PlayerInfo::for_mode(GameMode::OnePlayer);
    assert!(one.player2.is_none());
    let two = PlayerInfo::for_mode(GameMode::TwoPlayers);
    assert_eq!(two.player2, Some(s));
}

#[test]
fn energy_recovers_one_point_up_to_three() {
    let mut info = PlayerInfo::for_mode(GameMode::TwoPlayers);
    assert!(!info.needs_energy_regen());
    info.player1.energy_points = 1;
    assert!(info.needs_energy_regen());
    info.recover_all_energy();
    assert_eq!(info.player1.energy_points, 2);
    assert_eq!(info.player2.unwrap().energy_points, 3);
}

#[test]
fn player_queries() {
    let mut info = PlayerInfo::for_mode(GameMode::OnePlayer);
    assert_eq!(info.get_shells(TankType::Player1), 1);
    assert_eq!(info.get_shells(TankType::Player2), 0);
    assert_eq!(info.get_shells(TankType::Enemy), 0);
    assert!(info.get_stats(TankType::Enemy).is_none());
    info.player1.life_points = 1;
    assert!(info.is_low_health(TankType::Player1));
}

#[test]
fn game_over_when_commander_or_all_players_die() {
    let mut info = PlayerInfo::for_mode(GameMode::TwoPlayers);
    let alive = CommanderLife::default();
    assert!(!check_game_over(&info, &GameMode::TwoPlayers, &alive));
    info.player1.life_points = 0;
    assert!(!check_all_players_dead(&info, &GameMode::TwoPlayers));
    assert!(check_all_players_dead(&info, &GameMode::OnePlayer));
    let mut p2 = info.player2.unwrap();
    p2.life_points = 0;
    info.player2 = Some(p2);
    assert!(check_game_over(&info, &GameMode::TwoPlayers, &alive));
    let fresh = PlayerInfo::for_mode(GameMode::OnePlayer);
    assert!(check_game_over(&fresh, &GameMode::OnePlayer, &CommanderLife { life_points: 0 }));
}

#[test]
fn stage_completion() {
    let info = PlayerInfo::for_mode(GameMode::OnePlayer);
    let c = CommanderLife::default();
    let mut state = EnemySpawnState::default();
    assert_eq!(check_stage_complete(&state, 0, &info, &c, &GameMode::OnePlayer), StageProgress::ResetDelay);
    state.has_spawned = 10;
    assert_eq!(check_stage_complete(&state, 1, &info, &c, &GameMode::OnePlayer), StageProgress::ResetDelay);
    assert_eq!(check_stage_complete(&state, 0, &info, &c, &GameMode::OnePlayer), StageProgress::TickDelay);
    let dead = CommanderLife { life_points: 0 };
    assert_eq!(check_stage_complete(&state, 0, &info, &dead, &GameMode::OnePlayer), StageProgress::Hold);
}

#[test]
fn enemy_spawning() {
    let mut state = EnemySpawnState::default();
    assert!(state.should_spawn(3, true));
    assert!(!state.should_spawn(4, true));
    assert!(!state.should_spawn(0, false));
    for _ in 0..10 {
        state.record_spawn();
    }
    assert!(!state.should_spawn(0, true));
    assert_eq!(state.remaining(), 0);
    assert!(state.all_enemies_defeated(0));
    state.reset();
    assert_eq!(state.remaining(), 10);
}

#[test]
fn lives() {
    let mut c = CommanderLife { life_points: 2 };
    c.heal();
    c.heal();
    assert_eq!(c.life_points, 3);
    assert!(!c.take_hit());
    c.reset();
    assert_eq!(c.life_points, 3);
    let mut e = EnemyLife::new(EnemyTankType::Heavy.max_life());
    assert!(!e.take_damage());
    assert!(!e.take_damage());
    assert!(!e.take_damage());
    assert!(e.take_damage());
    assert_eq!(EnemyTankType::Light.max_life(), 1);
    assert_eq!(EnemyTankType::Fire.max_life(), 2);
    let mut stage = StageLevel::default();
    stage.advance();
    assert_eq!(stage.0, 2);
}

#[test]
fn bullet_tracker_counts_shells_per_tank() {
    let mut t = BulletTracker::new();
    assert!(t.can_fire(1, 1));
    t.add_bullet(10, 1);
    t.add_bullet(11, 1);
    t.add_bullet(12, 2);
    assert_eq!(t.active_count(1), 2);
    assert!(!t.can_fire(1, 2));
    assert!(t.can_fire(1, 3));
    assert_eq!(t.remove_bullet(10), Some(1));
    assert_eq!(t.remove_bullet(10), None);
    assert_eq!(t.active_count(1), 1);
    assert_eq!(t.remove_bullet(11), Some(1));
    assert_eq!(t.active_count(1), 0);
    t.clear();
    assert_eq!(t.active_count(2), 0);
    assert_eq!(t.remove_bullet(12), None);
}

#[test]
fn terrain_symbols_and_names() {
    assert_eq!(TerrainType::from_str("bl"), TerrainType::BrickLeft);
    assert_eq!(TerrainType::from_str("a"), TerrainType::Barrier);
    assert_eq!(TerrainType::from_str("?"), TerrainType::Empty);
    assert_eq!(TerrainType::SteelBottom.to_symbol(), "ib");
    assert_eq!(TerrainType::Empty.to_symbol(), ".");
    assert_eq!(TerrainType::Sea.to_display_name(Language::English), "Sea");
    assert_eq!(TerrainType::BrickTop.to_display_name(Language::Chinese), "砖块-上");
}

#[test]
fn terrain_tiles() {
    assert_eq!(get_terrain_config(TerrainType::Empty), None);
    assert_eq!(get_terrain_config(TerrainType::SteelLeft), Some((TerrainTileType::Steel, Some(TileLayout::Left))));
    assert_eq!(get_terrain_config(TerrainType::Forest), Some((TerrainTileType::Forest, None)));
    assert_eq!(TileLayout::Top.quadrants(), vec![Quadrant::TopLeft, Quadrant::TopRight]);
    assert_eq!(TileLayout::Full.quadrants().len(), 4);
}

#[test]
fn languages_toggle() {
    assert_eq!(Language::Chinese.toggled(), Language::English);
    assert_eq!(Language::English.toggled(), Language::Chinese);
    assert_eq!(Language::default(), Language::Chinese);
}
