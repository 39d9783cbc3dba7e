use tank_battle::combat::{
    absorb_enemy_shell, apply_barrier_damage, apply_dash_damage, award_kill, bullet_terrain_outcome,
    can_start_laser_charge, commander_hit, dash_health_cost, spend_energy_for_laser,
    enemy_shell_hits_player, enemy_shot_allowed, energy_warning_allowed, laser_step,
    player_shot_allowed, resolve_dash_collision, shell_effects, try_spend_dash_energy, Bullet,
    DashDamageTracker, DashEffect, InsufficientEnergyTracker, DashTarget, LaserAction, ShellHit, SparkSound, TerrainHit,
};
use tank_battle::resources::{CommanderLife, PlayerInfo, PlayerStats};
use tank_battle::tracker::BulletTracker;
use tank_battle::types::{GameMode, StatType, TankType};

#[test]
fn enemy_shell_is_absorbed_by_effects_in_order() {
    let mut s = PlayerStats::new_default();
    s.fire_shell = true;
    s.air_cushion = true;
    assert_eq!(absorb_enemy_shell(&mut s), ShellHit::Absorbed(StatType::FireShell));
    assert!(!s.fire_shell);
    assert_eq!(absorb_enemy_shell(&mut s), ShellHit::Absorbed(StatType::AirCushion));
    s.shells = 2;
    assert_eq!(absorb_enemy_shell(&mut s), ShellHit::Absorbed(StatType::Shell));
    assert_eq!(s.shells, 1);
    assert_eq!(s.life_points, 3);
    assert_eq!(absorb_enemy_shell(&mut s), ShellHit::Damaged { destroyed: false });
    assert_eq!(s.life_points, 2);
    absorb_enemy_shell(&mut s);
    assert_eq!(absorb_enemy_shell(&mut s), ShellHit::Damaged { destroyed: true });
    assert_eq!(s.life_points, 0);
    assert_eq!(absorb_enemy_shell(&mut s), ShellHit::Damaged { destroyed: true });
    assert_eq!(s.life_points, 0);
}

#[test]
fn enemy_shell_hits_only_present_players() {
    let mut info = PlayerInfo::for_mode(GameMode::OnePlayer);
    assert_eq!(enemy_shell_hits_player(&mut info, TankType::Player2), None);
    assert_eq!(
        enemy_shell_hits_player(&mut info, TankType::Player1),
        Some(ShellHit::Damaged { destroyed: false })
    );
    assert_eq!(info.player1.life_points, 2);
}

#[test]
fn kills_score_one_hundred() {
    let mut info = PlayerInfo::for_mode(GameMode::TwoPlayers);
    award_kill(&mut info, TankType::Player2);
    award_kill(&mut info, TankType::Player2);
    assert_eq!(info.player2.unwrap().score, 200);
    assert_eq!(info.player1.score, 0);
    award_kill(&mut info, TankType::Enemy);
    assert_eq!(info.player1.score, 0);
}

#[test]
fn shells_on_terrain() {
    let mut info = PlayerInfo::for_mode(GameMode::OnePlayer);
    let plain = bullet_terrain_outcome(Bullet::Player(TankType::Player1), &info, TerrainHit::Steel);
    assert!(!plain.destroy_terrain);
    assert_eq!(plain.spark, Some(SparkSound::Hit));
    assert!(plain.extra_hit_sound);
    assert!(plain.despawn_bullet);
    info.player1.penetrate = true;
    info.player1.fire_shell = true;
    let pen = bullet_terrain_outcome(Bullet::Player(TankType::Player1), &info, TerrainHit::Steel);
    assert!(pen.destroy_terrain);
    assert_eq!(pen.spark, Some(SparkSound::MetalCrash));
    let fire = bullet_terrain_outcome(Bullet::Player(TankType::Player1), &info, TerrainHit::Forest);
    assert!(fire.forest_fire);
    assert!(fire.destroy_terrain);
    assert!(!fire.despawn_bullet);
    let enemy_forest = bullet_terrain_outcome(Bullet::Enemy, &info, TerrainHit::Forest);
    assert!(!enemy_forest.forest_fire);
    let brick = bullet_terrain_outcome(Bullet::Enemy, &info, TerrainHit::Brick);
    assert!(brick.destroy_terrain);
    assert_eq!(brick.spark, Some(SparkSound::BrickHit));
    let enemy_steel = bullet_terrain_outcome(Bullet::Enemy, &info, TerrainHit::Steel);
    assert!(!enemy_steel.destroy_terrain);
    assert!(enemy_steel.despawn_bullet);
}

#[test]
fn commander_is_hurt_only_by_enemy_shells() {
    let mut c = CommanderLife::default();
    assert_eq!(commander_hit(Bullet::Player(TankType::Player1), &mut c), None);
    assert_eq!(c.life_points, 3);
    assert_eq!(commander_hit(Bullet::Enemy, &mut c), Some(false));
    assert_eq!(commander_hit(Bullet::Enemy, &mut c), Some(false));
    assert_eq!(commander_hit(Bullet::Enemy, &mut c), Some(true));
    assert_eq!(c.life_points, 0);
}

#[test]
fn dash_costs_depend_on_protection() {
    assert_eq!(dash_health_cost(0), 2);
    assert_eq!(dash_health_cost(39), 2);
    assert_eq!(dash_health_cost(40), 1);
    assert_eq!(dash_health_cost(79), 1);
    assert_eq!(dash_health_cost(80), 0);
    assert_eq!(dash_health_cost(100), 0);
}

#[test]
fn dash_damage_is_taken_once_per_dash() {
    let mut info = PlayerInfo::for_mode(GameMode::OnePlayer);
    let mut tracker = DashDamageTracker::new();
    assert_eq!(apply_dash_damage(&mut info, TankType::Player1, 5, &mut tracker), (1, false));
    assert_eq!(info.player1.life_points, 2);
    assert!(tracker.has_taken_damage.contains(&5));
    assert_eq!(apply_dash_damage(&mut info, TankType::Player1, 5, &mut tracker), (0, false));
    assert_eq!(info.player1.life_points, 2);
    tracker.end_dash(5);
    info.player1.protection = 0;
    assert_eq!(apply_dash_damage(&mut info, TankType::Player1, 5, &mut tracker), (2, true));
    assert_eq!(info.player1.life_points, 0);
    let mut armoured = PlayerInfo::for_mode(GameMode::OnePlayer);
    armoured.player1.protection = 80;
    let mut fresh = DashDamageTracker::default();
    assert_eq!(apply_dash_damage(&mut armoured, TankType::Player1, 6, &mut fresh), (0, false));
    assert!(fresh.has_taken_damage.is_empty());
}

#[test]
fn dash_into_steel_kills_unless_fully_protected() {
    let mut info = PlayerInfo::for_mode(GameMode::OnePlayer);
    let out = resolve_dash_collision(&mut info, TankType::Player1, 1, DashTarget::Steel, &mut DashDamageTracker::new());
    assert!(out.player_dead);
    assert!(!out.destroy_target);
    assert_eq!(out.effect, DashEffect::ExplosionAtTank);
    assert_eq!(info.player1.life_points, 0);
    let mut strong = PlayerInfo::for_mode(GameMode::OnePlayer);
    strong.player1.protection = 100;
    let out = resolve_dash_collision(&mut strong, TankType::Player1, 1, DashTarget::Steel, &mut DashDamageTracker::new());
    assert!(out.destroy_target);
    assert_eq!(out.effect, DashEffect::Spark(SparkSound::MetalCrash));
    assert_eq!(strong.player1.life_points, 3);
}

#[test]
fn dash_into_enemy_scores_and_costs() {
    let mut info = PlayerInfo::for_mode(GameMode::OnePlayer);
    let mut tracker = DashDamageTracker::new();
    let out = resolve_dash_collision(&mut info, TankType::Player1, 1, DashTarget::Enemy, &mut tracker);
    assert!(out.destroy_target);
    assert!(out.score_awarded);
    assert_eq!(out.health_cost, 1);
    assert_eq!(info.player1.score, 100);
    assert_eq!(info.player1.life_points, 2);
    let out = resolve_dash_collision(&mut info, TankType::Player1, 1, DashTarget::Brick, &mut tracker);
    assert!(out.destroy_target);
    assert_eq!(out.health_cost, 0);
    assert_eq!(info.player1.life_points, 2);
}

#[test]
fn dash_needs_one_energy_point() {
    let mut info = PlayerInfo::for_mode(GameMode::OnePlayer);
    assert!(try_spend_dash_energy(&mut info, TankType::Player1));
    assert_eq!(info.player1.energy_points, 2);
    info.player1.energy_points = 0;
    assert!(!try_spend_dash_energy(&mut info, TankType::Player1));
    assert_eq!(info.player1.energy_points, 0);
    assert!(!try_spend_dash_energy(&mut info, TankType::Enemy));
}

#[test]
fn laser_needs_a_full_bar_and_costs_one_point() {
    let mut info = PlayerInfo::for_mode(GameMode::OnePlayer);
    assert!(can_start_laser_charge(&info, TankType::Player1));
    spend_energy_for_laser(&mut info, TankType::Player1);
    assert_eq!(info.player1.energy_points, 2);
    assert!(!can_start_laser_charge(&info, TankType::Player1));
    info.player1.energy_points = 0;
    spend_energy_for_laser(&mut info, TankType::Player1);
    assert_eq!(info.player1.energy_points, 0);
    assert!(!can_start_laser_charge(&info, TankType::Enemy));
}

#[test]
fn laser_decisions() {
    assert_eq!(laser_step(true, true, true, true), LaserAction::Skip);
    assert_eq!(laser_step(false, true, true, true), LaserAction::CancelCharge);
    assert_eq!(laser_step(false, false, false, true), LaserAction::CancelCharge);
    assert_eq!(laser_step(false, false, false, false), LaserAction::Skip);
    assert_eq!(laser_step(false, false, true, true), LaserAction::UpdateCharge);
    assert_eq!(laser_step(false, true, true, false), LaserAction::StartCharge);
}

#[test]
fn barrier_hurts_without_track_chain() {
    let mut info = PlayerInfo::for_mode(GameMode::OnePlayer);
    assert!(apply_barrier_damage(&mut info, TankType::Player1, true));
    assert_eq!(info.player1.speed, 20);
    assert_eq!(info.player1.protection, 20);
    assert!(apply_barrier_damage(&mut info, TankType::Player1, true));
    assert!(apply_barrier_damage(&mut info, TankType::Player1, true));
    assert_eq!(info.player1.speed, 0);
    assert!(!apply_barrier_damage(&mut info, TankType::Player1, false));
    info.player1.track_chain = true;
    info.player1.speed = 60;
    assert!(!apply_barrier_damage(&mut info, TankType::Player1, true));
    assert_eq!(info.player1.speed, 60);
}

#[test]
fn shooting_decisions() {
    let mut tracker = BulletTracker::new();
    let info = PlayerInfo::for_mode(GameMode::OnePlayer);
    assert!(player_shot_allowed(&tracker, 7, &info, TankType::Player1, false, true, true));
    assert!(!player_shot_allowed(&tracker, 7, &info, TankType::Player1, true, true, true));
    assert!(!player_shot_allowed(&tracker, 7, &info, TankType::Player1, false, false, true));
    assert!(!player_shot_allowed(&tracker, 7, &info, TankType::Player1, false, true, false));
    tracker.add_bullet(100, 7);
    assert!(!player_shot_allowed(&tracker, 7, &info, TankType::Player1, false, true, true));
    assert!(enemy_shot_allowed(&tracker, 8, 1, true));
    assert!(!enemy_shot_allowed(&tracker, 8, 1, false));
    assert!(!enemy_shot_allowed(&tracker, 7, 1, true));
}

#[test]
fn shell_effects_follow_the_owner() {
    let mut info = PlayerInfo::for_mode(GameMode::OnePlayer);
    info.player1.fire_shell = true;
    let e = shell_effects(TankType::Player1, &info);
    assert!(e.fire);
    assert!(!e.penetrate);
    let e = shell_effects(TankType::Enemy, &info);
    assert!(!e.fire);
}

#[test]
fn energy_warning_cooldown() {
    assert!(energy_warning_allowed(TankType::Player1, None));
    assert!(energy_warning_allowed(TankType::Player2, Some(true)));
    assert!(!energy_warning_allowed(TankType::Player2, Some(false)));
    assert!(!energy_warning_allowed(TankType::Enemy, None));
}

#[test]
fn energy_warning_tracker_waits_out_its_cooldown() {
    let mut t = InsufficientEnergyTracker::default();
    assert!(t.try_show_warning(TankType::Player1));
    assert_eq!(t.p1_cooldown, Some(2000));
    assert!(!t.try_show_warning(TankType::Player1));
    assert!(t.try_show_warning(TankType::Player2));
    assert!(!t.try_show_warning(TankType::Enemy));
    t.tick_all(1500);
    assert_eq!(t.p1_cooldown, Some(500));
    assert!(!t.try_show_warning(TankType::Player1));
    t.tick_all(700);
    assert_eq!(t.p1_cooldown, Some(0));
    assert!(t.try_show_warning(TankType::Player1));
    assert_eq!(t.p1_cooldown, Some(2000));
}

#[test]
fn dash_into_steel_needs_no_score_room() {
    let mut info = PlayerInfo::for_mode(GameMode::OnePlayer);
    info.player1.score = usize::MAX;
    info.player1.protection = 100;
    let out = resolve_dash_collision(&mut info, TankType::Player1, 1, DashTarget::Steel, &mut DashDamageTracker::new());
    assert!(out.destroy_target);
    assert_eq!(info.player1.score, usize::MAX);
}
