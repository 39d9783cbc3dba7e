use tank_battle::powerup_strategy::{pick_up_powerup, PowerUp, PowerUpResult, PowerUpStrategy};
use tank_battle::resources::{CommanderLife, PlayerInfo, PlayerStats};
use tank_battle::types::{GameMode, Language, StatType, TankType};

#[test]
fn attribute_powerups_add_twenty_up_to_one_hundred() {
    let mut stats = PlayerStats::new_default();
    assert_eq!(PowerUpStrategy::SpeedUp.apply(&mut stats), PowerUpResult::StatChanged(StatType::Speed));
    assert_eq!(stats.speed, 60);
    PowerUpStrategy::SpeedUp.apply(&mut stats);
    PowerUpStrategy::SpeedUp.apply(&mut stats);
    assert_eq!(stats.speed, 100);
    PowerUpStrategy::SpeedUp.apply(&mut stats);
    assert_eq!(stats.speed, 100);
    stats.protection = 90;
    assert_eq!(
        PowerUpStrategy::Protection.apply(&mut stats),
        PowerUpResult::StatChanged(StatType::Protection)
    );
    assert_eq!(stats.protection, 100);
    PowerUpStrategy::FireSpeed.apply(&mut stats);
    assert_eq!(stats.fire_speed, 60);
}

#[test]
fn effect_powerups_switch_their_effect_on() {
    let mut stats = PlayerStats::new_default();
    assert_eq!(PowerUpStrategy::FireShell.apply(&mut stats), PowerUpResult::StatChanged(StatType::FireShell));
    assert!(stats.fire_shell);
    assert_eq!(PowerUpStrategy::TrackChain.apply(&mut stats), PowerUpResult::StatChanged(StatType::TrackChain));
    assert!(stats.track_chain);
    assert_eq!(PowerUpStrategy::Penetrate.apply(&mut stats), PowerUpResult::StatChanged(StatType::Penetrate));
    assert!(stats.penetrate);
    assert_eq!(PowerUpStrategy::AirCushion.apply(&mut stats), PowerUpResult::StatChanged(StatType::AirCushion));
    assert!(stats.air_cushion);
}

#[test]
fn repair_and_shell_are_capped() {
    let mut stats = PlayerStats::new_default();
    stats.life_points = 2;
    assert_eq!(PowerUpStrategy::Repair.apply(&mut stats), PowerUpResult::NoStatChange);
    assert_eq!(stats.life_points, 3);
    PowerUpStrategy::Repair.apply(&mut stats);
    assert_eq!(stats.life_points, 3);
    assert_eq!(PowerUpStrategy::Shell.apply(&mut stats), PowerUpResult::StatChanged(StatType::Shell));
    assert_eq!(stats.shells, 2);
    PowerUpStrategy::Shell.apply(&mut stats);
    assert_eq!(stats.shells, 2);
}

#[test]
fn hamburger_and_no_effect_leave_the_player_alone() {
    let mut stats = PlayerStats::new_default();
    let before = stats;
    assert_eq!(PowerUpStrategy::Hamburger.apply(&mut stats), PowerUpResult::CommanderLifeChanged);
    assert_eq!(stats, before);
    assert_eq!(PowerUpStrategy::NoEffect.apply(&mut stats), PowerUpResult::NoStatChange);
    assert_eq!(stats, before);
    assert_eq!(PowerUpStrategy::default(), PowerUpStrategy::NoEffect);
}

#[test]
fn strategy_flags() {
    assert!(PowerUpStrategy::AirCushion.update_filter_groups());
    assert!(!PowerUpStrategy::SpeedUp.update_filter_groups());
    assert!(PowerUpStrategy::Hamburger.affects_commander());
    assert!(!PowerUpStrategy::Repair.affects_commander());
}

#[test]
fn powerups_map_to_their_strategies() {
    assert_eq!(PowerUp::SpeedUp.into_strategy(), PowerUpStrategy::SpeedUp);
    assert_eq!(PowerUp::Hamburger.into_strategy(), PowerUpStrategy::Hamburger);
    assert_eq!(PowerUp::Shell.into_strategy(), PowerUpStrategy::Shell);
    assert_eq!(PowerUp::from_index(0), PowerUp::SpeedUp);
    assert_eq!(PowerUp::from_index(7), PowerUp::Hamburger);
    assert_eq!(PowerUp::from_index(9), PowerUp::Shell);
}

#[test]
fn floating_texts() {
    assert_eq!(PowerUp::SpeedUp.get_floating_text(Language::English), "Speed +20");
    assert_eq!(PowerUp::SpeedUp.get_floating_text(Language::Chinese), "速度 +20");
    assert_eq!(PowerUp::Protection.get_floating_text(Language::English), "Armor +20");
    assert_eq!(PowerUp::FireSpeed.get_floating_text(Language::English), "FireRate +20");
    assert_eq!(PowerUp::Repair.get_floating_text(Language::English), "Life +1");
    assert_eq!(PowerUp::Hamburger.get_floating_text(Language::Chinese), "司令生命 +1");
    assert_eq!(PowerUp::AirCushion.get_floating_text(Language::English), "Cushion");
}

#[test]
fn picking_up_a_hamburger_heals_the_commander() {
    let mut info = PlayerInfo::for_mode(GameMode::OnePlayer);
    let mut commander = CommanderLife { life_points: 1 };
    let before = info;
    let out = pick_up_powerup(PowerUp::Hamburger, TankType::Player1, &mut info, &mut commander);
    assert_eq!(commander.life_points, 2);
    assert_eq!(info, before);
    assert_eq!(out.stat_changed, None);
    assert!(!out.update_filter_groups);
    let mut full = CommanderLife::default();
    pick_up_powerup(PowerUp::Hamburger, TankType::Player1, &mut info, &mut full);
    assert_eq!(full.life_points, 3);
}

#[test]
fn picking_up_applies_to_the_picking_player_only() {
    let mut info = PlayerInfo::for_mode(GameMode::TwoPlayers);
    let mut commander = CommanderLife::default();
    let out = pick_up_powerup(PowerUp::AirCushion, TankType::Player2, &mut info, &mut commander);
    assert!(out.update_filter_groups);
    assert_eq!(out.stat_changed, Some(StatType::AirCushion));
    assert!(info.player2.unwrap().air_cushion);
    assert!(!info.player1.air_cushion);
    let mut solo = PlayerInfo::for_mode(GameMode::OnePlayer);
    let before = solo;
    let out = pick_up_powerup(PowerUp::SpeedUp, TankType::Player2, &mut solo, &mut commander);
    assert_eq!(solo, before);
    assert_eq!(out.stat_changed, None);
}
