use tank_battle::animation::{advance_next_frame, animation_step, AnimationIndices, AnimationMode, TextureAtlasInfo};
use tank_battle::controls::{
    available_directions, is_movement_interrupted, is_recall_key_pressed, recall_start, recall_step,
    Direction, Key, PlayerKeyBindings, RecallAction, StartPosition,
};
use tank_battle::types::TankType;

#[test]
fn key_bindings() {
    let p1 = PlayerKeyBindings::player1();
    assert_eq!(p1.up, Key::W);
    assert_eq!(p1.laser, Key::L);
    let p2 = TankType::Player2.get_key_bindings();
    assert_eq!(p2.shoot, Key::Numpad1);
    assert_eq!(p2.recall, Key::Numpad4);
}

#[test]
fn directions_from_keys() {
    let p1 = PlayerKeyBindings::player1();
    assert_eq!(p1.get_direction(&vec![Key::W]), Some(Direction::Up));
    assert_eq!(p1.get_direction(&vec![Key::D, Key::J]), Some(Direction::Right));
    assert_eq!(p1.get_direction(&vec![Key::W, Key::A]), None);
    assert_eq!(p1.get_direction(&vec![]), None);
    assert!(p1.is_moving(&vec![Key::W, Key::A]));
    assert!(!p1.is_moving(&vec![Key::ArrowUp]));
    assert!(p1.is_shooting(&vec![Key::J]));
}

#[test]
fn recall_keys_and_interruptions() {
    assert!(is_recall_key_pressed(&vec![Key::I], TankType::Player1));
    assert!(!is_recall_key_pressed(&vec![Key::I], TankType::Player2));
    assert!(!is_recall_key_pressed(&vec![Key::I], TankType::Enemy));
    assert!(is_movement_interrupted(&vec![Key::Numpad1], TankType::Player2));
    assert!(!is_movement_interrupted(&vec![Key::Numpad4], TankType::Player2));
    assert_eq!(recall_start(TankType::Player1, true, false), Some(StartPosition::Player1Start));
    assert_eq!(recall_start(TankType::Player2, true, false), Some(StartPosition::Player2Start));
    assert_eq!(recall_start(TankType::Player2, true, true), None);
    assert_eq!(recall_step(false, false, true), RecallAction::Cancel);
    assert_eq!(recall_step(true, true, false), RecallAction::Cancel);
    assert_eq!(recall_step(true, false, true), RecallAction::Complete);
    assert_eq!(recall_step(true, false, false), RecallAction::Continue);
}

#[test]
fn other_directions() {
    assert_eq!(available_directions(Direction::Up), vec![Direction::Down, Direction::Left, Direction::Right]);
    assert_eq!(available_directions(Direction::Left), vec![Direction::Up, Direction::Down, Direction::Right]);
}

#[test]
fn frames_advance_and_loop() {
    let mut f = 2;
    assert_eq!(advance_next_frame(false, &mut f, 0, 3), 2);
    assert_eq!(advance_next_frame(true, &mut f, 0, 3), 3);
    assert_eq!(advance_next_frame(true, &mut f, 0, 3), 0);
    let mut g = 9;
    assert_eq!(advance_next_frame(true, &mut g, 4, 6), 4);
}

#[test]
fn animation_indices() {
    let a = AnimationIndices::from_total_frames(8);
    assert_eq!((a.first, a.last), (0, 7));
    let info = TextureAtlasInfo::new(4, 3);
    assert_eq!(info.total_frames, 12);
    assert_eq!(info.animation_indices_full().last, 11);
}

#[test]
fn one_shot_and_event_animations() {
    let idx = AnimationIndices { first: 0, last: 3 };
    let mut f = 2;
    let out = animation_step(AnimationMode::OneShot, idx, &mut f, true, false);
    assert_eq!(out.frame, 3);
    assert!(out.despawn);
    let mut f = 9;
    let out = animation_step(AnimationMode::AtFrameWithEvent { trigger_frame: 10 }, AnimationIndices { first: 0, last: 12 }, &mut f, true, false);
    assert!(out.fire_event);
    assert!(!out.despawn);
    let mut f = 1;
    let out = animation_step(AnimationMode::Conditional { tank_type: TankType::Player1 }, idx, &mut f, true, false);
    assert_eq!(out.frame, 1);
    let out = animation_step(AnimationMode::LoopRange { start_frame: 1, end_frame: 2 }, idx, &mut f, true, false);
    assert_eq!(out.frame, 2);
    let out = animation_step(AnimationMode::LoopRange { start_frame: 1, end_frame: 2 }, idx, &mut f, true, false);
    assert_eq!(out.frame, 1);
    let mut f = 3;
    let out = animation_step(AnimationMode::Looping, idx, &mut f, true, false);
    assert_eq!(out.frame, 0);
    assert!(!out.despawn);
}
