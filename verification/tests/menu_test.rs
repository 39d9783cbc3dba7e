use tank_battle::menu::{
    handle_about_input, handle_credits_input, handle_game_input, handle_game_over_input,
    handle_menu_navigation, handle_pause_input, handle_start_screen_input, is_option_highlighted,
    stage_intro_step, CurrentMenuSelection, KeyPresses, NavigationWrap, Platform, StageIntroStep,
};
use tank_battle::types::{GameMode, GameState, Language};

fn keys() -> KeyPresses {
    KeyPresses { w: false, s: false, space: false, escape: false, b: false }
}

#[test]
fn navigation_wraps_around() {
    let mut sel = 0;
    assert!(handle_menu_navigation(true, false, &mut sel, 6, NavigationWrap::WrapAround));
    assert_eq!(sel, 6);
    assert!(handle_menu_navigation(false, true, &mut sel, 6, NavigationWrap::WrapAround));
    assert_eq!(sel, 0);
    assert!(handle_menu_navigation(false, true, &mut sel, 6, NavigationWrap::WrapAround));
    assert_eq!(sel, 1);
}

#[test]
fn navigation_clamps() {
    let mut sel = 0;
    assert!(!handle_menu_navigation(true, false, &mut sel, 2, NavigationWrap::Clamped));
    assert_eq!(sel, 0);
    sel = 2;
    assert!(!handle_menu_navigation(false, true, &mut sel, 2, NavigationWrap::Clamped));
    assert_eq!(sel, 2);
    assert!(handle_menu_navigation(true, true, &mut sel, 2, NavigationWrap::Clamped));
    assert_eq!(sel, 2);
    assert!(!handle_menu_navigation(false, false, &mut sel, 2, NavigationWrap::Clamped));
}

#[test]
fn start_screen_starts_games() {
    let mut sel = CurrentMenuSelection::default();
    let mut mode = GameMode::TwoPlayers;
    let mut lang = Language::Chinese;
    let cmd = handle_start_screen_input(KeyPresses { space: true, ..keys() }, &mut sel, &mut mode, &mut lang, Platform::Desktop);
    assert_eq!(cmd.next_state, Some(GameState::FadingOut));
    assert!(!cmd.exit);
    assert_eq!(mode, GameMode::OnePlayer);
    let cmd = handle_start_screen_input(KeyPresses { s: true, space: true, ..keys() }, &mut sel, &mut mode, &mut lang, Platform::Desktop);
    assert_eq!(sel.selected_index, 1);
    assert_eq!(cmd.next_state, Some(GameState::FadingOut));
    assert_eq!(mode, GameMode::TwoPlayers);
}

#[test]
fn start_screen_other_entries_on_desktop() {
    let mut mode = GameMode::OnePlayer;
    let mut lang = Language::Chinese;
    let mut sel = CurrentMenuSelection { selected_index: 2 };
    let cmd = handle_start_screen_input(KeyPresses { space: true, ..keys() }, &mut sel, &mut mode, &mut lang, Platform::Desktop);
    assert_eq!(cmd.next_state, Some(GameState::LevelEditor));
    sel.selected_index = 3;
    let cmd = handle_start_screen_input(KeyPresses { space: true, ..keys() }, &mut sel, &mut mode, &mut lang, Platform::Desktop);
    assert_eq!(cmd.next_state, None);
    assert_eq!(lang, Language::English);
    sel.selected_index = 4;
    let cmd = handle_start_screen_input(KeyPresses { space: true, ..keys() }, &mut sel, &mut mode, &mut lang, Platform::Desktop);
    assert_eq!(cmd.next_state, Some(GameState::About));
    sel.selected_index = 5;
    let cmd = handle_start_screen_input(KeyPresses { space: true, ..keys() }, &mut sel, &mut mode, &mut lang, Platform::Desktop);
    assert_eq!(cmd.next_state, Some(GameState::Credits));
    sel.selected_index = 6;
    let cmd = handle_start_screen_input(KeyPresses { space: true, ..keys() }, &mut sel, &mut mode, &mut lang, Platform::Desktop);
    assert!(cmd.exit);
    assert_eq!(cmd.next_state, None);
    let cmd = handle_start_screen_input(KeyPresses { escape: true, ..keys() }, &mut sel, &mut mode, &mut lang, Platform::Desktop);
    assert!(cmd.exit);
}

#[test]
fn start_screen_in_a_browser() {
    let mut mode = GameMode::OnePlayer;
    let mut lang = Language::English;
    let mut sel = CurrentMenuSelection { selected_index: 0 };
    handle_start_screen_input(KeyPresses { w: true, ..keys() }, &mut sel, &mut mode, &mut lang, Platform::Web);
    assert_eq!(sel.selected_index, 5);
    let cmd = handle_start_screen_input(KeyPresses { space: true, escape: true, ..keys() }, &mut sel, &mut mode, &mut lang, Platform::Web);
    assert_eq!(cmd.next_state, Some(GameState::StartScreen));
    assert!(!cmd.exit);
    sel.selected_index = 2;
    handle_start_screen_input(KeyPresses { space: true, ..keys() }, &mut sel, &mut mode, &mut lang, Platform::Web);
    assert_eq!(lang, Language::Chinese);
}

#[test]
fn game_over_menu() {
    let mut sel = CurrentMenuSelection::default();
    let cmd = handle_game_over_input(KeyPresses { space: true, ..keys() }, &mut sel);
    assert_eq!(cmd.next_state, Some(GameState::StageIntro));
    let cmd = handle_game_over_input(KeyPresses { s: true, space: true, ..keys() }, &mut sel);
    assert_eq!(cmd.next_state, Some(GameState::StartScreen));
    let cmd = handle_game_over_input(KeyPresses { s: true, space: true, ..keys() }, &mut sel);
    assert!(cmd.exit);
    let cmd = handle_game_over_input(KeyPresses { s: true, ..keys() }, &mut sel);
    assert_eq!(sel.selected_index, 2);
    assert!(!cmd.exit);
}

#[test]
fn play_pause_about_credits() {
    assert_eq!(handle_game_input(KeyPresses { space: true, ..keys() }).next_state, Some(GameState::Paused));
    assert!(handle_game_input(KeyPresses { escape: true, ..keys() }).exit);
    assert_eq!(handle_pause_input(KeyPresses { space: true, ..keys() }).next_state, Some(GameState::Playing));
    assert_eq!(handle_pause_input(KeyPresses { b: true, space: true, ..keys() }).next_state, Some(GameState::StartScreen));
    assert_eq!(handle_pause_input(keys()).next_state, None);
    assert_eq!(handle_about_input(KeyPresses { space: true, ..keys() }).next_state, Some(GameState::StartScreen));
    assert_eq!(handle_credits_input(keys()).next_state, None);
}

#[test]
fn highlight_and_intro() {
    let sel = CurrentMenuSelection { selected_index: 1 };
    assert!(is_option_highlighted(1, &sel));
    assert!(!is_option_highlighted(0, &sel));
    assert_eq!(stage_intro_step(false, false, false), StageIntroStep::FadeIn);
    assert_eq!(stage_intro_step(true, false, false), StageIntroStep::Stay);
    assert_eq!(stage_intro_step(true, true, false), StageIntroStep::FadeOut);
    assert_eq!(stage_intro_step(true, true, true), StageIntroStep::StartPlaying);
}
