//! Menus and screen changes: moving the highlight through a menu, and what
//! the keys pressed on each screen lead to.

use vstd::prelude::*;
use crate::types::{GameMode, GameState, Language};

verus! {

/// What the highlight does when it is moved past either end of a menu.
#[derive(Clone, Copy, Debug, PartialEq, Eq, Structural)]
pub enum NavigationWrap {
    /// Past the last entry it comes back at the first, and the other way.
    WrapAround,
    /// It stays on the first or last entry.
    Clamped,
}

/// The highlight after one press of W (up).
pub open spec fn moved_up(selection: usize, max_index: usize, wrap: NavigationWrap) -> usize {
    if selection > 0 {
        (selection - 1) as usize
    } else if wrap == NavigationWrap::WrapAround {
        max_index
    } else {
        selection
    }
}

/// The highlight after one press of S (down).
pub open spec fn moved_down(selection: usize, max_index: usize, wrap: NavigationWrap) -> usize {
    if selection < max_index {
        (selection + 1) as usize
    } else if wrap == NavigationWrap::WrapAround {
        0
    } else {
        selection
    }
}

/// The highlight after the W and S presses of one frame, W first.
pub open spec fn navigated(up: bool, down: bool, selection: usize, max_index: usize, wrap: NavigationWrap) -> usize {
    let after_up = if up { moved_up(selection, max_index, wrap) } else { selection };
    if down { moved_down(after_up, max_index, wrap) } else { after_up }
}

/// Moves the highlight of a menu whose entries are numbered `0..=max_index`
/// by the W (`up`) and S (`down`) presses of this frame; says whether it
/// moved. A highlight inside the menu stays inside it.
pub fn handle_menu_navigation(
    up: bool,
    down: bool,
    selection: &mut usize,
    max_index: usize,
    wrap_behavior: NavigationWrap,
) -> (changed: bool)
    ensures
        *final(selection) == navigated(up, down, *old(selection), max_index, wrap_behavior),
        changed == ((up && (*old(selection) > 0 || wrap_behavior == NavigationWrap::WrapAround))
            || (down && (moved_up_if(up, *old(selection), max_index, wrap_behavior) < max_index
                || wrap_behavior == NavigationWrap::WrapAround))),
        *old(selection) <= max_index ==> *final(selection) <= max_index,
{
    let mut changed = false;
    if up {
        if *selection > 0 {
            *selection = *selection - 1;
            changed = true;
        } else if wrap_behavior == NavigationWrap::WrapAround {
            *selection = max_index;
            changed = true;
        }
    }
    if down {
        if *selection < max_index {
            *selection = *selection + 1;
            changed = true;
        } else if wrap_behavior == NavigationWrap::WrapAround {
            *selection = 0;
            changed = true;
        }
    }
    changed
}

/// The highlight after the W press of a frame, if there was one.
pub open spec fn moved_up_if(up: bool, selection: usize, max_index: usize, wrap: NavigationWrap) -> usize {
    if up { moved_up(selection, max_index, wrap) } else { selection }
}

/// The highlighted entry of the menu on screen.
#[derive(Clone, Copy, Debug, PartialEq, Eq, Structural)]
pub struct CurrentMenuSelection {
    pub selected_index: usize,
}

impl Default for CurrentMenuSelection {
    /// The first entry.
    fn default() -> (s: Self)
        ensures
            s.selected_index == 0,
    {
        CurrentMenuSelection { selected_index: 0 }
    }
}

/// The keys pressed down in this frame.
#[derive(Clone, Copy, Debug, PartialEq, Eq, Structural)]
pub struct KeyPresses {
    pub w: bool,
    pub s: bool,
    pub space: bool,
    pub escape: bool,
    pub b: bool,
}

/// Where the game runs: on a desktop it can quit itself, in a browser it
/// cannot, so the start menu has no editor entry there and its exit entry
/// returns to the start screen.
#[derive(Clone, Copy, Debug, PartialEq, Eq, Structural)]
pub enum Platform {
    Desktop,
    Web,
}

/// What a screen asks for after this frame's keys: a screen to go to, and
/// whether to quit the game.
#[derive(Clone, Copy, Debug, PartialEq, Eq, Structural)]
pub struct ScreenCommand {
    pub next_state: Option<GameState>,
    pub exit: bool,
}

/// The entries of the start menu.
#[derive(Clone, Copy, Debug, PartialEq, Eq, Structural)]
pub enum StartMenuEntry {
    OnePlayer,
    TwoPlayers,
    LevelEditor,
    Language,
    About,
    Credits,
    Exit,
}

/// How many entries the start menu has.
pub open spec fn start_menu_len(platform: Platform) -> usize {
    match platform {
        Platform::Desktop => 7,
        Platform::Web => 6,
    }
}

/// The start-menu entry at a position: on a desktop one player, two
/// players, level editor, language, about, credits, exit; in a browser the
/// same without the level editor.
pub open spec fn start_menu_entry(index: usize, platform: Platform) -> Option<StartMenuEntry> {
    match platform {
        Platform::Desktop => if index == 0 {
            Some(StartMenuEntry::OnePlayer)
        } else if index == 1 {
            Some(StartMenuEntry::TwoPlayers)
        } else if index == 2 {
            Some(StartMenuEntry::LevelEditor)
        } else if index == 3 {
            Some(StartMenuEntry::Language)
        } else if index == 4 {
            Some(StartMenuEntry::About)
        } else if index == 5 {
            Some(StartMenuEntry::Credits)
        } else if index == 6 {
            Some(StartMenuEntry::Exit)
        } else {
            None
        },
        Platform::Web => if index == 0 {
            Some(StartMenuEntry::OnePlayer)
        } else if index == 1 {
            Some(StartMenuEntry::TwoPlayers)
        } else if index == 2 {
            Some(StartMenuEntry::Language)
        } else if index == 3 {
            Some(StartMenuEntry::About)
        } else if index == 4 {
            Some(StartMenuEntry::Credits)
        } else if index == 5 {
            Some(StartMenuEntry::Exit)
        } else {
            None
        },
    }
}

/// The start-menu entry at a position.
pub fn start_menu_entry_at(index: usize, platform: Platform) -> (e: Option<StartMenuEntry>)
    ensures
        e == start_menu_entry(index, platform),
{
    match platform {
        Platform::Desktop => if index == 0 {
            Some(StartMenuEntry::OnePlayer)
        } else if index == 1 {
            Some(StartMenuEntry::TwoPlayers)
        } else if index == 2 {
            Some(StartMenuEntry::LevelEditor)
        } else if index == 3 {
            Some(StartMenuEntry::Language)
        } else if index == 4 {
            Some(StartMenuEntry::About)
        } else if index == 5 {
            Some(StartMenuEntry::Credits)
        } else if index == 6 {
            Some(StartMenuEntry::Exit)
        } else {
            None
        },
        Platform::Web => if index == 0 {
            Some(StartMenuEntry::OnePlayer)
        } else if index == 1 {
            Some(StartMenuEntry::TwoPlayers)
        } else if index == 2 {
            Some(StartMenuEntry::Language)
        } else if index == 3 {
            Some(StartMenuEntry::About)
        } else if index == 4 {
            Some(StartMenuEntry::Credits)
        } else if index == 5 {
            Some(StartMenuEntry::Exit)
        } else {
            None
        },
    }
}

/// The screen a confirmed start-menu entry leads to.
pub open spec fn start_entry_state(e: Option<StartMenuEntry>, platform: Platform) -> Option<GameState> {
    match e {
        Some(StartMenuEntry::OnePlayer) => Some(GameState::FadingOut),
        Some(StartMenuEntry::TwoPlayers) => Some(GameState::FadingOut),
        Some(StartMenuEntry::LevelEditor) => Some(GameState::LevelEditor),
        Some(StartMenuEntry::About) => Some(GameState::About),
        Some(StartMenuEntry::Credits) => Some(GameState::Credits),
        Some(StartMenuEntry::Exit) => if platform == Platform::Web {
            Some(GameState::StartScreen)
        } else {
            None
        },
        _ => None,
    }
}

/// The other language.
pub open spec fn other_language(l: Language) -> Language {
    match l {
        Language::Chinese => Language::English,
        Language::English => Language::Chinese,
    }
}

/// The start screen: Escape quits (on a desktop); W and S move the
/// highlight round the menu; Space confirms the highlighted entry, which
/// starts a one- or two-player game (fading the menu out first), opens the
/// editor, switches the language, opens the about or credits screen, or
/// quits (in a browser: goes back to the start screen).
pub fn handle_start_screen_input(
    keys: KeyPresses,
    menu_selection: &mut CurrentMenuSelection,
    game_mode: &mut GameMode,
    language: &mut Language,
    platform: Platform,
) -> (cmd: ScreenCommand)
    ensures
        final(menu_selection).selected_index == navigated(
            keys.w,
            keys.s,
            old(menu_selection).selected_index,
            (start_menu_len(platform) - 1) as usize,
            NavigationWrap::WrapAround,
        ),
        ({
            let e = start_menu_entry(final(menu_selection).selected_index, platform);
            &&& *final(game_mode) == if keys.space && e == Some(StartMenuEntry::OnePlayer) {
                GameMode::OnePlayer
            } else if keys.space && e == Some(StartMenuEntry::TwoPlayers) {
                GameMode::TwoPlayers
            } else {
                *old(game_mode)
            }
            &&& *final(language) == if keys.space && e == Some(StartMenuEntry::Language) {
                other_language(*old(language))
            } else {
                *old(language)
            }
            &&& cmd.next_state == if keys.space { start_entry_state(e, platform) } else { None }
            &&& cmd.exit == (platform == Platform::Desktop && (keys.escape
                || (keys.space && e == Some(StartMenuEntry::Exit))))
        }),
{
    let mut exit = platform == Platform::Desktop && keys.escape;
    let menu_count: usize = match platform {
        Platform::Desktop => 7,
        Platform::Web => 6,
    };
    handle_menu_navigation(
        keys.w,
        keys.s,
        &mut menu_selection.selected_index,
        menu_count - 1,
        NavigationWrap::WrapAround,
    );
    let mut next_state: Option<GameState> = None;
    if keys.space {
        match start_menu_entry_at(menu_selection.selected_index, platform) {
            Some(StartMenuEntry::OnePlayer) => {
                *game_mode = GameMode::OnePlayer;
                next_state = Some(GameState::FadingOut);
            },
            Some(StartMenuEntry::TwoPlayers) => {
                *game_mode = GameMode::TwoPlayers;
                next_state = Some(GameState::FadingOut);
            },
            Some(StartMenuEntry::LevelEditor) => {
                next_state = Some(GameState::LevelEditor);
            },
            Some(StartMenuEntry::Language) => {
                *language = language.toggled();
            },
            Some(StartMenuEntry::About) => {
                next_state = Some(GameState::About);
            },
            Some(StartMenuEntry::Credits) => {
                next_state = Some(GameState::Credits);
            },
            Some(StartMenuEntry::Exit) => {
                match platform {
                    Platform::Desktop => {
                        exit = true;
                    },
                    Platform::Web => {
                        next_state = Some(GameState::StartScreen);
                    },
                }
            },
            None => {},
        }
    }
    ScreenCommand { next_state, exit }
}

/// The game-over menu (restart, back to the menu, quit): W and S move the
/// highlight without wrapping; Space restarts at the stage intro, goes
/// back to the start screen, or quits.
pub fn handle_game_over_input(keys: KeyPresses, menu_selection: &mut CurrentMenuSelection) -> (cmd: ScreenCommand)
    ensures
        final(menu_selection).selected_index == navigated(
            keys.w,
            keys.s,
            old(menu_selection).selected_index,
            2,
            NavigationWrap::Clamped,
        ),
        ({
            let i = final(menu_selection).selected_index;
            &&& cmd.next_state == if keys.space && i == 0 {
                Some(GameState::StageIntro)
            } else if keys.space && i == 1 {
                Some(GameState::StartScreen)
            } else {
                None
            }
            &&& cmd.exit == (keys.space && i == 2)
        }),
{
    handle_menu_navigation(keys.w, keys.s, &mut menu_selection.selected_index, 2, NavigationWrap::Clamped);
    let mut next_state: Option<GameState> = None;
    let mut exit = false;
    if keys.space {
        if menu_selection.selected_index == 0 {
            next_state = Some(GameState::StageIntro);
        } else if menu_selection.selected_index == 1 {
            next_state = Some(GameState::StartScreen);
        } else if menu_selection.selected_index == 2 {
            exit = true;
        }
    }
    ScreenCommand { next_state, exit }
}

/// During play: Space pauses, Escape quits.
pub fn handle_game_input(keys: KeyPresses) -> (cmd: ScreenCommand)
    ensures
        cmd.next_state == if keys.space { Some(GameState::Paused) } else { None },
        cmd.exit == keys.escape,
{
    let next_state = if keys.space { Some(GameState::Paused) } else { None };
    ScreenCommand { next_state, exit: keys.escape }
}

/// On the pause screen: Space resumes, B goes back to the start screen (B
/// wins when both are pressed), Escape quits.
pub fn handle_pause_input(keys: KeyPresses) -> (cmd: ScreenCommand)
    ensures
        cmd.next_state == if keys.b {
            Some(GameState::StartScreen)
        } else if keys.space {
            Some(GameState::Playing)
        } else {
            None
        },
        cmd.exit == keys.escape,
{
    let mut next_state: Option<GameState> = None;
    if keys.space {
        next_state = Some(GameState::Playing);
    }
    if keys.b {
        next_state = Some(GameState::StartScreen);
    }
    ScreenCommand { next_state, exit: keys.escape }
}

/// On the about screen: Space goes back to the start screen.
pub fn handle_about_input(keys: KeyPresses) -> (cmd: ScreenCommand)
    ensures
        cmd.next_state == if keys.space { Some(GameState::StartScreen) } else { None },
        !cmd.exit,
{
    let next_state = if keys.space { Some(GameState::StartScreen) } else { None };
    ScreenCommand { next_state, exit: false }
}

/// On the credits screen: Space goes back to the start screen.
pub fn handle_credits_input(keys: KeyPresses) -> (cmd: ScreenCommand)
    ensures
        cmd.next_state == if keys.space { Some(GameState::StartScreen) } else { None },
        !cmd.exit,
{
    let next_state = if keys.space { Some(GameState::StartScreen) } else { None };
    ScreenCommand { next_state, exit: false }
}

/// Whether a menu entry is drawn highlighted (yellow) rather than plain
/// (white).
pub fn is_option_highlighted(option_index: usize, menu_selection: &CurrentMenuSelection) -> (r: bool)
    ensures
        r == (option_index == menu_selection.selected_index),
{
    option_index == menu_selection.selected_index
}

/// What the stage intro does in a frame.
#[derive(Clone, Copy, Debug, PartialEq, Eq, Structural)]
pub enum StageIntroStep {
    /// Advance the fade-in timer and raise the text's opacity.
    FadeIn,
    /// Advance the timer that holds the text on screen.
    Stay,
    /// Advance the fade-out timer and lower the text's opacity.
    FadeOut,
    /// All three phases are over: start playing.
    StartPlaying,
}

/// The stage intro runs its fade-in, its hold and its fade-out one after
/// the other, then starts play.
pub fn stage_intro_step(fade_in_finished: bool, stay_finished: bool, fade_out_finished: bool) -> (step: StageIntroStep)
    ensures
        step == if !fade_in_finished {
            StageIntroStep::FadeIn
        } else if !stay_finished {
            StageIntroStep::Stay
        } else if !fade_out_finished {
            StageIntroStep::FadeOut
        } else {
            StageIntroStep::StartPlaying
        },
{
    if !fade_in_finished {
        StageIntroStep::FadeIn
    } else if !stay_finished {
        StageIntroStep::Stay
    } else if !fade_out_finished {
        StageIntroStep::FadeOut
    } else {
        StageIntroStep::StartPlaying
    }
}

/// In a wrapping menu, W then S (or S then W) brings the highlight back to
/// the entry it started on.
pub proof fn lemma_wrap_up_down_inverse(selection: usize, max_index: usize)
    requires
        selection <= max_index,
    ensures
        moved_down(moved_up(selection, max_index, NavigationWrap::WrapAround), max_index, NavigationWrap::WrapAround)
            == selection,
        moved_up(moved_down(selection, max_index, NavigationWrap::WrapAround), max_index, NavigationWrap::WrapAround)
            == selection,
{
}

/// Switching the language twice gives the language back.
pub proof fn lemma_language_toggle_twice(l: Language)
    ensures
        other_language(other_language(l)) == l,
{
}

/// Moving the highlight never leaves the menu: from any entry of a menu of
/// `max_index + 1` entries, every combination of W and S presses in a frame
/// ends on an entry of that menu.
pub proof fn lemma_navigation_stays_in_menu(up: bool, down: bool, selection: usize, max_index: usize, wrap: NavigationWrap)
    requires
        selection <= max_index,
    ensures
        navigated(up, down, selection, max_index, wrap) <= max_index,
{
}

} // verus!
