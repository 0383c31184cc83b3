//! The pure mapping from one key event to one semantic action, given the
//! current screen and whether the test is complete. The precedence of the
//! bindings is fixed by [`resolve`]; the exec entry point only evaluates it.

use vstd::prelude::*;

use crate::state::AppState;

verus! {

/// A key press, as the core sees it. The driving loop translates the
/// terminal's events into this shape; keys the trainer does not bind arrive
/// as `Other`.
#[derive(Debug, Clone, Copy, PartialEq, Eq, Structural)]
pub enum KeyCode {
    Char(char),
    Tab,
    Backspace,
    Enter,
    Esc,
    Up,
    Down,
    Other,
}

/// The modifier keys held during a key press.
#[derive(Debug, Clone, Copy, PartialEq, Eq, Structural)]
pub struct KeyModifiers {
    pub control: bool,
    pub alt: bool,
    pub shift: bool,
}

impl KeyModifiers {
    /// No modifier held.
    pub fn none() -> (r: Self)
        ensures
            r == (KeyModifiers { control: false, alt: false, shift: false }),
    {
        KeyModifiers { control: false, alt: false, shift: false }
    }
}

/// One semantic action, produced only by the input handler; the caller
/// applies it to the session and the screen state machine.
#[derive(Debug, Clone, Copy, PartialEq, Eq, Structural)]
pub enum AppAction {
    Quit,
    ShowHistory,
    ShowStats,
    BackToTesting,
    CycleTheme,
    CycleMode,
    NewQuote,
    Restart,
    ToggleKeyboard,
    TypeChar(char),
    Backspace,
    DeleteWord,
    NavigateUp,
    NavigateDown,
    Select,
    Idle,
}

/// The ASCII upper-case counterpart of a character; other characters are
/// unchanged.
pub open spec fn to_upper(c: char) -> char {
    if 'a' <= c && c <= 'z' {
        (c as u8 - 32) as char
    } else {
        c
    }
}

/// Which action a key press resolves to. First match wins:
/// the backtick always quits; Tab always cycles the length mode; the
/// control chords (theme, keyboard, new passage, restart, history, stats)
/// act in every screen; Escape and the arrows act only in the history and
/// stats screens; Enter starts a new passage when a test just finished on
/// the testing or results screen, and otherwise selects; Space restarts a
/// finished test on the testing screen, starts a new passage on the results
/// screen, and types a space while testing; elsewhere it does nothing;
/// printable characters type (upper
/// cased under Shift) while testing; control-Backspace shows the history
/// (the same binding as control-h); alt-Backspace deletes a word and plain
/// Backspace one character while testing; everything else does nothing.
pub open spec fn resolve(
    code: KeyCode,
    mods: KeyModifiers,
    state: AppState,
    is_complete: bool,
) -> AppAction {
    if code == KeyCode::Char('`') {
        AppAction::Quit
    } else if code == KeyCode::Tab {
        AppAction::CycleMode
    } else if code == KeyCode::Char('t') && mods.control {
        AppAction::CycleTheme
    } else if code == KeyCode::Char('f') && mods.control {
        AppAction::ToggleKeyboard
    } else if code == KeyCode::Char('n') && mods.control {
        AppAction::NewQuote
    } else if code == KeyCode::Char('r') && mods.control {
        AppAction::Restart
    } else if code == KeyCode::Char('h') && mods.control {
        AppAction::ShowHistory
    } else if code == KeyCode::Char('s') && mods.control {
        AppAction::ShowStats
    } else if code == KeyCode::Esc && (state == AppState::History || state == AppState::Stats) {
        AppAction::BackToTesting
    } else if code == KeyCode::Up && (state == AppState::History || state == AppState::Stats) {
        AppAction::NavigateUp
    } else if code == KeyCode::Down && (state == AppState::History || state == AppState::Stats) {
        AppAction::NavigateDown
    } else if code == KeyCode::Enter {
        if is_complete && (state == AppState::Testing || state == AppState::Results) {
            AppAction::NewQuote
        } else {
            AppAction::Select
        }
    } else if code == KeyCode::Char(' ') {
        if is_complete && state == AppState::Testing {
            AppAction::Restart
        } else if is_complete && state == AppState::Results {
            AppAction::NewQuote
        } else if state == AppState::Testing && !is_complete {
            AppAction::TypeChar(' ')
        } else {
            AppAction::Idle
        }
    } else if (code is Char) && mods.shift && state == AppState::Testing {
        if !is_complete {
            AppAction::TypeChar(to_upper(code->Char_0))
        } else {
            AppAction::Idle
        }
    } else if (code is Char) && state == AppState::Testing {
        if !is_complete {
            AppAction::TypeChar(code->Char_0)
        } else {
            AppAction::Idle
        }
    } else if code == KeyCode::Backspace && mods.control {
        AppAction::ShowHistory
    } else if code == KeyCode::Backspace && mods.alt && state == AppState::Testing {
        if !is_complete {
            AppAction::DeleteWord
        } else {
            AppAction::Idle
        }
    } else if code == KeyCode::Backspace && state == AppState::Testing {
        if !is_complete {
            AppAction::Backspace
        } else {
            AppAction::Idle
        }
    } else {
        AppAction::Idle
    }
}

/// Resolves key presses into actions; stateless.
pub struct InputHandler;

impl InputHandler {
    pub fn new() -> Self {
        Self
    }

    /// Resolve one key press. Pure: neither the session nor the screen state
    /// is touched; the caller applies the returned action.
    pub fn handle(&self, code: KeyCode, modifiers: KeyModifiers, state: AppState, is_complete: bool)
        -> (r: AppAction)
        ensures
            r == resolve(code, modifiers, state, is_complete),
    {
        match code {
            KeyCode::Char('`') => AppAction::Quit,
            KeyCode::Tab => AppAction::CycleMode,
            KeyCode::Char('t') if modifiers.control => AppAction::CycleTheme,
            KeyCode::Char('f') if modifiers.control => AppAction::ToggleKeyboard,
            KeyCode::Char('n') if modifiers.control => AppAction::NewQuote,
            KeyCode::Char('r') if modifiers.control => AppAction::Restart,
            KeyCode::Char('h') if modifiers.control => AppAction::ShowHistory,
            KeyCode::Char('s') if modifiers.control => AppAction::ShowStats,
            KeyCode::Esc if state == AppState::History || state == AppState::Stats => {
                AppAction::BackToTesting
            },
            KeyCode::Up if state == AppState::History || state == AppState::Stats => {
                AppAction::NavigateUp
            },
            KeyCode::Down if state == AppState::History || state == AppState::Stats => {
                AppAction::NavigateDown
            },
            KeyCode::Enter => {
                if is_complete && (state == AppState::Testing || state == AppState::Results) {
                    AppAction::NewQuote
                } else {
                    AppAction::Select
                }
            },
            KeyCode::Char(' ') => {
                if is_complete && state == AppState::Testing {
                    AppAction::Restart
                } else if is_complete && state == AppState::Results {
                    AppAction::NewQuote
                } else if state == AppState::Testing {
                    AppAction::TypeChar(' ')
                } else {
                    AppAction::Idle
                }
            },
            KeyCode::Char(c) if modifiers.shift && state == AppState::Testing => {
                if !is_complete {
                    let upper = if 'a' <= c && c <= 'z' {
                        ((c as u8) - 32) as char
                    } else {
                        c
                    };
                    AppAction::TypeChar(upper)
                } else {
                    AppAction::Idle
                }
            },
            KeyCode::Char(c) if state == AppState::Testing => {
                if !is_complete {
                    AppAction::TypeChar(c)
                } else {
                    AppAction::Idle
                }
            },
            KeyCode::Backspace if modifiers.control => AppAction::ShowHistory,
            KeyCode::Backspace if modifiers.alt && state == AppState::Testing => {
                if !is_complete {
                    AppAction::DeleteWord
                } else {
                    AppAction::Idle
                }
            },
            KeyCode::Backspace if state == AppState::Testing => {
                if !is_complete {
                    AppAction::Backspace
                } else {
                    AppAction::Idle
                }
            },
            _ => AppAction::Idle,
        }
    }
}

/// The backtick key quits from every screen, under every modifier
/// combination, whether or not the test is complete.
pub proof fn lemma_backtick_always_quits(mods: KeyModifiers, state: AppState, is_complete: bool)
    ensures
        resolve(KeyCode::Char('`'), mods, state, is_complete) == AppAction::Quit,
{
}

} // verus!
