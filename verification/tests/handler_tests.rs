use tuitype::handler::{AppAction, InputHandler, KeyCode, KeyModifiers};
use tuitype::state::AppState;

fn mods(control: bool, alt: bool, shift: bool) -> KeyModifiers {
    KeyModifiers { control, alt, shift }
}

fn all_states() -> [AppState; 4] {
    [
        AppState::Testing,
        AppState::Results,
        AppState::History,
        AppState::Stats,
    ]
}

#[test]
fn backtick_always_quits() {
    let h = InputHandler::new();
    for state in all_states() {
        for complete in [false, true] {
            for control in [false, true] {
                for alt in [false, true] {
                    for shift in [false, true] {
                        let m = mods(control, alt, shift);
                        assert_eq!(
                            h.handle(KeyCode::Char('`'), m, state, complete),
                            AppAction::Quit
                        );
                    }
                }
            }
        }
    }
}

#[test]
fn tab_always_cycles_mode() {
    let h = InputHandler::new();
    for state in all_states() {
        for complete in [false, true] {
            assert_eq!(
                h.handle(KeyCode::Tab, KeyModifiers::none(), state, complete),
                AppAction::CycleMode
            );
        }
    }
}

#[test]
fn control_chords_act_in_every_state() {
    let h = InputHandler::new();
    let ctrl = mods(true, false, false);
    for state in all_states() {
        assert_eq!(
            h.handle(KeyCode::Char('t'), ctrl, state, false),
            AppAction::CycleTheme
        );
        assert_eq!(
            h.handle(KeyCode::Char('f'), ctrl, state, false),
            AppAction::ToggleKeyboard
        );
        assert_eq!(
            h.handle(KeyCode::Char('n'), ctrl, state, false),
            AppAction::NewQuote
        );
        assert_eq!(
            h.handle(KeyCode::Char('r'), ctrl, state, false),
            AppAction::Restart
        );
        assert_eq!(
            h.handle(KeyCode::Char('h'), ctrl, state, false),
            AppAction::ShowHistory
        );
        assert_eq!(
            h.handle(KeyCode::Char('s'), ctrl, state, false),
            AppAction::ShowStats
        );
    }
}

#[test]
fn escape_leaves_history_and_stats_only() {
    let h = InputHandler::new();
    let none = KeyModifiers::none();
    assert_eq!(
        h.handle(KeyCode::Esc, none, AppState::History, false),
        AppAction::BackToTesting
    );
    assert_eq!(
        h.handle(KeyCode::Esc, none, AppState::Stats, true),
        AppAction::BackToTesting
    );
    assert_eq!(
        h.handle(KeyCode::Esc, none, AppState::Testing, false),
        AppAction::Idle
    );
    assert_eq!(
        h.handle(KeyCode::Esc, none, AppState::Results, false),
        AppAction::Idle
    );
}

#[test]
fn arrows_navigate_in_history_and_stats_only() {
    let h = InputHandler::new();
    let none = KeyModifiers::none();
    for complete in [false, true] {
        assert_eq!(
            h.handle(KeyCode::Up, none, AppState::History, complete),
            AppAction::NavigateUp
        );
        assert_eq!(
            h.handle(KeyCode::Down, none, AppState::Stats, complete),
            AppAction::NavigateDown
        );
        assert_eq!(
            h.handle(KeyCode::Up, none, AppState::Testing, complete),
            AppAction::Idle
        );
        assert_eq!(
            h.handle(KeyCode::Down, none, AppState::Results, complete),
            AppAction::Idle
        );
    }
}

#[test]
fn enter_selects_or_requests_a_new_passage() {
    let h = InputHandler::new();
    let none = KeyModifiers::none();
    assert_eq!(
        h.handle(KeyCode::Enter, none, AppState::Testing, true),
        AppAction::NewQuote
    );
    assert_eq!(
        h.handle(KeyCode::Enter, none, AppState::Results, true),
        AppAction::NewQuote
    );
    assert_eq!(
        h.handle(KeyCode::Enter, none, AppState::Testing, false),
        AppAction::Select
    );
    assert_eq!(
        h.handle(KeyCode::Enter, none, AppState::History, true),
        AppAction::Select
    );
}

#[test]
fn space_restarts_renews_or_types() {
    let h = InputHandler::new();
    let none = KeyModifiers::none();
    assert_eq!(
        h.handle(KeyCode::Char(' '), none, AppState::Testing, true),
        AppAction::Restart
    );
    assert_eq!(
        h.handle(KeyCode::Char(' '), none, AppState::Results, true),
        AppAction::NewQuote
    );
    assert_eq!(
        h.handle(KeyCode::Char(' '), none, AppState::Testing, false),
        AppAction::TypeChar(' ')
    );
    // Outside the testing screen an incomplete test gets nothing from Space.
    assert_eq!(
        h.handle(KeyCode::Char(' '), none, AppState::History, false),
        AppAction::Idle
    );
    assert_eq!(
        h.handle(KeyCode::Char(' '), none, AppState::Stats, true),
        AppAction::Idle
    );
    assert_eq!(
        h.handle(KeyCode::Char(' '), none, AppState::Results, false),
        AppAction::Idle
    );
}

#[test]
fn plain_characters_type_while_testing() {
    let h = InputHandler::new();
    let none = KeyModifiers::none();
    assert_eq!(
        h.handle(KeyCode::Char('a'), none, AppState::Testing, false),
        AppAction::TypeChar('a')
    );
    assert_eq!(
        h.handle(KeyCode::Char('a'), none, AppState::Testing, true),
        AppAction::Idle
    );
    assert_eq!(
        h.handle(KeyCode::Char('a'), none, AppState::History, false),
        AppAction::Idle
    );
}

#[test]
fn shifted_characters_type_upper_case() {
    let h = InputHandler::new();
    let shift = mods(false, false, true);
    assert_eq!(
        h.handle(KeyCode::Char('a'), shift, AppState::Testing, false),
        AppAction::TypeChar('A')
    );
    // Characters without a lower-case form pass through unchanged.
    assert_eq!(
        h.handle(KeyCode::Char('3'), shift, AppState::Testing, false),
        AppAction::TypeChar('3')
    );
    assert_eq!(
        h.handle(KeyCode::Char('a'), shift, AppState::Testing, true),
        AppAction::Idle
    );
}

#[test]
fn backspace_variants() {
    let h = InputHandler::new();
    assert_eq!(
        h.handle(
            KeyCode::Backspace,
            KeyModifiers::none(),
            AppState::Testing,
            false
        ),
        AppAction::Backspace
    );
    assert_eq!(
        h.handle(
            KeyCode::Backspace,
            mods(false, true, false),
            AppState::Testing,
            false
        ),
        AppAction::DeleteWord
    );
    // Control-backspace shares the history binding of control-h.
    for state in all_states() {
        assert_eq!(
            h.handle(KeyCode::Backspace, mods(true, false, false), state, false),
            AppAction::ShowHistory
        );
    }
    assert_eq!(
        h.handle(
            KeyCode::Backspace,
            KeyModifiers::none(),
            AppState::Testing,
            true
        ),
        AppAction::Idle
    );
    assert_eq!(
        h.handle(
            KeyCode::Backspace,
            KeyModifiers::none(),
            AppState::History,
            false
        ),
        AppAction::Idle
    );
}

#[test]
fn unbound_keys_do_nothing() {
    let h = InputHandler::new();
    assert_eq!(
        h.handle(
            KeyCode::Other,
            KeyModifiers::none(),
            AppState::Testing,
            false
        ),
        AppAction::Idle
    );
}
