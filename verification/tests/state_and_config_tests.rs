use tuitype::models::{default_mode, default_theme, default_time, AppConfig};
use tuitype::state::{AppState, StateMachine};

#[test]
fn state_machine_starts_at_the_initial_state() {
    let m = StateMachine::new(AppState::Testing);
    assert_eq!(m.current(), AppState::Testing);
}

#[test]
fn transition_adopts_the_new_state() {
    let mut m = StateMachine::new(AppState::Testing);
    m.transition(AppState::History);
    assert_eq!(m.current(), AppState::History);
    m.transition(AppState::Stats);
    assert_eq!(m.current(), AppState::Stats);
    // Any state may follow any state; legality lives in the input handler.
    m.transition(AppState::Results);
    assert_eq!(m.current(), AppState::Results);
}

#[test]
fn config_defaults() {
    let c = AppConfig::default();
    assert_eq!(c.theme, "dark");
    assert_eq!(c.default_mode, "medium");
    assert_eq!(c.default_time, 60);
    assert_eq!(default_theme(), "dark");
    assert_eq!(default_mode(), "medium");
    assert_eq!(default_time(), 60);
}
