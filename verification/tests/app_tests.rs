use app_states::app::create_app;
use app_states::app::log_transitions;
use app_states::app::transition_message;
use app_states::app::StateTransitionEvent;
use app_states::state::AppState;
use app_states::state::KeyCode;

#[test]
fn test_app_has_text() {
    let mut app = create_app();
    app.update();
    assert_eq!(app.count_n_texts(), 1);
}

#[test]
fn test_app_has_menu_text() {
    let mut app = create_app();
    app.update();
    assert_eq!(app.get_text(), "Menu. Press space to start");
}

#[test]
fn test_app_starts_at_menu() {
    let mut app = create_app();
    app.update();
    assert_eq!(app.get_program_state(), AppState::Menu);
}

#[test]
fn test_space_starts_game() {
    let mut app = create_app();
    app.update();
    assert_eq!(app.get_program_state(), AppState::Menu);
    app.send_key_press(KeyCode::Space);
    app.update();
    app.update();
    assert_eq!(app.get_program_state(), AppState::InGame);
}

#[test]
fn test_escape_leaves_game() {
    let mut app = create_app();
    app.update();
    assert_eq!(app.get_program_state(), AppState::Menu);
    app.send_key_press(KeyCode::Space);
    app.update();
    app.update();
    assert_eq!(app.get_program_state(), AppState::InGame);
    app.send_key_press(KeyCode::Escape);
    app.update();
    app.update();
    assert_eq!(app.get_program_state(), AppState::Menu);
}

#[test]
fn test_new_app_has_no_entities() {
    let app = create_app();
    assert_eq!(app.count_n_texts(), 0);
}

#[test]
fn test_menu_ignores_escape() {
    let mut app = create_app();
    app.update();
    app.send_key_press(KeyCode::Escape);
    app.update();
    app.update();
    assert_eq!(app.get_program_state(), AppState::Menu);
    assert_eq!(app.get_text(), "Menu. Press space to start");
}

#[test]
fn test_game_ignores_space() {
    let mut app = create_app();
    app.update();
    app.send_key_press(KeyCode::Space);
    app.update();
    app.update();
    assert_eq!(app.get_program_state(), AppState::InGame);
    app.send_key_press(KeyCode::Space);
    app.update();
    app.update();
    assert_eq!(app.get_program_state(), AppState::InGame);
    assert_eq!(app.get_text(), "Game. Press escape to quit");
}

#[test]
fn test_game_shows_game_text() {
    let mut app = create_app();
    app.update();
    app.send_key_press(KeyCode::Space);
    app.update();
    app.update();
    assert_eq!(app.count_n_texts(), 1);
    assert_eq!(app.get_text(), "Game. Press escape to quit");
}

#[test]
fn test_default_state_is_menu() {
    assert_eq!(AppState::default(), AppState::Menu);
}

#[test]
fn test_first_update_logs_initial_transition() {
    let mut app = create_app();
    app.update();
    let events = app.transition_events();
    assert_eq!(events.len(), 1);
    assert_eq!(
        events[0],
        StateTransitionEvent { exited: None, entered: Some(AppState::Menu) }
    );
    assert_eq!(
        log_transitions(events),
        Some(String::from("AppState transition: none => Menu"))
    );
}

#[test]
fn test_transition_is_logged() {
    let mut app = create_app();
    app.update();
    app.send_key_press(KeyCode::Space);
    app.update();
    assert_eq!(log_transitions(app.transition_events()), None);
    app.update();
    assert_eq!(
        log_transitions(app.transition_events()),
        Some(String::from("AppState transition: Menu => InGame"))
    );
    app.update();
    assert_eq!(log_transitions(app.transition_events()), None);
}

#[test]
fn test_transition_message() {
    let event = StateTransitionEvent {
        exited: Some(AppState::InGame),
        entered: Some(AppState::Menu),
    };
    assert_eq!(
        transition_message(&event),
        "AppState transition: InGame => Menu"
    );
}
