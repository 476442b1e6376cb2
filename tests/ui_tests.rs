use grok_chat::ui::{next_model, InputMode, InputState, Key, UiAction, INSERT_HINT, NORMAL_HINT};

#[test]
fn test_input_mode() {
    assert_eq!(InputMode::Normal, InputMode::Normal);
    assert_ne!(InputMode::Normal, InputMode::Insert);
}

#[test]
fn typing_and_sending() {
    let mut s = InputState::new("Ready".to_string());
    for c in "hi!".chars() {
        assert!(matches!(s.on_key(Key::Char(c)), UiAction::Nothing));
    }
    s.on_key(Key::Backspace);
    match s.on_key(Key::Enter) {
        UiAction::Send(text) => assert_eq!(text, "hi"),
        other => panic!("unexpected {:?}", other),
    }
    assert!(s.buffer.is_empty());
    s.on_key(Key::Char(' '));
    s.on_key(Key::Char('\u{3000}'));
    assert!(matches!(s.on_key(Key::Enter), UiAction::Nothing));
    assert_eq!(s.buffer.len(), 2);
}

#[test]
fn normal_mode_commands() {
    let mut s = InputState::new("Ready".to_string());
    s.on_key(Key::Esc);
    assert_eq!(s.mode, InputMode::Normal);
    assert_eq!(s.status, NORMAL_HINT);
    assert!(matches!(s.on_key(Key::Char('c')), UiAction::NewSession));
    assert!(matches!(s.on_key(Key::Char('m')), UiAction::CycleModel));
    assert!(matches!(s.on_key(Key::Char('l')), UiAction::LoadSessions));
    s.on_key(Key::Char('h'));
    assert!(s.show_help);
    assert!(matches!(s.on_key(Key::Char('x')), UiAction::Nothing));
    assert!(matches!(s.on_key(Key::Char('q')), UiAction::Quit));
    s.on_key(Key::Char('i'));
    assert_eq!(s.mode, InputMode::Insert);
    assert_eq!(s.status, INSERT_HINT);
}

#[test]
fn model_cycle_wraps_round() {
    let models = vec!["a".to_string(), "b".to_string(), "c".to_string()];
    assert_eq!(next_model(&models, "a"), "b");
    assert_eq!(next_model(&models, "c"), "a");
    assert_eq!(next_model(&models, "zzz"), "b");
    assert_eq!(next_model(&vec!["only".to_string()], "only"), "only");
}
