use maikor_debugger::machine::{step, Action, Key, KeyEvent, Mode};

fn plain(code: Key) -> KeyEvent {
    KeyEvent { code, ctrl: false }
}

fn ctrl(code: Key) -> KeyEvent {
    KeyEvent { code, ctrl: true }
}

#[test]
fn enter_from_view_opens_empty_command_buffer() {
    let (mode, action) = step(Mode::View, plain(Key::Enter));
    assert!(matches!(action, Action::Idle));
    match mode {
        Mode::Command(buffer) => assert!(buffer.is_empty()),
        Mode::View => panic!("expected command mode"),
    }
}

#[test]
fn enter_from_view_resets_a_stale_buffer() {
    // A prior command-mode session leaves text behind; Enter from view
    // mode must still open an empty buffer.
    let (mode, _) = step(Mode::View, plain(Key::Enter));
    let (mode, _) = step(mode, plain(Key::Char('n')));
    let (mode, _) = step(mode, plain(Key::Char('o')));
    let (mode, _) = step(mode, plain(Key::Esc));
    assert!(matches!(mode, Mode::View));
    let (mode, _) = step(mode, plain(Key::Enter));
    match mode {
        Mode::Command(buffer) => assert!(buffer.is_empty()),
        Mode::View => panic!("expected command mode"),
    }
}

#[test]
fn characters_append_to_the_buffer() {
    let (mode, _) = step(Mode::View, plain(Key::Enter));
    let (mode, _) = step(mode, plain(Key::Char('h')));
    let (mode, _) = step(mode, plain(Key::Char('i')));
    match mode {
        Mode::Command(buffer) => assert_eq!(buffer, vec!['h', 'i']),
        Mode::View => panic!("expected command mode"),
    }
}

#[test]
fn backspace_removes_the_last_character() {
    let (mode, _) = step(Mode::Command(vec!['h', 'i']), plain(Key::Backspace));
    match mode {
        Mode::Command(buffer) => assert_eq!(buffer, vec!['h']),
        Mode::View => panic!("expected command mode"),
    }
}

#[test]
fn backspace_on_empty_buffer_is_a_no_op() {
    let (mode, action) = step(Mode::Command(Vec::new()), plain(Key::Backspace));
    assert!(matches!(action, Action::Idle));
    match mode {
        Mode::Command(buffer) => assert!(buffer.is_empty()),
        Mode::View => panic!("expected command mode"),
    }
}

#[test]
fn ctrl_c_exits_from_view_mode() {
    let (_, action) = step(Mode::View, ctrl(Key::Char('c')));
    assert!(matches!(action, Action::Exit));
}

#[test]
fn ctrl_c_exits_from_command_mode() {
    let (_, action) = step(Mode::Command(vec!['x']), ctrl(Key::Char('c')));
    assert!(matches!(action, Action::Exit));
}

#[test]
fn esc_exits_from_view_mode() {
    let (_, action) = step(Mode::View, plain(Key::Esc));
    assert!(matches!(action, Action::Exit));
}

#[test]
fn esc_leaves_command_mode_without_submitting() {
    let (mode, action) = step(Mode::Command(vec!['n', 'o', 'p']), plain(Key::Esc));
    assert!(matches!(mode, Mode::View));
    assert!(matches!(action, Action::Idle));
}

#[test]
fn enter_submits_the_buffer() {
    let (mode, action) = step(Mode::Command(vec!['n', 'o', 'p']), plain(Key::Enter));
    assert!(matches!(mode, Mode::View));
    match action {
        Action::Submit(buffer) => assert_eq!(buffer, vec!['n', 'o', 'p']),
        _ => panic!("expected a submit action"),
    }
}

#[test]
fn register_and_flag_keys_request_renders() {
    let (_, action) = step(Mode::View, plain(Key::Char('r')));
    assert!(matches!(action, Action::ShowRegisters));
    let (_, action) = step(Mode::View, plain(Key::Char('f')));
    assert!(matches!(action, Action::ShowFlags));
}

#[test]
fn unmatched_events_are_ignored() {
    let (mode, action) = step(Mode::View, plain(Key::Char('x')));
    assert!(matches!(mode, Mode::View));
    assert!(matches!(action, Action::Idle));
    let (mode, action) = step(Mode::View, plain(Key::Other));
    assert!(matches!(mode, Mode::View));
    assert!(matches!(action, Action::Idle));
    let (mode, action) = step(Mode::Command(vec!['a']), plain(Key::Other));
    match mode {
        Mode::Command(buffer) => assert_eq!(buffer, vec!['a']),
        Mode::View => panic!("expected command mode"),
    }
    assert!(matches!(action, Action::Idle));
}

#[test]
fn ctrl_characters_other_than_c_still_append() {
    let (mode, _) = step(Mode::Command(Vec::new()), ctrl(Key::Char('a')));
    match mode {
        Mode::Command(buffer) => assert_eq!(buffer, vec!['a']),
        Mode::View => panic!("expected command mode"),
    }
    let (mode, _) = step(Mode::Command(Vec::new()), plain(Key::Char('c')));
    match mode {
        Mode::Command(buffer) => assert_eq!(buffer, vec!['c']),
        Mode::View => panic!("expected command mode"),
    }
}
