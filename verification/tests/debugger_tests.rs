use maikor_debugger::debugger::{Debugger, Output};
use maikor_debugger::diff::calc_diff;
use maikor_debugger::dispatch::{prepare_command, render_result_line, Submission};
use maikor_debugger::dump::format_registers;
use maikor_debugger::machine::{Key, KeyEvent, Mode};

fn plain(code: Key) -> KeyEvent {
    KeyEvent { code, ctrl: false }
}

fn type_text(dbg: &mut Debugger, text: &str) {
    for c in text.chars() {
        let out = dbg.handle_key(plain(Key::Char(c)));
        assert!(matches!(out, Output::Quiet));
    }
}

/// Carries out an execution order the way the render loop does: snapshot,
/// execute, snapshot, render the diff line.
fn execute_order(dbg: &mut Debugger, encoded: &[u8]) -> ([u8; 9], [u8; 9], String) {
    let before = dbg.registers();
    if !encoded.is_empty() {
        dbg.vm.execute_op(encoded);
    }
    let after = dbg.registers();
    let line = render_result_line(&before, &after);
    (before, after, line)
}

#[test]
fn nop_executes_with_known_encoding_and_empty_diff() {
    let mut dbg = Debugger::new();
    let out = dbg.handle_key(plain(Key::Enter));
    assert!(matches!(out, Output::Quiet));
    type_text(&mut dbg, "nop");
    let out = dbg.handle_key(plain(Key::Enter));
    match out {
        Output::Submitted(Submission::Execute {
            input,
            encoded,
            echo,
        }) => {
            assert_eq!(input, "nop");
            assert_eq!(encoded, vec![0u8]);
            assert_eq!(echo, "Executing 'nop' [0]\r\n");
            let (before, after, line) = execute_order(&mut dbg, &encoded);
            assert_eq!(before, after);
            assert_eq!(line, "()\r\n\n");
        }
        _ => panic!("expected an execution order"),
    }
}

#[test]
fn malformed_input_is_rejected_and_leaves_the_vm_unchanged() {
    let mut dbg = Debugger::new();
    let registers_before = dbg.registers();
    dbg.handle_key(plain(Key::Enter));
    type_text(&mut dbg, "frobnicate");
    let out = dbg.handle_key(plain(Key::Enter));
    match out {
        Output::Submitted(Submission::Reject {
            original,
            message,
            rendered,
        }) => {
            assert_eq!(original, "frobnicate");
            assert!(!message.is_empty());
            assert_eq!(rendered, format!("Error: frobnicate\r\n{}\r\n", message));
        }
        _ => panic!("expected a rejection"),
    }
    assert_eq!(dbg.registers(), registers_before);
}

#[test]
fn dispatch_trims_whitespace_before_parsing() {
    let buffer: Vec<char> = "   nop  ".chars().collect();
    match prepare_command(&buffer) {
        Submission::Execute { input, echo, .. } => {
            assert_eq!(input, "nop");
            assert_eq!(echo, "Executing 'nop' [0]\r\n");
        }
        Submission::Reject { .. } => panic!("expected an execution order"),
    }
}

#[test]
fn dispatch_trims_unusual_whitespace_too() {
    let buffer: Vec<char> = "\u{3000}\t nop \r\n\u{a0}".chars().collect();
    match prepare_command(&buffer) {
        Submission::Execute { input, .. } => assert_eq!(input, "nop"),
        Submission::Reject { .. } => panic!("expected an execution order"),
    }
}

#[test]
fn rejected_command_renders_the_untrimmed_buffer() {
    let buffer: Vec<char> = "  frobnicate ".chars().collect();
    match prepare_command(&buffer) {
        Submission::Reject {
            original,
            message,
            rendered,
        } => {
            assert_eq!(original, "  frobnicate ");
            assert!(!message.is_empty());
            assert_eq!(rendered, format!("Error:   frobnicate \r\n{}\r\n", message));
        }
        Submission::Execute { .. } => panic!("expected a rejection"),
    }
}

#[test]
fn empty_buffer_is_rejected() {
    let buffer: Vec<char> = Vec::new();
    match prepare_command(&buffer) {
        Submission::Reject {
            original, message, ..
        } => {
            assert_eq!(original, "");
            assert!(!message.is_empty());
        }
        Submission::Execute { .. } => panic!("expected a rejection"),
    }
}

#[test]
fn executed_order_diff_matches_its_snapshots() {
    let mut dbg = Debugger::new();
    let buffer: Vec<char> = "inc.b ah".chars().collect();
    match prepare_command(&buffer) {
        Submission::Execute { encoded, .. } => {
            let (before, after, line) = execute_order(&mut dbg, &encoded);
            let expected = format!("({})\r\n\n", calc_diff(before, after));
            assert_eq!(line, expected);
            assert_eq!(after[0], before[0] + 1);
        }
        Submission::Reject { message, .. } => panic!("unexpected rejection: {}", message),
    }
}

#[test]
fn prompt_line_shows_hint_then_editable_buffer() {
    let mut dbg = Debugger::new();
    assert_eq!(
        dbg.prompt_line(),
        "(r) print registers  (f) flags   (return) enter command"
    );
    dbg.handle_key(plain(Key::Enter));
    assert_eq!(dbg.prompt_line(), "> \r");
    type_text(&mut dbg, "ab");
    assert_eq!(dbg.prompt_line(), "> ab\r");
    assert!(matches!(dbg.mode(), Mode::Command(_)));
}

#[test]
fn register_dump_output_matches_the_formatter() {
    let mut dbg = Debugger::new();
    let expected = format_registers(
        &dbg.registers(),
        dbg.program_counter(),
        dbg.stack_pointer(),
        dbg.frame_pointer(),
    );
    match dbg.handle_key(plain(Key::Char('r'))) {
        Output::RegisterDump(text) => assert_eq!(text, expected),
        _ => panic!("expected a register dump"),
    }
}

#[test]
fn flag_output_decodes_the_default_flags() {
    let mut dbg = Debugger::new();
    // A fresh VM starts with the ZERO and INTERRUPTS flags set.
    match dbg.handle_key(plain(Key::Char('f'))) {
        Output::FlagLine(text) => assert_eq!(text, "ZERO, INTERRUPTS"),
        _ => panic!("expected a flag line"),
    }
}

#[test]
fn terminate_output_comes_from_both_modes() {
    let mut dbg = Debugger::new();
    let out = dbg.handle_key(KeyEvent { code: Key::Char('c'), ctrl: true });
    assert!(matches!(out, Output::Terminated));
    let mut dbg = Debugger::new();
    dbg.handle_key(plain(Key::Enter));
    let out = dbg.handle_key(KeyEvent { code: Key::Char('c'), ctrl: true });
    assert!(matches!(out, Output::Terminated));
}
