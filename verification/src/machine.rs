//! Mode State Machine: the debugger's top-level input-handling states.
//!
//! Two modes exist. In view mode, `r` requests a register dump, `f` a flag
//! decode, Enter opens command mode with a fresh empty buffer, and Esc or
//! Ctrl-C terminates. In command mode, printable characters are appended
//! to the buffer, Backspace removes the last character (a no-op on an
//! empty buffer), Esc returns to view mode, Enter submits the buffer, and
//! Ctrl-C terminates. Every other event is ignored.

use vstd::prelude::*;

verus! {

/// A decoded keyboard key, as the state machine understands it.
#[derive(Clone, Copy, PartialEq, Eq, Structural, Debug)]
pub enum Key {
    Char(char),
    Enter,
    Backspace,
    Esc,
    Other,
}

/// One key-press event: the key and whether Control was held.
#[derive(Clone, Copy, PartialEq, Eq, Structural, Debug)]
pub struct KeyEvent {
    pub code: Key,
    pub ctrl: bool,
}

/// The debugger's input mode: plain viewing, or editing a command buffer.
#[derive(Debug)]
pub enum Mode {
    View,
    Command(Vec<char>),
}

/// What the caller must do after a step: nothing beyond the standard
/// re-render, render a report, terminate, or dispatch a submitted buffer.
#[derive(Debug)]
pub enum Action {
    Idle,
    ShowRegisters,
    ShowFlags,
    Exit,
    Submit(Vec<char>),
}

/// Whether an event is the Ctrl-C termination chord.
pub open spec fn is_ctrl_c(k: KeyEvent) -> bool {
    k.ctrl && k.code == Key::Char('c')
}

/// The full transition table: relates a mode and a key event to the next
/// mode and the required action.
pub open spec fn step_spec(m: Mode, k: KeyEvent, m2: Mode, a: Action) -> bool {
    match m {
        Mode::View => {
            if is_ctrl_c(k) || k.code == Key::Esc {
                &&& m2 is View
                &&& a is Exit
            } else if k.code == Key::Char('r') {
                &&& m2 is View
                &&& a is ShowRegisters
            } else if k.code == Key::Char('f') {
                &&& m2 is View
                &&& a is ShowFlags
            } else if k.code == Key::Enter {
                &&& m2 matches Mode::Command(b) && b@ == Seq::<char>::empty()
                &&& a is Idle
            } else {
                &&& m2 is View
                &&& a is Idle
            }
        },
        Mode::Command(b) => {
            if is_ctrl_c(k) {
                &&& m2 matches Mode::Command(b2) && b2@ == b@
                &&& a is Exit
            } else if k.code == Key::Esc {
                &&& m2 is View
                &&& a is Idle
            } else if k.code == Key::Backspace {
                &&& m2 matches Mode::Command(b2) && b2@ == (if b@.len() == 0 {
                    b@
                } else {
                    b@.drop_last()
                })
                &&& a is Idle
            } else if k.code == Key::Enter {
                &&& m2 is View
                &&& a matches Action::Submit(s) && s@ == b@
            } else {
                match k.code {
                    Key::Char(c) => {
                        &&& m2 matches Mode::Command(b2) && b2@ == b@.push(c)
                        &&& a is Idle
                    },
                    _ => {
                        &&& m2 matches Mode::Command(b2) && b2@ == b@
                        &&& a is Idle
                    },
                }
            }
        },
    }
}

/// Advances the state machine by one key event.
pub fn step(mode: Mode, key: KeyEvent) -> (r: (Mode, Action))
    ensures
        step_spec(mode, key, r.0, r.1),
{
    match mode {
        Mode::View => {
            match key.code {
                Key::Char(c) => {
                    if c == 'c' && key.ctrl {
                        (Mode::View, Action::Exit)
                    } else if c == 'r' {
                        (Mode::View, Action::ShowRegisters)
                    } else if c == 'f' {
                        (Mode::View, Action::ShowFlags)
                    } else {
                        (Mode::View, Action::Idle)
                    }
                },
                Key::Esc => (Mode::View, Action::Exit),
                Key::Enter => (Mode::Command(Vec::new()), Action::Idle),
                _ => (Mode::View, Action::Idle),
            }
        },
        Mode::Command(mut b) => {
            match key.code {
                Key::Char(c) => {
                    if c == 'c' && key.ctrl {
                        (Mode::Command(b), Action::Exit)
                    } else {
                        b.push(c);
                        (Mode::Command(b), Action::Idle)
                    }
                },
                Key::Esc => (Mode::View, Action::Idle),
                Key::Backspace => {
                    if b.len() > 0 {
                        b.pop();
                    }
                    (Mode::Command(b), Action::Idle)
                },
                Key::Enter => (Mode::View, Action::Submit(b)),
                Key::Other => (Mode::Command(b), Action::Idle),
            }
        },
    }
}

/// Law: from view mode, Enter always yields command mode with an empty
/// buffer, whatever any earlier command-mode session left behind.
pub proof fn lemma_enter_opens_empty_buffer(m: Mode, k: KeyEvent, m2: Mode, a: Action)
    requires
        m is View,
        k.code == Key::Enter,
        step_spec(m, k, m2, a),
    ensures
        m2 matches Mode::Command(b) && b@ == Seq::<char>::empty(),
{
}

/// Law: Backspace on an empty command buffer leaves it empty; the step is
/// defined and demands nothing beyond the standard re-render.
pub proof fn lemma_backspace_empty_buffer(m: Mode, k: KeyEvent, m2: Mode, a: Action)
    requires
        m matches Mode::Command(b) && b@.len() == 0,
        k.code == Key::Backspace,
        step_spec(m, k, m2, a),
    ensures
        m2 matches Mode::Command(b2) && b2@ == Seq::<char>::empty(),
        a is Idle,
{
}

/// Law: Ctrl-C demands termination from both modes.
pub proof fn lemma_ctrl_c_terminates(m: Mode, k: KeyEvent, m2: Mode, a: Action)
    requires
        is_ctrl_c(k),
        step_spec(m, k, m2, a),
    ensures
        a is Exit,
{
}

} // verus!
