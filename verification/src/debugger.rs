//! Top-level controller: owns the VM and the current mode, routes key
//! events through the Mode State Machine, and produces the text the
//! render loop must draw.

use vstd::prelude::*;

use crate::dispatch::prepare_command;
use crate::dispatch::submission_spec;
use crate::dispatch::Submission;
use crate::dump::dump_str;
use crate::dump::format_registers;
use crate::flags::decode_flags;
use crate::flags::decode_flags_str;
use crate::machine::step;
use crate::machine::step_spec;
use crate::machine::Action;
use crate::machine::KeyEvent;
use crate::machine::Mode;
use crate::text::string_push;
use crate::vm::vm_pc;
use crate::vm::vm_registers;

verus! {

/// What one handled key event asks the render loop to do: nothing beyond
/// the standard re-render, print a register dump, print a flag line,
/// carry out a submitted command, or terminate. For `Submitted`, the
/// loop prints what the dispatcher rendered and, on an `Execute` order,
/// performs the VM's execute step between two register snapshots.
pub enum Output {
    Quiet,
    RegisterDump(String),
    FlagLine(String),
    Submitted(Submission),
    Terminated,
}

/// The output owed for each action of the state machine. Dump and flag
/// texts render the VM's current (opaque) state, so only their shape is
/// pinned here; their exact rendering is the contract of
/// `format_registers` and `decode_flags`.
pub open spec fn output_spec(a: Action, out: Output) -> bool {
    match a {
        Action::Idle => out is Quiet,
        Action::ShowRegisters => out matches Output::RegisterDump(s) && (exists|
            regs: Seq<u8>,
            pc: u16,
            sp: u16,
            fp: u16,
        | s@ == dump_str(regs, pc, sp, fp)),
        Action::ShowFlags => out matches Output::FlagLine(s) && (exists|byte: u8| s@
            == decode_flags_str(byte)),
        Action::Exit => out is Terminated,
        Action::Submit(raw) => out matches Output::Submitted(sub) && submission_spec(raw@, sub),
    }
}

/// The view-mode hint line.
pub open spec fn view_hint_str() -> Seq<char> {
    "(r) print registers  (f) flags   (return) enter command"@
}

/// The command-mode prompt line: `"> "`, the buffer, and a carriage
/// return so the next redraw overwrites it in place.
pub open spec fn prompt_str(buffer: Seq<char>) -> Seq<char> {
    seq!['>', ' '] + buffer + seq!['\r']
}

/// The interactive debugger: a VM handle, owned for the process's
/// lifetime, and the current input mode. The VM is public so the
/// embedding loop can perform the execute step that the library's
/// contracts cannot cover (see `crate::vm`).
pub struct Debugger {
    pub vm: maikor_vm_core::VM,
    mode: Mode,
}

impl Debugger {
    /// The current mode, for specifications.
    pub closed spec fn spec_mode(&self) -> Mode {
        self.mode
    }

    /// Creates the debugger over a test-configuration VM (no audio
    /// subsystem), starting in view mode.
    pub fn new() -> (d: Debugger)
        ensures
            d.spec_mode() is View,
    {
        Debugger { vm: maikor_vm_core::VM::new_test(), mode: Mode::View }
    }

    /// A copy of the VM's nine register bytes.
    pub fn registers(&self) -> [u8; 9] {
        vm_registers(&self.vm)
    }

    /// The VM's program counter.
    pub fn program_counter(&self) -> u16 {
        vm_pc(&self.vm)
    }

    /// The VM's stack pointer.
    pub fn stack_pointer(&self) -> u16 {
        self.vm.get_sp()
    }

    /// The VM's frame pointer.
    pub fn frame_pointer(&self) -> u16 {
        self.vm.get_fp()
    }

    /// The current input mode.
    pub fn mode(&self) -> (m: &Mode)
        ensures
            m == self.spec_mode(),
    {
        &self.mode
    }

    /// The line re-rendered before each wait for input: the hint line in
    /// view mode, the in-place editable prompt in command mode.
    pub fn prompt_line(&self) -> (r: String)
        ensures
            self.spec_mode() is View ==> r@ == view_hint_str(),
            (self.spec_mode() matches Mode::Command(b) ==> r@ == prompt_str(b@)),
    {
        match &self.mode {
            Mode::View => "(r) print registers  (f) flags   (return) enter command".to_owned(),
            Mode::Command(b) => {
                let mut out = String::new();
                string_push(&mut out, '>');
                string_push(&mut out, ' ');
                let mut i: usize = 0;
                while i < b.len()
                    invariant
                        i <= b@.len(),
                        out@ == seq!['>', ' '] + b@.subrange(0, i as int),
                    decreases b.len() - i,
                {
                    string_push(&mut out, b[i]);
                    i += 1;
                    proof {
                        assert(b@.subrange(0, i as int) =~= b@.subrange(0, i - 1).push(b@[i - 1]));
                        assert(out@ =~= seq!['>', ' '] + b@.subrange(0, i as int));
                    }
                }
                string_push(&mut out, '\r');
                proof {
                    assert(b@.subrange(0, b@.len() as int) =~= b@);
                    assert(out@ =~= prompt_str(b@));
                }
                out
            },
        }
    }

    /// Routes one key event: steps the Mode State Machine and renders
    /// what the action demands — a register dump or flag line from the
    /// VM's current state, or a prepared submission; the execute step of
    /// an `Execute` order is the embedding loop's to perform.
    pub fn handle_key(&mut self, key: KeyEvent) -> (out: Output)
        ensures
            exists|a: Action|
                #[trigger] step_spec(old(self).spec_mode(), key, final(self).spec_mode(), a) && output_spec(
                    a,
                    out,
                ),
    {
        let mut taken = Mode::View;
        core::mem::swap(&mut taken, &mut self.mode);
        let (next, action) = step(taken, key);
        self.mode = next;
        let ghost ga = action;
        let out = match action {
            Action::Idle => Output::Quiet,
            Action::ShowRegisters => {
                let regs = vm_registers(&self.vm);
                let pc = vm_pc(&self.vm);
                let sp = self.vm.get_sp();
                let fp = self.vm.get_fp();
                let text = format_registers(&regs, pc, sp, fp);
                proof {
                    assert(text@ == dump_str(regs@, pc, sp, fp));
                }
                Output::RegisterDump(text)
            },
            Action::ShowFlags => {
                let regs = vm_registers(&self.vm);
                let text = decode_flags(regs[8]);
                proof {
                    assert(text@ == decode_flags_str(regs@[8]));
                }
                Output::FlagLine(text)
            },
            Action::Exit => Output::Terminated,
            Action::Submit(raw) => {
                let sub = prepare_command(&raw);
                Output::Submitted(sub)
            },
        };
        proof {
            assert(step_spec(old(self).mode, key, self.mode, ga));
            assert(output_spec(ga, out));
        }
        out
    }
}

} // verus!
