//! Trusted surface of the external Maikor virtual machine.
//!
//! The VM is an opaque collaborator: it owns registers, memory and
//! instruction semantics. The library only snapshots its registers and
//! reads its program counter, stack pointer and frame pointer. Its
//! mutating execute operation can reach arbitrary panics from states an
//! operator's commands can produce (a divide by zero, a stack pointer
//! moved past its region), so no contract here promises it returns: the
//! embedding loop performs the execute itself, between the two snapshot
//! reads the library hands it.

use vstd::prelude::*;

verus! {

/// Declares `maikor_vm_core::VM` to Verus as an opaque external type.
#[verifier::external_type_specification]
#[verifier::external_body]
pub struct ExVm(maikor_vm_core::VM);

/// Relies on `maikor_vm_core::VM::new_test`: builds a fresh VM with a
/// dummy audio backend, suited to interactive use without a sound device.
pub assume_specification[ maikor_vm_core::VM::new_test ]() -> maikor_vm_core::VM;

/// Relies on `maikor_vm_core::VM::get_sp`: reads the stack pointer.
pub assume_specification[ maikor_vm_core::VM::get_sp ](vm: &maikor_vm_core::VM) -> u16;

/// Relies on `maikor_vm_core::VM::get_fp`: reads the frame pointer.
pub assume_specification[ maikor_vm_core::VM::get_fp ](vm: &maikor_vm_core::VM) -> u16;

/// Relies on the public `registers` field of `maikor_vm_core::VM`: a copy
/// of the nine register bytes, ordered `AH,AL,BH,BL,CH,CL,DH,DL,FLG`.
#[verifier::external_body]
pub(crate) fn vm_registers(vm: &maikor_vm_core::VM) -> (r: [u8; 9]) {
    vm.registers
}

/// Relies on the public `pc` field of `maikor_vm_core::VM`: the program
/// counter.
#[verifier::external_body]
pub(crate) fn vm_pc(vm: &maikor_vm_core::VM) -> (r: u16) {
    vm.pc
}

} // verus!
