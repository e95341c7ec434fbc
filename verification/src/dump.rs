//! Register/Flag Formatter, register half: the fixed four-line register
//! dump.
//!
//! Byte registers render as two-digit upper-case hex, word registers as
//! four-digit upper-case hex over the big-endian byte pairs, the flags
//! byte as an eight-digit binary string, and PC/SP/FP as four-digit hex.

use vstd::prelude::*;

use crate::diff::be_word;
use crate::text::bin8_str;
use crate::text::hex2_str;
use crate::text::hex4_str;
use crate::text::push_bin8;
use crate::text::push_hex2;
use crate::text::push_hex4;
use crate::text::string_push;

verus! {

/// First dump line: the high and low bytes of `A` and `B`.
pub open spec fn dump_line1(regs: Seq<u8>) -> Seq<char> {
    seq!['A', 'H', ' '] + hex2_str(regs[0] as nat) + seq![' ', 'A', 'L', ' '] + hex2_str(
        regs[1] as nat,
    ) + seq![' ', 'B', 'H', ' '] + hex2_str(regs[2] as nat) + seq![' ', 'B', 'L', ' '] + hex2_str(
        regs[3] as nat,
    ) + seq!['\r', '\n']
}

/// Second dump line: the high and low bytes of `C` and `D`.
pub open spec fn dump_line2(regs: Seq<u8>) -> Seq<char> {
    seq!['C', 'H', ' '] + hex2_str(regs[4] as nat) + seq![' ', 'C', 'L', ' '] + hex2_str(
        regs[5] as nat,
    ) + seq![' ', 'D', 'H', ' '] + hex2_str(regs[6] as nat) + seq![' ', 'D', 'L', ' '] + hex2_str(
        regs[7] as nat,
    ) + seq!['\r', '\n']
}

/// Third dump line: the four big-endian word registers.
pub open spec fn dump_line3(regs: Seq<u8>) -> Seq<char> {
    seq!['A', 'X', ' '] + hex4_str(be_word(regs[0], regs[1])) + seq![' ', 'B', 'X', ' ']
        + hex4_str(be_word(regs[2], regs[3])) + seq![' ', 'C', 'X', ' '] + hex4_str(
        be_word(regs[4], regs[5]),
    ) + seq![' ', 'D', 'X', ' '] + hex4_str(be_word(regs[6], regs[7])) + seq!['\r', '\n']
}

/// Fourth dump line: the flags byte in binary, then PC, SP and FP in hex,
/// ending with a blank line.
pub open spec fn dump_line4(regs: Seq<u8>, pc: u16, sp: u16, fp: u16) -> Seq<char> {
    seq!['F', 'L', 'G', ' '] + bin8_str(regs[8] as nat) + seq![' ', 'P', 'C', ' '] + hex4_str(
        pc as nat,
    ) + seq![' ', 'S', 'P', ' '] + hex4_str(sp as nat) + seq![' ', 'F', 'P', ' '] + hex4_str(
        fp as nat,
    ) + seq!['\r', '\n', '\n']
}

/// The whole four-line register dump.
pub open spec fn dump_str(regs: Seq<u8>, pc: u16, sp: u16, fp: u16) -> Seq<char> {
    dump_line1(regs) + dump_line2(regs) + dump_line3(regs) + dump_line4(regs, pc, sp, fp)
}

fn push_dump_line1(out: &mut String, regs: &[u8; 9])
    ensures
        final(out)@ == old(out)@ + dump_line1(regs@),
{
    string_push(out, 'A');
    string_push(out, 'H');
    string_push(out, ' ');
    push_hex2(out, regs[0]);
    string_push(out, ' ');
    string_push(out, 'A');
    string_push(out, 'L');
    string_push(out, ' ');
    push_hex2(out, regs[1]);
    string_push(out, ' ');
    string_push(out, 'B');
    string_push(out, 'H');
    string_push(out, ' ');
    push_hex2(out, regs[2]);
    string_push(out, ' ');
    string_push(out, 'B');
    string_push(out, 'L');
    string_push(out, ' ');
    push_hex2(out, regs[3]);
    string_push(out, '\r');
    string_push(out, '\n');
    proof {
        assert(out@ =~= old(out)@ + dump_line1(regs@));
    }
}

fn push_dump_line2(out: &mut String, regs: &[u8; 9])
    ensures
        final(out)@ == old(out)@ + dump_line2(regs@),
{
    string_push(out, 'C');
    string_push(out, 'H');
    string_push(out, ' ');
    push_hex2(out, regs[4]);
    string_push(out, ' ');
    string_push(out, 'C');
    string_push(out, 'L');
    string_push(out, ' ');
    push_hex2(out, regs[5]);
    string_push(out, ' ');
    string_push(out, 'D');
    string_push(out, 'H');
    string_push(out, ' ');
    push_hex2(out, regs[6]);
    string_push(out, ' ');
    string_push(out, 'D');
    string_push(out, 'L');
    string_push(out, ' ');
    push_hex2(out, regs[7]);
    string_push(out, '\r');
    string_push(out, '\n');
    proof {
        assert(out@ =~= old(out)@ + dump_line2(regs@));
    }
}

fn push_dump_line3(out: &mut String, regs: &[u8; 9])
    ensures
        final(out)@ == old(out)@ + dump_line3(regs@),
{
    let ax = (regs[0] as u16) * 256 + (regs[1] as u16);
    let bx = (regs[2] as u16) * 256 + (regs[3] as u16);
    let cx = (regs[4] as u16) * 256 + (regs[5] as u16);
    let dx = (regs[6] as u16) * 256 + (regs[7] as u16);
    string_push(out, 'A');
    string_push(out, 'X');
    string_push(out, ' ');
    push_hex4(out, ax);
    string_push(out, ' ');
    string_push(out, 'B');
    string_push(out, 'X');
    string_push(out, ' ');
    push_hex4(out, bx);
    string_push(out, ' ');
    string_push(out, 'C');
    string_push(out, 'X');
    string_push(out, ' ');
    push_hex4(out, cx);
    string_push(out, ' ');
    string_push(out, 'D');
    string_push(out, 'X');
    string_push(out, ' ');
    push_hex4(out, dx);
    string_push(out, '\r');
    string_push(out, '\n');
    proof {
        assert(ax as nat == be_word(regs@[0], regs@[1]));
        assert(bx as nat == be_word(regs@[2], regs@[3]));
        assert(cx as nat == be_word(regs@[4], regs@[5]));
        assert(dx as nat == be_word(regs@[6], regs@[7]));
        assert(out@ =~= old(out)@ + dump_line3(regs@));
    }
}

fn push_dump_line4(out: &mut String, regs: &[u8; 9], pc: u16, sp: u16, fp: u16)
    ensures
        final(out)@ == old(out)@ + dump_line4(regs@, pc, sp, fp),
{
    string_push(out, 'F');
    string_push(out, 'L');
    string_push(out, 'G');
    string_push(out, ' ');
    push_bin8(out, regs[8]);
    string_push(out, ' ');
    string_push(out, 'P');
    string_push(out, 'C');
    string_push(out, ' ');
    push_hex4(out, pc);
    string_push(out, ' ');
    string_push(out, 'S');
    string_push(out, 'P');
    string_push(out, ' ');
    push_hex4(out, sp);
    string_push(out, ' ');
    string_push(out, 'F');
    string_push(out, 'P');
    string_push(out, ' ');
    push_hex4(out, fp);
    string_push(out, '\r');
    string_push(out, '\n');
    string_push(out, '\n');
    proof {
        assert(out@ =~= old(out)@ + dump_line4(regs@, pc, sp, fp));
    }
}

/// Renders the fixed four-line register dump of a snapshot and the three
/// pointer registers.
pub fn format_registers(regs: &[u8; 9], pc: u16, sp: u16, fp: u16) -> (r: String)
    ensures
        r@ == dump_str(regs@, pc, sp, fp),
{
    let mut out = String::new();
    push_dump_line1(&mut out, regs);
    push_dump_line2(&mut out, regs);
    push_dump_line3(&mut out, regs);
    push_dump_line4(&mut out, regs, pc, sp, fp);
    proof {
        assert(out@ =~= dump_str(regs@, pc, sp, fp));
    }
    out
}

} // verus!
