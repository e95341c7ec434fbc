//! Register/Flag Formatter, flag half: decodes the flags byte against the
//! platform's flag bit table.
//!
//! The table is ordered `CARRY, OVERFLOW, LESS_THAN, GREATER_THAN, ZERO,
//! SIGNED, INTERRUPTS`; a flag is set when `byte & mask == mask`. Set flag
//! names are joined by `", "`; when none is set the decode is the literal
//! placeholder `"-"`.

use vstd::prelude::*;

use crate::text::string_push;

verus! {

/// The name of the flag at position `i` of the table.
pub open spec fn flag_name(i: int) -> Seq<char> {
    if i == 0 {
        seq!['C', 'A', 'R', 'R', 'Y']
    } else if i == 1 {
        seq!['O', 'V', 'E', 'R', 'F', 'L', 'O', 'W']
    } else if i == 2 {
        seq!['L', 'E', 'S', 'S', '_', 'T', 'H', 'A', 'N']
    } else if i == 3 {
        seq!['G', 'R', 'E', 'A', 'T', 'E', 'R', '_', 'T', 'H', 'A', 'N']
    } else if i == 4 {
        seq!['Z', 'E', 'R', 'O']
    } else if i == 5 {
        seq!['S', 'I', 'G', 'N', 'E', 'D']
    } else {
        seq!['I', 'N', 'T', 'E', 'R', 'R', 'U', 'P', 'T', 'S']
    }
}

/// The flag bit masks, in table order.
pub open spec fn flag_masks() -> Seq<u8> {
    seq![0x80, 0x10, 0x08, 0x04, 0x40, 0x20, 0x01]
}

/// Whether `byte` has every bit of `mask` set.
pub open spec fn flag_set(byte: u8, mask: u8) -> bool {
    byte & mask == mask
}

/// The names of the set flags among the first `n` table entries, joined by
/// `", "`.
pub open spec fn flags_upto(byte: u8, masks: Seq<u8>, n: int) -> Seq<char>
    decreases n,
{
    if n <= 0 {
        Seq::empty()
    } else {
        let prev = flags_upto(byte, masks, n - 1);
        if flag_set(byte, masks[n - 1]) {
            if prev.len() == 0 {
                flag_name(n - 1)
            } else {
                prev + seq![',', ' '] + flag_name(n - 1)
            }
        } else {
            prev
        }
    }
}

/// The full decode of a flags byte: the joined set flag names, or `"-"`
/// when none is set.
pub open spec fn decode_flags_str(byte: u8) -> Seq<char> {
    let joined = flags_upto(byte, flag_masks(), 7);
    if joined.len() == 0 {
        seq!['-']
    } else {
        joined
    }
}

/// Relies on `maikor_platform::registers::flags`: the seven flag bit
/// masks, read in the debugger's table order.
#[verifier::external_body]
fn platform_flag_masks() -> (r: [u8; 7])
    ensures
        r@ == flag_masks(),
{
    [
        maikor_platform::registers::flags::CARRY,
        maikor_platform::registers::flags::OVERFLOW,
        maikor_platform::registers::flags::LESS_THAN,
        maikor_platform::registers::flags::GREATER_THAN,
        maikor_platform::registers::flags::ZERO,
        maikor_platform::registers::flags::SIGNED,
        maikor_platform::registers::flags::INTERRUPTS,
    ]
}

fn push_flag_name(out: &mut String, i: usize)
    requires
        i < 7,
    ensures
        final(out)@ == old(out)@ + flag_name(i as int),
{
    let ghost start = out@;
    match i {
        0 => {
            string_push(out, 'C');
            string_push(out, 'A');
            string_push(out, 'R');
            string_push(out, 'R');
            string_push(out, 'Y');
        },
        1 => {
            string_push(out, 'O');
            string_push(out, 'V');
            string_push(out, 'E');
            string_push(out, 'R');
            string_push(out, 'F');
            string_push(out, 'L');
            string_push(out, 'O');
            string_push(out, 'W');
        },
        2 => {
            string_push(out, 'L');
            string_push(out, 'E');
            string_push(out, 'S');
            string_push(out, 'S');
            string_push(out, '_');
            string_push(out, 'T');
            string_push(out, 'H');
            string_push(out, 'A');
            string_push(out, 'N');
        },
        3 => {
            string_push(out, 'G');
            string_push(out, 'R');
            string_push(out, 'E');
            string_push(out, 'A');
            string_push(out, 'T');
            string_push(out, 'E');
            string_push(out, 'R');
            string_push(out, '_');
            string_push(out, 'T');
            string_push(out, 'H');
            string_push(out, 'A');
            string_push(out, 'N');
        },
        4 => {
            string_push(out, 'Z');
            string_push(out, 'E');
            string_push(out, 'R');
            string_push(out, 'O');
        },
        5 => {
            string_push(out, 'S');
            string_push(out, 'I');
            string_push(out, 'G');
            string_push(out, 'N');
            string_push(out, 'E');
            string_push(out, 'D');
        },
        _ => {
            string_push(out, 'I');
            string_push(out, 'N');
            string_push(out, 'T');
            string_push(out, 'E');
            string_push(out, 'R');
            string_push(out, 'R');
            string_push(out, 'U');
            string_push(out, 'P');
            string_push(out, 'T');
            string_push(out, 'S');
        },
    }
    proof {
        assert(out@ =~= start + flag_name(i as int));
    }
}

/// Decodes a flags byte: the names of the set flags in table order, joined
/// by `", "`, or the placeholder `"-"` when no flag is set.
pub fn decode_flags(byte: u8) -> (r: String)
    ensures
        r@ == decode_flags_str(byte),
{
    let masks = platform_flag_masks();
    let mut out = String::new();
    let mut wrote = false;
    let mut i: usize = 0;
    while i < 7
        invariant
            i <= 7,
            masks@ == flag_masks(),
            out@ == flags_upto(byte, flag_masks(), i as int),
            wrote == (out@.len() != 0),
        decreases 7 - i,
    {
        let m = masks[i];
        if byte & m == m {
            let ghost prev = out@;
            if wrote {
                string_push(&mut out, ',');
                string_push(&mut out, ' ');
            }
            push_flag_name(&mut out, i);
            wrote = true;
            proof {
                if prev.len() == 0 {
                    assert(out@ =~= flag_name(i as int));
                } else {
                    assert(out@ =~= prev + seq![',', ' '] + flag_name(i as int));
                }
                assert(flag_name(i as int).len() > 0);
            }
        }
        i += 1;
    }
    if wrote {
        out
    } else {
        let dash = "-".to_owned();
        proof {
            reveal_strlit("-");
            assert(dash@ =~= seq!['-']);
        }
        dash
    }
}

/// Law: a byte on which exactly the first and fifth table masks (`CARRY`
/// and `ZERO`) test as set decodes to `"CARRY, ZERO"`, whatever the
/// numeric values of the seven masks.
pub proof fn lemma_flags_carry_zero(byte: u8, masks: Seq<u8>)
    requires
        masks.len() == 7,
        flag_set(byte, masks[0]),
        !flag_set(byte, masks[1]),
        !flag_set(byte, masks[2]),
        !flag_set(byte, masks[3]),
        flag_set(byte, masks[4]),
        !flag_set(byte, masks[5]),
        !flag_set(byte, masks[6]),
    ensures
        flags_upto(byte, masks, 7) == flag_name(0) + seq![',', ' '] + flag_name(4),
{
    assert(flags_upto(byte, masks, 0) == Seq::<char>::empty());
    assert(flags_upto(byte, masks, 1) == flag_name(0));
    assert(flag_name(0).len() > 0);
    assert(flags_upto(byte, masks, 2) == flag_name(0));
    assert(flags_upto(byte, masks, 3) == flag_name(0));
    assert(flags_upto(byte, masks, 4) == flag_name(0));
    assert(flags_upto(byte, masks, 5) == flag_name(0) + seq![',', ' '] + flag_name(4));
    assert(flags_upto(byte, masks, 6) == flags_upto(byte, masks, 5));
    assert(flags_upto(byte, masks, 7) == flags_upto(byte, masks, 5));
}

/// Law: the decode of a byte that sets exactly the `CARRY` and `ZERO`
/// masks of the platform table is `"CARRY, ZERO"`.
pub proof fn lemma_decode_carry_zero(byte: u8)
    requires
        flag_set(byte, 0x80),
        !flag_set(byte, 0x10),
        !flag_set(byte, 0x08),
        !flag_set(byte, 0x04),
        flag_set(byte, 0x40),
        !flag_set(byte, 0x20),
        !flag_set(byte, 0x01),
    ensures
        decode_flags_str(byte) == seq![
            'C',
            'A',
            'R',
            'R',
            'Y',
            ',',
            ' ',
            'Z',
            'E',
            'R',
            'O',
        ],
{
    lemma_flags_carry_zero(byte, flag_masks());
    assert(decode_flags_str(byte) =~= seq!['C', 'A', 'R', 'R', 'Y', ',', ' ', 'Z', 'E', 'R', 'O']);
}

/// Law: the zero byte sets no flag, so it decodes to the placeholder `"-"`.
pub proof fn lemma_decode_zero_byte()
    ensures
        decode_flags_str(0) == seq!['-'],
{
    assert(forall|m: u8| 0u8 & m == 0) by (bit_vector);
    assert(flags_upto(0, flag_masks(), 0) == Seq::<char>::empty());
    assert(flags_upto(0, flag_masks(), 1) == Seq::<char>::empty());
    assert(flags_upto(0, flag_masks(), 2) == Seq::<char>::empty());
    assert(flags_upto(0, flag_masks(), 3) == Seq::<char>::empty());
    assert(flags_upto(0, flag_masks(), 4) == Seq::<char>::empty());
    assert(flags_upto(0, flag_masks(), 5) == Seq::<char>::empty());
    assert(flags_upto(0, flag_masks(), 6) == Seq::<char>::empty());
    assert(flags_upto(0, flag_masks(), 7) == Seq::<char>::empty());
}

} // verus!
