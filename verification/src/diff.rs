//! Diff Engine: compares two nine-byte register snapshots and renders the
//! changed register views.
//!
//! Thirteen named views are inspected in a fixed order: the eight byte
//! registers `AH,AL,BH,BL,CH,CL,DH,DL`, the four big-endian word registers
//! `AX,BX,CX,DX` over adjacent byte pairs, and the flags byte `FLG`. Each
//! view whose interpreted value differs between the two snapshots
//! contributes one entry `NAME = old -> new` (decimal); entries are joined
//! by `", "`. Byte and word views over the same bytes fire independently.

use vstd::prelude::*;

use crate::text::dec_str;
use crate::text::push_dec;
use crate::text::string_push;

verus! {

/// The big-endian 16-bit interpretation of a byte pair.
pub open spec fn be_word(h: u8, l: u8) -> nat {
    (h as nat) * 256 + (l as nat)
}

/// The name of the view at position `i` of the fixed view table.
pub open spec fn view_name(i: int) -> Seq<char> {
    if i == 0 {
        seq!['A', 'H']
    } else if i == 1 {
        seq!['A', 'L']
    } else if i == 2 {
        seq!['B', 'H']
    } else if i == 3 {
        seq!['B', 'L']
    } else if i == 4 {
        seq!['C', 'H']
    } else if i == 5 {
        seq!['C', 'L']
    } else if i == 6 {
        seq!['D', 'H']
    } else if i == 7 {
        seq!['D', 'L']
    } else if i == 8 {
        seq!['A', 'X']
    } else if i == 9 {
        seq!['B', 'X']
    } else if i == 10 {
        seq!['C', 'X']
    } else if i == 11 {
        seq!['D', 'X']
    } else {
        seq!['F', 'L', 'G']
    }
}

/// The value a snapshot shows under the view at position `i`: the byte
/// itself for byte views, the big-endian word for word views.
pub open spec fn view_value(s: Seq<u8>, i: int) -> nat {
    if 0 <= i < 8 {
        s[i] as nat
    } else if 8 <= i < 12 {
        be_word(s[2 * (i - 8)], s[2 * (i - 8) + 1])
    } else {
        s[8] as nat
    }
}

/// Whether the view at position `i` changed between the two snapshots.
pub open spec fn view_changed(before: Seq<u8>, after: Seq<u8>, i: int) -> bool {
    view_value(before, i) != view_value(after, i)
}

/// The rendered entry for the view at position `i`: `NAME = old -> new`.
pub open spec fn diff_entry(before: Seq<u8>, after: Seq<u8>, i: int) -> Seq<char> {
    view_name(i) + seq![' ', '=', ' '] + dec_str(view_value(before, i)) + seq![' ', '-', '>', ' ']
        + dec_str(view_value(after, i))
}

/// The rendered diff over the first `n` views of the table, entries joined
/// by `", "`.
pub open spec fn diff_upto(before: Seq<u8>, after: Seq<u8>, n: int) -> Seq<char>
    decreases n,
{
    if n <= 0 {
        Seq::empty()
    } else {
        let prev = diff_upto(before, after, n - 1);
        if view_changed(before, after, n - 1) {
            if prev.len() == 0 {
                diff_entry(before, after, n - 1)
            } else {
                prev + seq![',', ' '] + diff_entry(before, after, n - 1)
            }
        } else {
            prev
        }
    }
}

/// The rendered diff over the whole view table; the empty sequence when no
/// view changed.
pub open spec fn diff_str(before: Seq<u8>, after: Seq<u8>) -> Seq<char> {
    diff_upto(before, after, 13)
}

fn push_view_name(out: &mut String, i: usize)
    requires
        i < 13,
    ensures
        final(out)@ == old(out)@ + view_name(i as int),
{
    let ghost start = out@;
    match i {
        0 => {
            string_push(out, 'A');
            string_push(out, 'H');
        },
        1 => {
            string_push(out, 'A');
            string_push(out, 'L');
        },
        2 => {
            string_push(out, 'B');
            string_push(out, 'H');
        },
        3 => {
            string_push(out, 'B');
            string_push(out, 'L');
        },
        4 => {
            string_push(out, 'C');
            string_push(out, 'H');
        },
        5 => {
            string_push(out, 'C');
            string_push(out, 'L');
        },
        6 => {
            string_push(out, 'D');
            string_push(out, 'H');
        },
        7 => {
            string_push(out, 'D');
            string_push(out, 'L');
        },
        8 => {
            string_push(out, 'A');
            string_push(out, 'X');
        },
        9 => {
            string_push(out, 'B');
            string_push(out, 'X');
        },
        10 => {
            string_push(out, 'C');
            string_push(out, 'X');
        },
        11 => {
            string_push(out, 'D');
            string_push(out, 'X');
        },
        _ => {
            string_push(out, 'F');
            string_push(out, 'L');
            string_push(out, 'G');
        },
    }
    proof {
        assert(out@ =~= start + view_name(i as int));
    }
}

/// Compares two register snapshots and renders every changed view, in table
/// order, as `NAME = old -> new` entries joined by `", "`; the empty string
/// when the snapshots agree on every view.
pub fn calc_diff(before: [u8; 9], after: [u8; 9]) -> (r: String)
    ensures
        r@ == diff_str(before@, after@),
{
    let mut out = String::new();
    calc_diff_into(&mut out, &before, &after);
    out
}

/// Appends the rendered snapshot diff to `out`.
#[verifier::rlimit(60)]
pub fn calc_diff_into(out: &mut String, before: &[u8; 9], after: &[u8; 9])
    ensures
        final(out)@ == old(out)@ + diff_str(before@, after@),
{
    let ghost base = out@;
    let mut wrote = false;
    let mut i: usize = 0;
    while i < 13
        invariant
            i <= 13,
            out@ == base + diff_upto(before@, after@, i as int),
            wrote == (diff_upto(before@, after@, i as int).len() != 0),
        decreases 13 - i,
    {
        let (changed, ov, nv): (bool, u16, u16) = if i < 8 {
            (before[i] != after[i], before[i] as u16, after[i] as u16)
        } else if i < 12 {
            let k = 2 * (i - 8);
            let o = (before[k] as u16) * 256 + (before[k + 1] as u16);
            let n = (after[k] as u16) * 256 + (after[k + 1] as u16);
            (o != n, o, n)
        } else {
            (before[8] != after[8], before[8] as u16, after[8] as u16)
        };
        proof {
            assert(changed == view_changed(before@, after@, i as int));
            assert(ov as nat == view_value(before@, i as int));
            assert(nv as nat == view_value(after@, i as int));
        }
        if changed {
            let ghost prevd = diff_upto(before@, after@, i as int);
            if wrote {
                string_push(out, ',');
                string_push(out, ' ');
            }
            push_view_name(out, i);
            string_push(out, ' ');
            string_push(out, '=');
            string_push(out, ' ');
            push_dec(out, ov);
            string_push(out, ' ');
            string_push(out, '-');
            string_push(out, '>');
            string_push(out, ' ');
            push_dec(out, nv);
            wrote = true;
            proof {
                if prevd.len() == 0 {
                    assert(out@ =~= base + diff_entry(before@, after@, i as int));
                } else {
                    assert(out@ =~= base + (prevd + seq![',', ' '] + diff_entry(
                        before@,
                        after@,
                        i as int,
                    )));
                }
                assert(out@ == base + diff_upto(before@, after@, i as int + 1));
                assert(diff_entry(before@, after@, i as int).len() > 0);
            }
        }
        i += 1;
    }
}

/// Law: two equal snapshots diff to the empty string — no view changes
/// between a snapshot and itself.
pub proof fn lemma_diff_equal_snapshots(s: Seq<u8>)
    ensures
        diff_str(s, s) == Seq::<char>::empty(),
{
    lemma_diff_upto_equal(s, 13);
}

proof fn lemma_diff_upto_equal(s: Seq<u8>, n: int)
    ensures
        diff_upto(s, s, n) == Seq::<char>::empty(),
    decreases n,
{
    if n > 0 {
        lemma_diff_upto_equal(s, n - 1);
    }
}

/// Law: when two snapshots differ exactly at one general-purpose byte
/// index `i` (positions 0 to 7), exactly two views fire: the byte view
/// at `i` and the word view over its byte pair (table position
/// `8 + i / 2`), byte view first — the byte view and the word view over
/// the same bytes fire independently.
pub proof fn lemma_diff_single_byte_change(before: Seq<u8>, after: Seq<u8>, i: int)
    requires
        before.len() == 9,
        after.len() == 9,
        0 <= i < 8,
        before[i] != after[i],
        forall|j: int| 0 <= j < 9 && j != i ==> before[j] == after[j],
    ensures
        diff_str(before, after) == diff_entry(before, after, i) + seq![',', ' '] + diff_entry(
            before,
            after,
            8 + i / 2,
        ),
{
    lemma_diff_single_byte_upto(before, after, i, 13);
}

proof fn lemma_diff_single_byte_upto(before: Seq<u8>, after: Seq<u8>, i: int, n: int)
    requires
        before.len() == 9,
        after.len() == 9,
        0 <= i < 8,
        before[i] != after[i],
        forall|j: int| 0 <= j < 9 && j != i ==> before[j] == after[j],
        0 <= n <= 13,
    ensures
        n <= i ==> diff_upto(before, after, n) == Seq::<char>::empty(),
        i < n <= 8 + i / 2 ==> diff_upto(before, after, n) == diff_entry(before, after, i),
        8 + i / 2 < n ==> diff_upto(before, after, n) == diff_entry(before, after, i) + seq![
            ',',
            ' ',
        ] + diff_entry(before, after, 8 + i / 2),
    decreases n,
{
    let w = 8 + i / 2;
    if n > 0 {
        lemma_diff_single_byte_upto(before, after, i, n - 1);
        let j = n - 1;
        if j == i {
            assert(view_changed(before, after, j));
        } else if j == w {
            let k = 2 * (j - 8);
            assert(k == i || k + 1 == i);
            if k == i {
                assert(before[k + 1] == after[k + 1]);
                assert((before[k] as nat) * 256 + (before[k + 1] as nat) != (after[k] as nat) * 256
                    + (after[k + 1] as nat));
            } else {
                assert(before[k] == after[k]);
            }
            assert(view_changed(before, after, j));
            assert(diff_entry(before, after, i).len() > 0);
        } else {
            if j < 8 {
                assert(before[j] == after[j]);
            } else if j < 12 {
                let k = 2 * (j - 8);
                assert(k != i && k + 1 != i);
                assert(before[k] == after[k]);
                assert(before[k + 1] == after[k + 1]);
            } else {
                assert(before[8] == after[8]);
            }
            assert(!view_changed(before, after, j));
        }
    }
}

/// Law: the single-byte-change law at byte index 1 — the snapshots
/// differ only at `AL`, and the diff holds exactly the `AL` entry
/// followed by the `AX` entry.
pub proof fn lemma_diff_low_byte_change(before: Seq<u8>, after: Seq<u8>)
    requires
        before.len() == 9,
        after.len() == 9,
        before[1] != after[1],
        forall|i: int| 0 <= i < 9 && i != 1 ==> before[i] == after[i],
    ensures
        diff_str(before, after) == diff_entry(before, after, 1) + seq![',', ' '] + diff_entry(
            before,
            after,
            8,
        ),
{
    lemma_diff_single_byte_change(before, after, 1);
}

} // verus!
