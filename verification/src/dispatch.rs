//! Command Dispatcher: turns a submitted command buffer into either an
//! order to execute — the trimmed input, its encoded instruction bytes
//! and the echo line — or a fully rendered error report.
//!
//! The buffer is trimmed and handed to the external assembly parser.
//! The VM's execute operation itself is the embedding loop's to perform
//! (it can panic from states an operator's commands can produce, so no
//! wrapper here may promise it returns): the loop snapshots the
//! registers, executes the encoded bytes, snapshots again, and hands the
//! two snapshots to `render_result_line` for the parenthesised diff. No
//! input makes the dispatcher itself panic, and a failed parse produces
//! no execution order, so it cannot touch the VM.

use vstd::prelude::*;

use crate::diff::calc_diff_into;
use crate::diff::diff_str;
use crate::text::dec_str;
use crate::text::push_chars;
use crate::text::push_dec;
use crate::text::string_push;
use crate::text::trim_chars;
use crate::text::trim_str;

verus! {

/// The encoded instruction bytes the external assembly parser makes of a
/// line of text, or nothing when it rejects the line. The encoding is a
/// pure function of the text; the parser's error message is not (it
/// lists candidate argument patterns in a per-process order), so no name
/// is given to it.
pub uninterp spec fn encoding_of(s: Seq<char>) -> Option<Seq<u8>>;

/// Relies on `maikor_asm_parser::parse_line_from_str`: the encoded bytes
/// of the parsed line depend on the input text alone; on failure some
/// rendered error message comes back, of which nothing more is claimed.
#[verifier::external_body]
fn parse_instruction(text: &str) -> (r: Result<Vec<u8>, Vec<char>>)
    ensures
        r matches Ok(b) ==> encoding_of(text@) == Some(b@),
        r is Err ==> encoding_of(text@) is None,
{
    match maikor_asm_parser::parse_line_from_str(text) {
        Ok(line) => Ok(line.bytes),
        Err(err) => Err(format!("{}", err).chars().collect()),
    }
}

/// The list rendering of the encoded bytes, e.g. `[5, 1, 0]`.
pub open spec fn bytes_items(bs: Seq<u8>, n: int) -> Seq<char>
    decreases n,
{
    if n <= 0 {
        Seq::empty()
    } else if n == 1 {
        dec_str(bs[0] as nat)
    } else {
        bytes_items(bs, n - 1) + seq![',', ' '] + dec_str(bs[n - 1] as nat)
    }
}

/// The bracketed list rendering of the encoded bytes.
pub open spec fn bytes_list_str(bs: Seq<u8>) -> Seq<char> {
    seq!['['] + bytes_items(bs, bs.len() as int) + seq![']']
}

/// The echo line of a successful parse:
/// `Executing '<input>' [bytes]` with a terminal line break.
pub open spec fn echo_str(input: Seq<char>, bs: Seq<u8>) -> Seq<char> {
    seq!['E', 'x', 'e', 'c', 'u', 't', 'i', 'n', 'g', ' ', '\''] + input + seq!['\'', ' ']
        + bytes_list_str(bs) + seq!['\r', '\n']
}

/// The result line of an executed command: the snapshot diff wrapped in
/// parentheses (so an empty diff renders as `()`), then a blank line.
pub open spec fn result_line_str(before: Seq<u8>, after: Seq<u8>) -> Seq<char> {
    seq!['('] + diff_str(before, after) + seq![')', '\r', '\n', '\n']
}

/// The two error lines of a rejected command: the untrimmed buffer text
/// behind an `Error: ` prefix, then the parser's message.
pub open spec fn error_lines_str(original: Seq<char>, message: Seq<char>) -> Seq<char> {
    seq!['E', 'r', 'r', 'o', 'r', ':', ' '] + original + seq!['\r', '\n'] + message + seq![
        '\r',
        '\n',
    ]
}

/// Law: when a command leaves every register view unchanged, the result
/// line is the empty diff wrapped in parentheses, `()`.
pub proof fn lemma_result_line_no_changes(s: Seq<u8>)
    ensures
        result_line_str(s, s) == seq!['(', ')', '\r', '\n', '\n'],
{
    crate::diff::lemma_diff_equal_snapshots(s);
    assert(result_line_str(s, s) =~= seq!['(', ')', '\r', '\n', '\n']);
}

/// What the dispatcher makes of a submitted buffer: an order to execute
/// the encoded instruction, with the echo line already rendered, or a
/// rejection with both error lines already rendered.
pub enum Submission {
    Execute { input: String, encoded: Vec<u8>, echo: String },
    Reject { original: String, message: String, rendered: String },
}

/// What `prepare_command` owes for a raw buffer: an `Execute` order
/// exactly when the trimmed text parses, with the input, the encoded
/// bytes and the echo line pinned; a `Reject` otherwise, whose rendered
/// error lines carry the untrimmed text and whatever message the parser
/// gave.
pub open spec fn submission_spec(raw: Seq<char>, r: Submission) -> bool {
    match encoding_of(trim_str(raw)) {
        Some(bs) => {
            &&& r matches Submission::Execute { input, encoded, echo }
            &&& input@ == trim_str(raw)
            &&& encoded@ == bs
            &&& echo@ == echo_str(trim_str(raw), bs)
        },
        None => {
            &&& r matches Submission::Reject { original, message, rendered }
            &&& original@ == raw
            &&& rendered@ == error_lines_str(raw, message@)
        },
    }
}

fn push_bytes_list(out: &mut String, v: &Vec<u8>)
    ensures
        final(out)@ == old(out)@ + bytes_list_str(v@),
{
    let ghost start = out@;
    string_push(out, '[');
    let mut i: usize = 0;
    while i < v.len()
        invariant
            i <= v@.len(),
            out@ == start + seq!['['] + bytes_items(v@, i as int),
        decreases v.len() - i,
    {
        if i > 0 {
            string_push(out, ',');
            string_push(out, ' ');
        }
        push_dec(out, v[i] as u16);
        i += 1;
        proof {
            assert(out@ =~= start + seq!['['] + bytes_items(v@, i as int));
        }
    }
    string_push(out, ']');
    proof {
        assert(out@ =~= start + bytes_list_str(v@));
    }
}

/// Trims the buffer and parses it: an execution order with its echo
/// line, or a rejection with its error lines. Never panics, whatever the
/// buffer holds.
pub fn prepare_command(raw: &Vec<char>) -> (r: Submission)
    ensures
        submission_spec(raw@, r),
{
    let trimmed = trim_chars(raw);
    let mut input = String::new();
    push_chars(&mut input, &trimmed);
    match parse_instruction(input.as_str()) {
        Ok(bytes) => {
            let mut echo = String::new();
            string_push(&mut echo, 'E');
            string_push(&mut echo, 'x');
            string_push(&mut echo, 'e');
            string_push(&mut echo, 'c');
            string_push(&mut echo, 'u');
            string_push(&mut echo, 't');
            string_push(&mut echo, 'i');
            string_push(&mut echo, 'n');
            string_push(&mut echo, 'g');
            string_push(&mut echo, ' ');
            string_push(&mut echo, '\'');
            push_chars(&mut echo, &trimmed);
            string_push(&mut echo, '\'');
            string_push(&mut echo, ' ');
            push_bytes_list(&mut echo, &bytes);
            string_push(&mut echo, '\r');
            string_push(&mut echo, '\n');
            proof {
                assert(echo@ =~= echo_str(trim_str(raw@), bytes@));
            }
            Submission::Execute { input, encoded: bytes, echo }
        },
        Err(message_chars) => {
            let mut original = String::new();
            push_chars(&mut original, raw);
            let mut rendered = String::new();
            string_push(&mut rendered, 'E');
            string_push(&mut rendered, 'r');
            string_push(&mut rendered, 'r');
            string_push(&mut rendered, 'o');
            string_push(&mut rendered, 'r');
            string_push(&mut rendered, ':');
            string_push(&mut rendered, ' ');
            push_chars(&mut rendered, raw);
            string_push(&mut rendered, '\r');
            string_push(&mut rendered, '\n');
            push_chars(&mut rendered, &message_chars);
            string_push(&mut rendered, '\r');
            string_push(&mut rendered, '\n');
            let mut message = String::new();
            push_chars(&mut message, &message_chars);
            proof {
                assert(rendered@ =~= error_lines_str(raw@, message@));
            }
            Submission::Reject { original, message, rendered }
        },
    }
}

/// Renders the result line of an executed command from the register
/// snapshots taken just before and just after the execute step.
pub fn render_result_line(before: &[u8; 9], after: &[u8; 9]) -> (r: String)
    ensures
        r@ == result_line_str(before@, after@),
{
    let mut out = String::new();
    string_push(&mut out, '(');
    calc_diff_into(&mut out, before, after);
    string_push(&mut out, ')');
    string_push(&mut out, '\r');
    string_push(&mut out, '\n');
    string_push(&mut out, '\n');
    proof {
        assert(out@ =~= result_line_str(before@, after@));
    }
    out
}

} // verus!
