//! The JSON texts the relay puts on the wire: the outbound vision
//! envelope for viewers, and the upstream acknowledgment and activation
//! commands. Each builder's contract gives the exact text, so the
//! session loop only sends.

use vstd::prelude::*;
use vstd::string::StrSliceExecFns;
use crate::codec::{chars_to_string, push_dec, spec_dec};
use crate::relay::{CaptureCommand, VisionEnvelope};

verus! {

/// The character for one hexadecimal digit.
pub open spec fn hex_char(d: nat) -> char {
    if d == 0 {
        '0'
    } else if d == 1 {
        '1'
    } else if d == 2 {
        '2'
    } else if d == 3 {
        '3'
    } else if d == 4 {
        '4'
    } else if d == 5 {
        '5'
    } else if d == 6 {
        '6'
    } else if d == 7 {
        '7'
    } else if d == 8 {
        '8'
    } else if d == 9 {
        '9'
    } else if d == 10 {
        'a'
    } else if d == 11 {
        'b'
    } else if d == 12 {
        'c'
    } else if d == 13 {
        'd'
    } else if d == 14 {
        'e'
    } else {
        'f'
    }
}

/// How one character appears inside a JSON string literal: quote,
/// backslash and control characters are escaped, everything else stands
/// as itself.
pub open spec fn spec_escape_char(c: char) -> Seq<char> {
    if c == '"' {
        seq!['\\', '"']
    } else if c == '\\' {
        seq!['\\', '\\']
    } else if c == '\n' {
        seq!['\\', 'n']
    } else if c == '\r' {
        seq!['\\', 'r']
    } else if c == '\t' {
        seq!['\\', 't']
    } else if (c as int) < 32 {
        seq!['\\', 'u', '0', '0', hex_char((c as int / 16) as nat), hex_char((c as int % 16) as nat)]
    } else {
        seq![c]
    }
}

/// A string's characters escaped for a JSON string literal.
pub open spec fn spec_json_escape(s: Seq<char>) -> Seq<char>
    decreases s.len(),
{
    if s.len() == 0 {
        Seq::empty()
    } else {
        spec_json_escape(s.drop_last()) + spec_escape_char(s.last())
    }
}

/// A JSON string literal: quotes around the escaped characters.
pub open spec fn spec_json_string(s: Seq<char>) -> Seq<char> {
    seq!['"'] + spec_json_escape(s) + seq!['"']
}

/// The decimal numeral of a possibly negative number.
pub open spec fn spec_dec_signed(n: int) -> Seq<char> {
    if n >= 0 {
        spec_dec(n as nat)
    } else {
        seq!['-'] + spec_dec((-n) as nat)
    }
}

fn push_hex_digit(d: u32, out: &mut Vec<char>)
    requires
        d < 16,
    ensures
        final(out)@ == old(out)@ + seq![hex_char(d as nat)],
{
    let c = if d == 0 {
        '0'
    } else if d == 1 {
        '1'
    } else if d == 2 {
        '2'
    } else if d == 3 {
        '3'
    } else if d == 4 {
        '4'
    } else if d == 5 {
        '5'
    } else if d == 6 {
        '6'
    } else if d == 7 {
        '7'
    } else if d == 8 {
        '8'
    } else if d == 9 {
        '9'
    } else if d == 10 {
        'a'
    } else if d == 11 {
        'b'
    } else if d == 12 {
        'c'
    } else if d == 13 {
        'd'
    } else if d == 14 {
        'e'
    } else {
        'f'
    };
    out.push(c);
    proof {
        assert(final(out)@ =~= old(out)@ + seq![hex_char(d as nat)]);
    }
}

fn push_escaped_char(c: char, out: &mut Vec<char>)
    ensures
        final(out)@ == old(out)@ + spec_escape_char(c),
{
    if c == '"' {
        out.push('\\');
        out.push('"');
    } else if c == '\\' {
        out.push('\\');
        out.push('\\');
    } else if c == '\n' {
        out.push('\\');
        out.push('n');
    } else if c == '\r' {
        out.push('\\');
        out.push('r');
    } else if c == '\t' {
        out.push('\\');
        out.push('t');
    } else if (c as u32) < 32 {
        out.push('\\');
        out.push('u');
        out.push('0');
        out.push('0');
        let code = c as u32;
        push_hex_digit(code / 16, out);
        push_hex_digit(code % 16, out);
    } else {
        out.push(c);
    }
    proof {
        assert(final(out)@ =~= old(out)@ + spec_escape_char(c));
    }
}

/// Appends a JSON string literal holding the given text.
fn push_json_string(s: &str, out: &mut Vec<char>)
    ensures
        final(out)@ == old(out)@ + spec_json_string(s@),
{
    out.push('"');
    let n = s.unicode_len();
    let mut i: usize = 0;
    while i < n
        invariant
            n == s@.len(),
            i <= n,
            out@ == old(out)@ + seq!['"'] + spec_json_escape(s@.take(i as int)),
        decreases n - i,
    {
        proof {
            assert(s@.take(i + 1).drop_last() =~= s@.take(i as int));
            assert(s@.take(i + 1).last() == s@[i as int]);
        }
        push_escaped_char(s.get_char(i), out);
        i += 1;
    }
    out.push('"');
    proof {
        assert(s@.take(n as int) =~= s@);
        assert(final(out)@ =~= old(out)@ + spec_json_string(s@));
    }
}

fn push_str_chars(s: &str, out: &mut Vec<char>)
    ensures
        final(out)@ == old(out)@ + s@,
{
    let n = s.unicode_len();
    let mut i: usize = 0;
    while i < n
        invariant
            n == s@.len(),
            i <= n,
            out@ == old(out)@ + s@.take(i as int),
        decreases n - i,
    {
        out.push(s.get_char(i));
        proof {
            assert(out@ =~= old(out)@ + s@.take(i + 1));
        }
        i += 1;
    }
    proof {
        assert(s@.take(n as int) =~= s@);
    }
}

fn push_dec_signed(n: i64, out: &mut Vec<char>)
    ensures
        final(out)@ == old(out)@ + spec_dec_signed(n as int),
{
    if n >= 0 {
        push_dec(n as u64, out);
    } else {
        out.push('-');
        let mag = (-(n as i128)) as u64;
        proof {
            assert(mag as nat == (-(n as int)) as nat);
        }
        push_dec(mag, out);
        proof {
            assert(final(out)@ =~= old(out)@ + spec_dec_signed(n as int));
        }
    }
}

/// The outbound envelope text: the frame and its timestamp under the
/// envelope's own kind tag, the timestamp numeral spliced in verbatim.
pub open spec fn spec_vision_envelope_text(e: VisionEnvelope) -> Seq<char> {
    "{\"type\":"@ + spec_json_string(e.kind@) + ",\"frame\":"@ + spec_json_string(e.frame@)
        + ",\"timestamp\":"@ + e.timestamp@ + "}"@
}

/// Serializes a frame envelope for delivery to a viewer.
pub fn vision_envelope_text(e: &VisionEnvelope) -> (r: String)
    ensures
        r@ == spec_vision_envelope_text(*e),
{
    let mut out: Vec<char> = Vec::new();
    push_str_chars("{\"type\":", &mut out);
    push_json_string(e.kind.as_str(), &mut out);
    push_str_chars(",\"frame\":", &mut out);
    push_json_string(e.frame.as_str(), &mut out);
    push_str_chars(",\"timestamp\":", &mut out);
    push_str_chars(e.timestamp.as_str(), &mut out);
    push_str_chars("}", &mut out);
    proof {
        assert(out@ =~= spec_vision_envelope_text(*e));
    }
    chars_to_string(out)
}

/// The acknowledgment the upstream protocol requires for each frame,
/// carrying the frame's own session id.
pub open spec fn spec_frame_ack_text(session_id: int) -> Seq<char> {
    "{\"id\":"@ + spec_dec_signed(session_id)
        + ",\"method\":\"Page.screencastFrameAck\",\"params\":{\"sessionId\":"@
        + spec_dec_signed(session_id) + "}}"@
}

/// Serializes the acknowledgment of a frame.
pub fn frame_ack_text(session_id: i64) -> (r: String)
    ensures
        r@ == spec_frame_ack_text(session_id as int),
{
    let mut out: Vec<char> = Vec::new();
    push_str_chars("{\"id\":", &mut out);
    push_dec_signed(session_id, &mut out);
    push_str_chars(",\"method\":\"Page.screencastFrameAck\",\"params\":{\"sessionId\":", &mut out);
    push_dec_signed(session_id, &mut out);
    push_str_chars("}}", &mut out);
    proof {
        assert(out@ =~= spec_frame_ack_text(session_id as int));
    }
    chars_to_string(out)
}

/// The activation command text, from the command's own fields.
pub open spec fn spec_capture_command_text(c: CaptureCommand) -> Seq<char> {
    "{\"id\":"@ + spec_dec(c.id as nat) + ",\"method\":"@ + spec_json_string(c.method@)
        + ",\"params\":{\"format\":"@ + spec_json_string(c.format@) + ",\"quality\":"@
        + spec_dec(c.quality as nat) + ",\"maxWidth\":"@ + spec_dec(c.max_width as nat)
        + ",\"maxHeight\":"@ + spec_dec(c.max_height as nat) + ",\"everyNthFrame\":"@
        + spec_dec(c.every_nth_frame as nat) + "}}"@
}

/// Serializes the activation command for the upstream session.
pub fn capture_command_text(c: &CaptureCommand) -> (r: String)
    ensures
        r@ == spec_capture_command_text(*c),
{
    let mut out: Vec<char> = Vec::new();
    push_str_chars("{\"id\":", &mut out);
    push_dec(c.id, &mut out);
    push_str_chars(",\"method\":", &mut out);
    push_json_string(c.method.as_str(), &mut out);
    push_str_chars(",\"params\":{\"format\":", &mut out);
    push_json_string(c.format.as_str(), &mut out);
    push_str_chars(",\"quality\":", &mut out);
    push_dec(c.quality as u64, &mut out);
    push_str_chars(",\"maxWidth\":", &mut out);
    push_dec(c.max_width as u64, &mut out);
    push_str_chars(",\"maxHeight\":", &mut out);
    push_dec(c.max_height as u64, &mut out);
    push_str_chars(",\"everyNthFrame\":", &mut out);
    push_dec(c.every_nth_frame as u64, &mut out);
    push_str_chars("}}", &mut out);
    proof {
        assert(out@ =~= spec_capture_command_text(*c));
    }
    chars_to_string(out)
}

} // verus!
