//! Following a running HTTP instance's log stream: the data lines of the
//! server-sent events, one per line.

use vstd::prelude::*;
use crate::process::error::DaemonError;
use crate::text::{decimal, u64_to_decimal, first_index_of, find_char, write_text, without_cr, line_without_cr};

verus! {

/// The address of an instance's log stream.
pub open spec fn logs_url_text(port: u16) -> Seq<char> {
    "http://127.0.0.1:"@ + decimal(port as nat) + "/logs"@
}

/// Returns the address of the log stream of the instance on `port`.
pub fn logs_url(port: u16) -> (u: String)
    ensures
        u@ == logs_url_text(port),
{
    let mut u = String::from_str("http://127.0.0.1:");
    u.append(u64_to_decimal(port as u64).as_str());
    u.append("/logs");
    u
}

/// The failure reported when the stream cannot be followed.
pub fn attach_err(reason: &str) -> (e: DaemonError)
    ensures
        e == (DaemonError::AttachFailed { message: e->AttachFailed_message }),
        e->AttachFailed_message@ == reason@,
{
    DaemonError::AttachFailed { message: String::from_str(reason) }
}

/// What a line of the stream shows: the data of a `data: ` line, with a
/// newline; nothing for other lines.
pub open spec fn shown(line: Seq<char>) -> Seq<char> {
    if line.len() >= 6 && line.take(6) == "data: "@ { line.skip(6) + "\n"@ } else { Seq::empty() }
}

/// What a chunk of the stream shows, taken line by line as `str::lines`
/// splits it: at each newline, dropping a carriage return before it.
pub open spec fn shown_text(s: Seq<char>) -> Seq<char>
    decreases s.len(),
{
    if s.len() == 0 {
        Seq::empty()
    } else {
        match first_index_of(s, '\n') {
            Some(i) => if 0 <= i < s.len() {
                shown(without_cr(s.take(i))) + shown_text(s.skip(i + 1))
            } else {
                Seq::empty()
            },
            None => shown(s),
        }
    }
}

fn shown_line(line: &str) -> (t: String)
    ensures
        t@ == shown(line@),
{
    proof { reveal_strlit("data: "); reveal_strlit("\n"); }
    let n = line.unicode_len();
    if n >= 6 {
        let head = line.substring_char(0, 6);
        if head.get_char(0) == 'd' && head.get_char(1) == 'a' && head.get_char(2) == 't'
            && head.get_char(3) == 'a' && head.get_char(4) == ':' && head.get_char(5) == ' ' {
            assert(line@.take(6) =~= "data: "@);
            let mut t = String::from_str(line.substring_char(6, n));
            t.append("\n");
            return t;
        }
        assert(line@.take(6) != "data: "@) by {
            assert(head@ =~= line@.take(6));
            if line@.take(6) == "data: "@ {
                assert(head@[0] == 'd');
            }
        }
    }
    String::new()
}

/// Writes to `out` what a chunk of the log stream shows: the data of each of
/// its `data: ` lines, one per line.
pub fn process_chunk(text: &str, out: &mut Vec<u8>)
    ensures
        final(out)@ == old(out)@ + vstd::utf8::encode_utf8(shown_text(text@)),
{
    let mut shown_acc = String::new();
    let mut rest: &str = text;
    while rest.unicode_len() > 0
        invariant
            shown_text(text@) == shown_acc@ + shown_text(rest@),
        decreases rest@.len(),
    {
        let n = rest.unicode_len();
        match find_char(rest, '\n') {
            Some(i) => {
                let line = line_without_cr(rest.substring_char(0, i));
                let t = shown_line(line);
                shown_acc.append(t.as_str());
                let next = rest.substring_char(i + 1, n);
                assert(rest@.take(i as int) =~= rest@.subrange(0, i as int));
                assert(rest@.skip(i + 1) =~= rest@.subrange(i + 1, n as int));
                rest = next;
            },
            None => {
                let t = shown_line(rest);
                shown_acc.append(t.as_str());
                rest = "";
                proof { reveal_strlit(""); }
            },
        }
    }
    write_text(out, shown_acc.as_str());
}

} // verus!
