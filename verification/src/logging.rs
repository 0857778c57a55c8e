//! The text of a technical log line. Writing it to the local log file is the
//! caller's part.

use vstd::prelude::*;

use crate::text::{str_chars, string_from_chars};

verus! {

/// A message with every carriage return and line feed replaced by a space, so
/// that one entry stays on one line.
pub open spec fn single_line(message: Seq<char>) -> Seq<char> {
    Seq::new(
        message.len(),
        |i: int|
            if message[i] == '\r' || message[i] == '\n' {
                ' '
            } else {
                message[i]
            },
    )
}

/// The decimal digits of `n`, most significant first.
pub open spec fn decimal(n: nat) -> Seq<char>
    decreases n,
{
    if n < 10 {
        seq![(('0' as nat) + n) as char]
    } else {
        decimal(n / 10) + seq![(('0' as nat) + n % 10) as char]
    }
}

/// `{timestamp} [{level}] {context}: {message}` and a line feed.
pub open spec fn log_line_text(
    timestamp: u64,
    level: Seq<char>,
    context: Seq<char>,
    message: Seq<char>,
) -> Seq<char> {
    decimal(timestamp as nat) + " ["@ + level + "] "@ + context + ": "@ + single_line(message)
        + "\n"@
}

/// A sanitized message holds no line break, so a log entry is one line.
pub proof fn law_log_entry_is_one_line(message: Seq<char>)
    ensures
        forall|i: int|
            0 <= i < single_line(message).len() ==> #[trigger] single_line(message)[i] != '\n'
                && single_line(message)[i] != '\r',
        single_line(message).len() == message.len(),
{
}

pub fn sanitize_message(message: &str) -> (safe: String)
    ensures
        safe@ == single_line(message@),
{
    let chars = str_chars(message);
    let mut out: Vec<char> = Vec::new();
    let mut i: usize = 0;
    while i < chars.len()
        invariant
            i <= chars@.len(),
            chars@ == message@,
            out@ =~= single_line(message@).subrange(0, i as int),
        decreases chars.len() - i,
    {
        let c = chars[i];
        if c == '\r' || c == '\n' {
            out.push(' ');
        } else {
            out.push(c);
        }
        i = i + 1;
    }
    string_from_chars(out.as_slice())
}

fn digit(v: u64) -> (c: char)
    requires
        v < 10,
    ensures
        c == (('0' as nat) + v) as char,
{
    (48u8 + (v as u8)) as char
}

pub fn decimal_chars(n: u64) -> (digits: Vec<char>)
    ensures
        digits@ == decimal(n as nat),
    decreases n,
{
    if n < 10 {
        let mut v: Vec<char> = Vec::new();
        v.push(digit(n));
        proof {
            assert(v@ =~= decimal(n as nat));
        }
        v
    } else {
        let mut v = decimal_chars(n / 10);
        v.push(digit(n % 10));
        proof {
            assert(v@ =~= decimal(n as nat));
        }
        v
    }
}

/// The line appended to the technical log for one event.
pub fn log_line(timestamp: u64, level: &str, context: &str, message: &str) -> (line: String)
    ensures
        line@ == log_line_text(timestamp, level@, context@, message@),
{
    let mut chars = decimal_chars(timestamp);
    let mut parts: Vec<char> = str_chars(" [");
    chars.append(&mut parts);
    let mut parts: Vec<char> = str_chars(level);
    chars.append(&mut parts);
    let mut parts: Vec<char> = str_chars("] ");
    chars.append(&mut parts);
    let mut parts: Vec<char> = str_chars(context);
    chars.append(&mut parts);
    let mut parts: Vec<char> = str_chars(": ");
    chars.append(&mut parts);
    let safe = sanitize_message(message);
    let mut parts: Vec<char> = str_chars(safe.as_str());
    chars.append(&mut parts);
    let mut parts: Vec<char> = str_chars("\n");
    chars.append(&mut parts);
    string_from_chars(chars.as_slice())
}

} // verus!
