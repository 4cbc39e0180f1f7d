//! The text of the audit log: line layout, clock stamps and the file name.

use vstd::prelude::*;

use crate::text::{decimal, decimal_chars, pad_left, pad_right, push_chars, push_repeated};

verus! {

/// One log line: "<time> [<level padded to 4>] <message>\n".
pub open spec fn log_line_text(time: Seq<char>, level: Seq<char>, message: Seq<char>) -> Seq<char> {
    time + " ["@ + pad_right(level, 4) + "] "@ + message + "\n"@
}

/// The log line for `message` at `level`, stamped with `time`.
pub fn log_line(time: &str, level: &str, message: &str) -> (r: String)
    ensures
        r@ == log_line_text(time@, level@, message@),
{
    let mut r = String::from_str(time);
    r.append(" [");
    r.append(level);
    let n = level.unicode_len();
    if n < 4 {
        push_repeated(&mut r, ' ', 4 - n);
    }
    r.append("] ");
    r.append(message);
    r.append("\n");
    assert(r@ =~= log_line_text(time@, level@, message@));
    r
}

/// `v` in decimal, zero-padded after the sign to `width` characters, as the
/// `{:0w}` format writes an integer.
pub open spec fn zero_padded(v: int, width: nat) -> Seq<char> {
    if v < 0 {
        seq!['-'] + pad_left(decimal((-v) as nat), if width > 0 { (width - 1) as nat } else { 0 }, '0')
    } else {
        pad_left(decimal(v as nat), width, '0')
    }
}

fn push_zero_padded(s: &mut String, v: i64, width: usize)
    ensures
        final(s)@ == old(s)@ + zero_padded(v as int, width as nat),
{
    let neg = v < 0;
    let mag: u128 = if neg {
        (-(v as i128)) as u128
    } else {
        v as u128
    };
    let w: usize = if neg {
        if width > 0 {
            width - 1
        } else {
            0
        }
    } else {
        width
    };
    if neg {
        crate::text::push_char(s, '-');
    }
    let digits = decimal_chars(mag);
    if digits.len() < w {
        push_repeated(s, '0', w - digits.len());
    }
    push_chars(s, &digits);
    assert(s@ =~= old(s)@ + zero_padded(v as int, width as nat));
}

/// The clock stamp "HH:MM:SS" of a local time.
pub open spec fn clock_stamp(hour: int, min: int, sec: int) -> Seq<char> {
    zero_padded(hour, 2) + ":"@ + zero_padded(min, 2) + ":"@ + zero_padded(sec, 2)
}

/// The clock stamp of a log line, from the broken-down local time.
pub fn clock_text(hour: i32, min: i32, sec: i32) -> (r: String)
    ensures
        r@ == clock_stamp(hour as int, min as int, sec as int),
{
    let mut r = String::new();
    push_zero_padded(&mut r, hour as i64, 2);
    r.append(":");
    push_zero_padded(&mut r, min as i64, 2);
    r.append(":");
    push_zero_padded(&mut r, sec as i64, 2);
    assert(r@ =~= clock_stamp(hour as int, min as int, sec as int));
    r
}

/// The session stamp "YYYYMMDD_HHMMSS" from C `tm` fields: years since 1900,
/// months from 0.
pub open spec fn session_stamp(tm_year: int, tm_mon: int, tm_mday: int, hour: int, min: int, sec: int) -> Seq<char> {
    zero_padded(tm_year + 1900, 4) + zero_padded(tm_mon + 1, 2) + zero_padded(tm_mday, 2) + "_"@
        + zero_padded(hour, 2) + zero_padded(min, 2) + zero_padded(sec, 2)
}

/// The session stamp of a log file name.
pub fn timestamp_text(tm_year: i32, tm_mon: i32, tm_mday: i32, hour: i32, min: i32, sec: i32) -> (r: String)
    requires
        tm_year + 1900 <= i32::MAX,
        tm_mon + 1 <= i32::MAX,
    ensures
        r@ == session_stamp(tm_year as int, tm_mon as int, tm_mday as int, hour as int, min as int, sec as int),
{
    let mut r = String::new();
    push_zero_padded(&mut r, (tm_year + 1900) as i64, 4);
    push_zero_padded(&mut r, (tm_mon + 1) as i64, 2);
    push_zero_padded(&mut r, tm_mday as i64, 2);
    r.append("_");
    push_zero_padded(&mut r, hour as i64, 2);
    push_zero_padded(&mut r, min as i64, 2);
    push_zero_padded(&mut r, sec as i64, 2);
    assert(r@ =~= session_stamp(tm_year as int, tm_mon as int, tm_mday as int, hour as int, min as int, sec as int));
    r
}

/// The log file's name: "mconv_<stamp>_<pid>.log".
pub open spec fn log_name(stamp: Seq<char>, pid: nat) -> Seq<char> {
    "mconv_"@ + stamp + "_"@ + decimal(pid) + ".log"@
}

/// The name of the log file of the session `stamp` run by process `pid`.
pub fn log_file_name(stamp: &str, pid: u32) -> (r: String)
    ensures
        r@ == log_name(stamp@, pid as nat),
{
    let mut r = String::from_str("mconv_");
    r.append(stamp);
    r.append("_");
    let d = decimal_chars(pid as u128);
    push_chars(&mut r, &d);
    r.append(".log");
    r
}

} // verus!
