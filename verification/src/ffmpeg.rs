//! Reading what a running ffmpeg prints: progress lines and error lines.

use vstd::prelude::*;

use crate::text::{
    chars_of, contains_str, contains_text, has_prefix, starts_with_str, string_from_chars,
    string_views, trim_chars, trimmed,
};

verus! {

/// An ASCII decimal digit.
pub open spec fn is_digit(c: char) -> bool {
    '0' <= c && c <= '9'
}

/// The number a non-empty run of digits denotes.
pub open spec fn digits_value(d: Seq<char>) -> nat
    decreases d.len(),
{
    if d.len() == 0 {
        0
    } else {
        digits_value(d.drop_last()) * 10 + ((d.last() as u32) - 48) as nat
    }
}

/// The digits of an unsigned number: the text without one leading `+`.
pub open spec fn unsigned_digits(s: Seq<char>) -> Seq<char> {
    if s.len() > 0 && s[0] == '+' {
        s.drop_first()
    } else {
        s
    }
}

/// What std `u64::from_str` accepts: an optional `+` and at least one decimal
/// digit, denoting a number that fits in 64 bits.
pub open spec fn parsed_u64(s: Seq<char>) -> Option<u64> {
    let d = unsigned_digits(s);
    if d.len() > 0 && (forall|i: int| 0 <= i < d.len() ==> is_digit(#[trigger] d[i])) && digits_value(d)
        <= u64::MAX {
        Some(digits_value(d) as u64)
    } else {
        None
    }
}

proof fn lemma_digits_grow(d: Seq<char>, k: int)
    requires
        0 <= k <= d.len(),
        forall|i: int| 0 <= i < d.len() ==> is_digit(#[trigger] d[i]),
    ensures
        digits_value(d.subrange(0, k)) <= digits_value(d),
    decreases d.len() - k,
{
    if k < d.len() {
        lemma_digits_grow(d, k + 1);
        assert(d.subrange(0, k + 1).drop_last() =~= d.subrange(0, k));
    } else {
        assert(d.subrange(0, k) =~= d);
    }
}

/// Parses an unsigned decimal number as std `u64::from_str` does.
pub fn parse_u64(s: &str) -> (r: Option<u64>)
    ensures
        r == parsed_u64(s@),
{
    let cs = chars_of(s);
    let start: usize = if cs.len() > 0 && cs[0] == '+' {
        1
    } else {
        0
    };
    let ghost d = unsigned_digits(s@);
    assert(d =~= cs@.subrange(start as int, cs@.len() as int));
    if start >= cs.len() {
        return None;
    }
    let mut i: usize = start;
    let mut acc: u64 = 0;
    while i < cs.len()
        invariant
            cs@ == s@,
            d == cs@.subrange(start as int, cs@.len() as int),
            d == unsigned_digits(s@),
            start <= i <= cs@.len(),
            forall|k: int| 0 <= k < i - start ==> is_digit(#[trigger] d[k]),
            acc == digits_value(d.subrange(0, i - start)),
        decreases cs@.len() - i,
    {
        let c = cs[i];
        if !('0' <= c && c <= '9') {
            assert(!is_digit(d[i - start]));
            assert(!(forall|k: int| 0 <= k < d.len() ==> is_digit(#[trigger] d[k])));
            assert(unsigned_digits(s@) == d);
            return None;
        }
        let v: u64 = ((c as u32) - 48) as u64;
        assert(d.subrange(0, i + 1 - start).drop_last() =~= d.subrange(0, i - start));
        if acc > (u64::MAX - v) / 10 {
            proof {
                assert(acc * 10 + v > u64::MAX) by (nonlinear_arith)
                    requires acc > (u64::MAX - v) / 10, v <= 9;
                assert(digits_value(d.subrange(0, i + 1 - start)) == acc * 10 + v);
                if forall|k: int| 0 <= k < d.len() ==> is_digit(#[trigger] d[k]) {
                    lemma_digits_grow(d, i + 1 - start);
                    assert(digits_value(d) > u64::MAX);
                }
                assert(unsigned_digits(s@) == d);
            }
            return None;
        }
        acc = acc * 10 + v;
        i = i + 1;
    }
    assert(d.subrange(0, d.len() as int) =~= d);
    Some(acc)
}

/// What one line of ffmpeg's `-progress` output tells.
pub enum ProgressUpdate {
    /// The position reached, in microseconds of output time.
    Position(u64),
    /// A new status message for the file's progress bar.
    Message(String),
    /// Nothing to show.
    Nothing,
}

/// Whether `r` is what the progress line `line` means for the file shown as
/// `display_name`: an `out_time_us=` line gives the position when its value
/// parses, a `speed=` line with a value other than "N/A" gives the message
/// "<name> • <speed>", anything else gives nothing.
pub open spec fn describes_progress(r: ProgressUpdate, line: Seq<char>, display_name: Seq<char>) -> bool {
    if has_prefix(line, "out_time_us="@) {
        match parsed_u64(trimmed(line.skip(12))) {
            Some(us) => r == ProgressUpdate::Position(us),
            None => r is Nothing,
        }
    } else if has_prefix(line, "speed="@) {
        let speed = trimmed(line.skip(6));
        if speed.len() > 0 && speed != "N/A"@ {
            r matches ProgressUpdate::Message(m) && m@ == display_name + " • "@ + speed
        } else {
            r is Nothing
        }
    } else {
        r is Nothing
    }
}

fn skipped_chars(cs: &Vec<char>, n: usize) -> (r: Vec<char>)
    requires
        n <= cs@.len(),
    ensures
        r@ == cs@.skip(n as int),
{
    let mut r: Vec<char> = Vec::new();
    let mut i: usize = n;
    while i < cs.len()
        invariant
            n <= i <= cs@.len(),
            r@ == cs@.subrange(n as int, i as int),
        decreases cs@.len() - i,
    {
        r.push(cs[i]);
        assert(cs@.subrange(n as int, i + 1) =~= cs@.subrange(n as int, i as int).push(cs@[i as int]));
        i = i + 1;
    }
    r
}

/// Reads one line of ffmpeg's progress output for the file shown as `display_name`.
pub fn parse_progress_line(line: &str, display_name: &str) -> (r: ProgressUpdate)
    ensures
        describes_progress(r, line@, display_name@),
{
    let cs = chars_of(line);
    if starts_with_str(line, "out_time_us=") {
        proof {
            reveal_strlit("out_time_us=");
        }
        let rest = trim_chars(&skipped_chars(&cs, 12));
        let text = string_from_chars(rest.as_slice());
        match parse_u64(text.as_str()) {
            Some(us) => ProgressUpdate::Position(us),
            None => ProgressUpdate::Nothing,
        }
    } else if starts_with_str(line, "speed=") {
        proof {
            reveal_strlit("speed=");
        }
        let rest = trim_chars(&skipped_chars(&cs, 6));
        let speed = string_from_chars(rest.as_slice());
        if rest.len() > 0 && !crate::text::same_text(speed.as_str(), "N/A") {
            let mut m = String::from_str(display_name);
            m.append(" • ");
            m.append(speed.as_str());
            ProgressUpdate::Message(m)
        } else {
            ProgressUpdate::Nothing
        }
    } else {
        ProgressUpdate::Nothing
    }
}

/// How many error lines are kept.
pub open spec fn kept_lines() -> nat {
    10
}

/// The remembered error lines after seeing `line`: its trimmed text is added
/// when not empty, and the oldest line goes when more than ten are held.
pub open spec fn remembered(lines: Seq<Seq<char>>, line: Seq<char>) -> Seq<Seq<char>> {
    let t = trimmed(line);
    if t.len() == 0 {
        lines
    } else if lines.push(t).len() > kept_lines() {
        lines.push(t).drop_first()
    } else {
        lines.push(t)
    }
}

/// Remembers one line of ffmpeg's error output.
pub fn remember_error_line(lines: &mut Vec<String>, line: &str)
    ensures
        string_views(final(lines)@) == remembered(string_views(old(lines)@), line@),
{
    let t = trim_chars(&chars_of(line));
    if t.len() == 0 {
        return;
    }
    let s = string_from_chars(t.as_slice());
    lines.push(s);
    assert(string_views(lines@) =~= string_views(old(lines)@).push(t@));
    if lines.len() > 10 {
        let _ = lines.remove(0);
        assert(string_views(lines@) =~= string_views(old(lines)@).push(t@).drop_first());
    }
}

/// A line that names a failure.
pub open spec fn alarming(line: Seq<char>) -> bool {
    contains_text(line, "Error"@) || contains_text(line, "Invalid"@) || contains_text(line, "failed"@)
        || contains_text(line, "cannot"@)
}

/// The last alarming line, if any.
pub open spec fn last_alarming(lines: Seq<Seq<char>>) -> Option<Seq<char>>
    decreases lines.len(),
{
    if lines.len() == 0 {
        None
    } else if alarming(lines.last()) {
        Some(lines.last())
    } else {
        last_alarming(lines.drop_last())
    }
}

/// The error reported for an ffmpeg run: nothing when it succeeded; otherwise
/// the last remembered line naming a failure, else the last line, else
/// "unknown error".
pub open spec fn error_summary_of(succeeded: bool, lines: Seq<Seq<char>>) -> Seq<char> {
    if succeeded {
        Seq::empty()
    } else {
        match last_alarming(lines) {
            Some(l) => l,
            None => if lines.len() > 0 {
                lines.last()
            } else {
                "unknown error"@
            },
        }
    }
}

fn is_alarming(line: &str) -> (r: bool)
    ensures
        r == alarming(line@),
{
    contains_str(line, "Error") || contains_str(line, "Invalid") || contains_str(line, "failed")
        || contains_str(line, "cannot")
}

/// The error summary of an ffmpeg run from its remembered error lines.
pub fn error_summary(succeeded: bool, lines: &Vec<String>) -> (r: String)
    ensures
        r@ == error_summary_of(succeeded, string_views(lines@)),
{
    if succeeded {
        return String::new();
    }
    let ghost all = string_views(lines@);
    let mut i: usize = lines.len();
    assert(all.subrange(0, i as int) =~= all);
    while i > 0
        invariant
            i <= lines@.len(),
            all == string_views(lines@),
            !succeeded,
            last_alarming(all) == last_alarming(all.subrange(0, i as int)),
        decreases i,
    {
        let ghost pre = all.subrange(0, i as int);
        assert(pre.drop_last() =~= all.subrange(0, i - 1));
        assert(pre.last() == lines@[i - 1]@);
        if is_alarming(lines[i - 1].as_str()) {
            assert(last_alarming(pre) == Some(pre.last()));
            let r = lines[i - 1].clone();
            assert(r@ == pre.last());
            return r;
        }
        i = i - 1;
    }
    assert(all.subrange(0, 0) =~= Seq::<Seq<char>>::empty());
    if lines.len() > 0 {
        lines[lines.len() - 1].clone()
    } else {
        String::from_str("unknown error")
    }
}

/// At most ten error lines are held, none of them blank.
pub proof fn law_error_lines_bounded(lines: Seq<Seq<char>>, line: Seq<char>)
    requires
        lines.len() <= kept_lines(),
        forall|i: int| 0 <= i < lines.len() ==> (#[trigger] lines[i]).len() > 0,
    ensures
        remembered(lines, line).len() <= kept_lines(),
        forall|i: int| 0 <= i < remembered(lines, line).len() ==> (#[trigger] remembered(lines, line)[i]).len() > 0,
{
}

/// A failed run always gets an error to show, and a successful one none.
pub proof fn law_error_summary(lines: Seq<Seq<char>>)
    requires
        forall|i: int| 0 <= i < lines.len() ==> (#[trigger] lines[i]).len() > 0,
    ensures
        error_summary_of(false, lines).len() > 0,
        error_summary_of(true, lines).len() == 0,
{
    reveal_strlit("unknown error");
    lemma_last_alarming_in(lines);
}

proof fn lemma_last_alarming_in(lines: Seq<Seq<char>>)
    ensures
        last_alarming(lines) matches Some(l) ==> exists|i: int| 0 <= i < lines.len() && lines[i] == l,
    decreases lines.len(),
{
    if lines.len() > 0 {
        lemma_last_alarming_in(lines.drop_last());
        if !alarming(lines.last()) {
            if let Some(l) = last_alarming(lines.drop_last()) {
                let i = choose|i: int| 0 <= i < lines.drop_last().len() && lines.drop_last()[i] == l;
                assert(lines[i] == l);
            }
        } else {
            assert(lines[lines.len() - 1] == lines.last());
        }
    }
}

} // verus!
