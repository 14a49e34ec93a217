//! One daemon per install: the file that records the daemon's process.

use vstd::prelude::*;

use crate::text;

verus! {

/// The number that a text writes in decimal, with a sign or without.
pub open spec fn signed_value(s: Seq<char>) -> Option<int> {
    if s.len() > 0 && s[0] == '-' {
        if text::is_decimal(s.skip(1)) {
            Some(-(text::decimal_value(s.skip(1)) as int))
        } else {
            None
        }
    } else if text::is_decimal(text::unsigned_digits(s)) {
        Some(text::decimal_value(text::unsigned_digits(s)) as int)
    } else {
        None
    }
}

/// The process that a file's content records: a number of 32 bits, white space around it or not.
pub open spec fn pid_in(content: Seq<char>) -> Option<i32> {
    match signed_value(text::trimmed(content)) {
        Some(n) => if i32::MIN <= n <= i32::MAX {
            Some(n as i32)
        } else {
            None
        },
        None => None,
    }
}

/// The process that a file's content records.
pub fn recorded_pid(content: &str) -> (r: Option<i32>)
    ensures
        r == pid_in(content@),
{
    let t = text::trim(content);
    let n = t.unicode_len();
    if n > 0 && t.get_char(0) == '-' {
        let digits = t.substring_char(1, n);
        assert(digits@ =~= t@.skip(1));
        if n > 1 && digits.get_char(0) == '+' {
            assert(!text::is_digit(digits@[0]));
            return None;
        }
        match text::parse_u64(digits) {
            Some(v) => if v <= 0x8000_0000 {
                Some((-(v as i64)) as i32)
            } else {
                None
            },
            None => None,
        }
    } else {
        match text::parse_u64(t) {
            Some(v) => if v <= 0x7fff_ffff {
                Some(v as i32)
            } else {
                None
            },
            None => None,
        }
    }
}

/// What the file that records a process holds: its number and a line end.
pub fn pid_file(pid: u32) -> (r: String)
    ensures
        r@ == text::decimal_text(pid as nat) + "\n"@,
{
    text::u64_text(pid as u64).concat("\n")
}

/// Why a daemon may not start, in words.
pub open spec fn start_refusal(recorded: Option<i32>, alive: bool) -> Option<Seq<char>> {
    if recorded is Some && alive {
        Some(
            "another wt-daemon is already running (pid "@ + text::signed_text(recorded->0 as int)
                + ")"@,
        )
    } else {
        None
    }
}

/// Why a daemon may not start: one whose process is recorded is alive.
pub fn refusal_to_start(recorded: Option<i32>, alive: bool) -> (r: Option<String>)
    ensures
        text::opt_text(r) == start_refusal(recorded, alive),
{
    match recorded {
        Some(pid) => if alive {
            Some(
                "another wt-daemon is already running (pid ".to_owned().concat(
                    text::i64_text(pid as i64).as_str(),
                ).concat(")"),
            )
        } else {
            None
        },
        None => None,
    }
}

/// A process is read back from the file that records it.
pub proof fn law_pid_file_roundtrip(pid: u32)
    requires
        pid <= i32::MAX,
    ensures
        pid_in(text::decimal_text(pid as nat) + "\n"@) == Some(pid as i32),
{
    let s = text::decimal_text(pid as nat);
    text::law_decimal_roundtrip(pid as nat);
    reveal_strlit("\n");
    assert(text::is_digit(s[0]));
    assert(text::is_digit(s.last()));
    assert(Seq::<char>::empty() + s + "\n"@ =~= s + "\n"@);
    text::law_trim_removes_padding(Seq::empty(), s, "\n"@);
}

/// A daemon may start exactly where none is recorded, or the one that is recorded is gone; else it is
/// told which one runs.
pub proof fn law_one_daemon_at_a_time(recorded: Option<i32>, alive: bool)
    ensures
        recorded is None ==> start_refusal(recorded, alive) is None,
        !alive ==> start_refusal(recorded, alive) is None,
        recorded is Some && alive ==> start_refusal(recorded, alive) == Some(
            "another wt-daemon is already running (pid "@ + text::signed_text(recorded->0 as int)
                + ")"@,
        ),
{
}

} // verus!
