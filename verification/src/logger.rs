//! The lines of the diagnostic log: a time stamp in brackets, then the
//! message.
//!
//! The time stamp comes from `chrono`. It differs from call to call, so its
//! contract says only what holds of every time stamp; the line is put
//! together here, and can be taken apart again.

use vstd::prelude::*;

verus! {

/// The log's file name in the directory for temporary files.
pub const LOG_FILE_NAME: &'static str = "voicebox-launch.log";

/// The format of the time stamp: date and time of day, to the second.
pub const STAMP_FORMAT: &'static str = "%Y-%m-%d %H:%M:%S";

/// The characters that a time stamp is made of: digits, the separators of
/// the format, and the sign of a year beyond four digits.
pub open spec fn is_stamp_char(c: char) -> bool {
    let u = c as u32;
    ||| 0x30 <= u <= 0x39
    ||| c == '-'
    ||| c == '+'
    ||| c == ' '
    ||| c == ':'
}

/// What holds of every time stamp: it has at least the nineteen characters
/// of a four-digit year, and no character outside `is_stamp_char`.
pub open spec fn is_stamp(stamp: Seq<char>) -> bool {
    &&& stamp.len() >= 19
    &&& forall|i: int| 0 <= i < stamp.len() ==> is_stamp_char(#[trigger] stamp[i])
}

/// Calls `chrono::Local::now` and formats the result with
/// `chrono::DateTime::format`. The format must be `STAMP_FORMAT`, whose items
/// are the year padded to four digits, and month, day, hour, minute and
/// second padded to two, with `-`, a blank and `:` between them; a year
/// outside 0..=9999 is written with a sign. Nothing else is claimed of the
/// result: it depends on the clock and on the time zone. `chrono` gives up
/// where the clock reads a time before 1970.
#[verifier::external_body]
pub(crate) fn local_time(format: &str) -> (stamp: String)
    requires
        format@ == STAMP_FORMAT@,
    ensures
        is_stamp(stamp@),
{
    chrono::Local::now().format(format).to_string()
}

/// The line of the log for `message`, stamped with `stamp`.
pub open spec fn entry_text(stamp: Seq<char>, message: Seq<char>) -> Seq<char> {
    seq!['['] + stamp + seq![']', ' '] + message + seq!['\n']
}

/// Whether `line` is a line of the log for `message`, whatever its stamp.
pub open spec fn is_entry_for(line: Seq<char>, message: Seq<char>) -> bool {
    exists|stamp: Seq<char>| is_stamp(stamp) && line == #[trigger] entry_text(stamp, message)
}

/// The position of the first `]` in `line`, or `line.len()` where it has
/// none.
pub open spec fn stamp_end(line: Seq<char>) -> nat
    decreases line.len(),
{
    if line.len() == 0 || line[0] == ']' {
        0
    } else {
        1 + stamp_end(line.drop_first())
    }
}

/// The message of a line of the log: what stands between the blank after the
/// first `]` and the line feed at the end.
pub open spec fn entry_message(line: Seq<char>) -> Seq<char> {
    line.subrange(stamp_end(line) as int + 2, line.len() - 1)
}

/// `stamp_end` is the one position before which no `]` stands and at which
/// one stands.
proof fn stamp_end_is_first(line: Seq<char>, k: int)
    requires
        0 <= k < line.len(),
        forall|j: int| 0 <= j < k ==> line[j] != ']',
        line[k] == ']',
    ensures
        stamp_end(line) == k,
    decreases line.len(),
{
    if line[0] != ']' {
        let rest = line.drop_first();
        assert forall|j: int| 0 <= j < k - 1 implies rest[j] != ']' by {
            assert(rest[j] == line[j + 1]);
        }
        stamp_end_is_first(rest, k - 1);
    }
}

/// A line of the log gives its message back, whatever the message holds.
pub proof fn entry_keeps_message(stamp: Seq<char>, message: Seq<char>)
    requires
        is_stamp(stamp),
    ensures
        entry_message(entry_text(stamp, message)) == message,
{
    let line = entry_text(stamp, message);
    let k: int = stamp.len() as int + 1;
    assert forall|j: int| 0 <= j < k implies line[j] != ']' by {
        if j > 0 {
            assert(line[j] == stamp[j - 1]);
            assert(is_stamp_char(stamp[j - 1]));
        }
    }
    assert(line[k] == ']');
    stamp_end_is_first(line, k);
    assert(line.subrange(k + 2, line.len() - 1) =~= message);
}

/// The line of the log for `message`, stamped with `stamp`.
pub fn format_entry(stamp: &str, message: &str) -> (line: String)
    ensures
        line@ == entry_text(stamp@, message@),
{
    proof {
        reveal_strlit("[");
        reveal_strlit("] ");
        reveal_strlit("\n");
        assert("["@ =~= seq!['[']);
        assert("] "@ =~= seq![']', ' ']);
        assert("\n"@ =~= seq!['\n']);
    }
    let mut line = String::from_str("[");
    line.append(stamp);
    line.append("] ");
    line.append(message);
    line.append("\n");
    line
}

/// The line of the log for `message`, stamped with the local time of the
/// call.
pub fn entry(message: &str) -> (line: String)
    ensures
        is_entry_for(line@, message@),
        entry_message(line@) == message@,
{
    let stamp = local_time(STAMP_FORMAT);
    let line = format_entry(stamp.as_str(), message);
    proof {
        entry_keeps_message(stamp@, message@);
        assert(line@ == entry_text(stamp@, message@));
    }
    line
}

} // verus!
