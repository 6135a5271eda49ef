//! Characters, trimming, lines and small string helpers.
//!
//! Every function here works on the characters of a string, never on its
//! bytes, so that the contracts can speak of `Seq<char>` throughout.

use vstd::prelude::*;

verus! {

/// The characters with the Unicode property `White_Space`.
pub open spec fn is_white_space(c: char) -> bool {
    let u = c as u32;
    ||| 0x09 <= u <= 0x0D
    ||| u == 0x20
    ||| u == 0x85
    ||| u == 0xA0
    ||| u == 0x1680
    ||| 0x2000 <= u <= 0x200A
    ||| u == 0x2028
    ||| u == 0x2029
    ||| u == 0x202F
    ||| u == 0x205F
    ||| u == 0x3000
}

/// `s` without its leading white space.
pub open spec fn trim_start(s: Seq<char>) -> Seq<char>
    decreases s.len(),
{
    if s.len() > 0 && is_white_space(s[0]) {
        trim_start(s.drop_first())
    } else {
        s
    }
}

/// `s` without its trailing white space.
pub open spec fn trim_end(s: Seq<char>) -> Seq<char>
    decreases s.len(),
{
    if s.len() > 0 && is_white_space(s.last()) {
        trim_end(s.drop_last())
    } else {
        s
    }
}

/// `s` without leading and trailing white space.
pub open spec fn trimmed(s: Seq<char>) -> Seq<char> {
    trim_end(trim_start(s))
}

/// The position of the first line feed in `s`, or `s.len()` where it has none.
pub open spec fn line_break(s: Seq<char>) -> nat
    decreases s.len(),
{
    if s.len() == 0 || s[0] == '\n' {
        0
    } else {
        1 + line_break(s.drop_first())
    }
}

/// A line as it stood before its line feed, without the carriage return of a
/// `\r\n` ending.
pub open spec fn without_carriage_return(line: Seq<char>) -> Seq<char> {
    if line.len() > 0 && line.last() == '\r' {
        line.drop_last()
    } else {
        line
    }
}

/// The lines of `s`. A line ends at `\n` or `\r\n`; the ending is not part of
/// the line. The last line needs no ending, and a text that ends with a line
/// ending has no empty line after it. A carriage return that no line feed
/// follows stays in its line.
pub open spec fn lines_of(s: Seq<char>) -> Seq<Seq<char>>
    decreases s.len(),
{
    if s.len() == 0 {
        Seq::empty()
    } else {
        let k = line_break(s) as int;
        if k < s.len() {
            seq![without_carriage_return(s.take(k))] + lines_of(s.skip(k + 1))
        } else {
            seq![s]
        }
    }
}

/// The lines put together again, with one line feed between neighbours and
/// none at the end.
pub open spec fn joined_lines(lines: Seq<Seq<char>>) -> Seq<char>
    decreases lines.len(),
{
    if lines.len() == 0 {
        Seq::empty()
    } else if lines.len() == 1 {
        lines[0]
    } else {
        joined_lines(lines.drop_last()) + seq!['\n'] + lines.last()
    }
}

/// `line_break` is the one position before which no line feed stands and at
/// which one stands, unless it is the end.
pub proof fn line_break_is_first(s: Seq<char>, k: int)
    requires
        0 <= k <= s.len(),
        forall|j: int| 0 <= j < k ==> s[j] != '\n',
        k < s.len() ==> s[k] == '\n',
    ensures
        line_break(s) == k,
    decreases s.len(),
{
    if s.len() == 0 || s[0] == '\n' {
    } else {
        let rest = s.drop_first();
        assert forall|j: int| 0 <= j < k - 1 implies rest[j] != '\n' by {
            assert(rest[j] == s[j + 1]);
        }
        line_break_is_first(rest, k - 1);
    }
}

/// Trimming at the front of `s` is trimming at the front of what follows
/// a run of white space.
proof fn trim_start_skips(s: Seq<char>, a: int)
    requires
        0 <= a <= s.len(),
        forall|j: int| 0 <= j < a ==> is_white_space(s[j]),
    ensures
        trim_start(s) == trim_start(s.skip(a)),
    decreases a,
{
    if a == 0 {
        assert(s.skip(0) =~= s);
    } else {
        let rest = s.drop_first();
        assert forall|j: int| 0 <= j < a - 1 implies is_white_space(rest[j]) by {
            assert(rest[j] == s[j + 1]);
        }
        trim_start_skips(rest, a - 1);
        assert(rest.skip(a - 1) =~= s.skip(a));
    }
}

/// Trimming at the end of `s` is trimming at the end of what precedes a run
/// of white space.
proof fn trim_end_takes(s: Seq<char>, b: int)
    requires
        0 <= b <= s.len(),
        forall|j: int| b <= j < s.len() ==> is_white_space(s[j]),
    ensures
        trim_end(s) == trim_end(s.take(b)),
    decreases s.len() - b,
{
    if b == s.len() {
        assert(s.take(b) =~= s);
    } else {
        let rest = s.drop_last();
        trim_end_takes(rest, b);
        assert(rest.take(b) =~= s.take(b));
    }
}

/// Whether `c` is a white space character.
pub fn white_space(c: char) -> (r: bool)
    ensures
        r == is_white_space(c),
{
    let u: u32 = c as u32;
    (0x09 <= u && u <= 0x0D) || u == 0x20 || u == 0x85 || u == 0xA0 || u == 0x1680 || (0x2000 <= u
        && u <= 0x200A) || u == 0x2028 || u == 0x2029 || u == 0x202F || u == 0x205F || u == 0x3000
}

/// The characters of `s`, in order.
pub fn chars_of(s: &str) -> (v: Vec<char>)
    ensures
        v@ == s@,
{
    let mut v: Vec<char> = Vec::new();
    for c in it: s.chars()
        invariant
            v@ == it.seq().take(it.index() as int),
    {
        v.push(c);
    }
    v
}

/// Where the trimmed text stands in `chars`: it is `chars[from..to]`.
pub fn trim_bounds(chars: &Vec<char>) -> (bounds: (usize, usize))
    ensures
        bounds.0 <= bounds.1 <= chars.len(),
        chars@.subrange(bounds.0 as int, bounds.1 as int) == trimmed(chars@),
        trim_start(chars@) == chars@.skip(bounds.0 as int),
{
    let n: usize = chars.len();
    let mut from: usize = 0;
    while from < n && white_space(chars[from])
        invariant
            n == chars.len(),
            from <= n,
            forall|j: int| 0 <= j < from ==> is_white_space(chars@[j]),
        decreases n - from,
    {
        from += 1;
    }
    let mut to: usize = n;
    while to > from && white_space(chars[to - 1])
        invariant
            n == chars.len(),
            from <= to <= n,
            forall|j: int| to <= j < n ==> is_white_space(chars@[j]),
        decreases to,
    {
        to -= 1;
    }
    proof {
        let front = chars@.skip(from as int);
        trim_start_skips(chars@, from as int);
        assert(trim_start(front) == front);
        trim_end_takes(front, to - from);
        let kept = front.take(to - from);
        assert(kept =~= chars@.subrange(from as int, to as int));
        assert(trim_end(kept) == kept);
    }
    (from, to)
}

/// `s` without leading and trailing white space.
pub fn trim(s: &str) -> (t: String)
    ensures
        t@ == trimmed(s@),
{
    let chars = chars_of(s);
    let (from, to) = trim_bounds(&chars);
    String::from_str(s.substring_char(from, to))
}

/// Whether `chars[from..to]` starts with `prefix`.
pub fn has_prefix_within(chars: &Vec<char>, from: usize, to: usize, prefix: &Vec<char>) -> (r:
    bool)
    requires
        from <= to <= chars.len(),
    ensures
        r == prefix@.is_prefix_of(chars@.subrange(from as int, to as int)),
{
    let m: usize = prefix.len();
    if to - from < m {
        return false;
    }
    let ghost part = chars@.subrange(from as int, to as int);
    let mut i: usize = 0;
    while i < m
        invariant
            m == prefix.len(),
            from + m <= to <= chars.len(),
            i <= m,
            part == chars@.subrange(from as int, to as int),
            forall|j: int| 0 <= j < i ==> prefix@[j] == chars@[from + j],
        decreases m - i,
    {
        if prefix[i] != chars[from + i] {
            proof {
                assert(part.subrange(0, m as int)[i as int] == chars@[from + i]);
            }
            return false;
        }
        i += 1;
    }
    assert(prefix@ =~= part.subrange(0, m as int));
    true
}

/// Whether the two texts hold the same characters.
pub fn same_text(a: &str, b: &str) -> (r: bool)
    ensures
        r == (a@ == b@),
{
    let left = chars_of(a);
    let right = chars_of(b);
    if left.len() != right.len() {
        return false;
    }
    let whole = has_prefix_within(&left, 0, left.len(), &right);
    proof {
        assert(left@.subrange(0, left@.len() as int) =~= left@);
        if whole {
            assert(left@.subrange(0, right@.len() as int) =~= left@);
        }
    }
    whole
}

/// The lines of `content`.
pub fn lines(content: &str) -> (out: Vec<String>)
    ensures
        out.deep_view() == lines_of(content@),
{
    let chars = chars_of(content);
    let n: usize = chars.len();
    let mut out: Vec<String> = Vec::new();
    let mut start: usize = 0;
    proof {
        assert(content@.skip(0) =~= content@);
        assert(out.deep_view() =~= Seq::<Seq<char>>::empty());
    }
    while start < n
        invariant
            n == chars.len(),
            chars@ == content@,
            start <= n,
            lines_of(content@) == out.deep_view() + lines_of(content@.skip(start as int)),
        decreases n - start,
    {
        let mut end: usize = start;
        while end < n && chars[end] != '\n'
            invariant
                n == chars.len(),
                start <= end <= n,
                forall|j: int| start <= j < end ==> chars@[j] != '\n',
            decreases n - end,
        {
            end += 1;
        }
        let stop: usize = if end < n && end > start && chars[end - 1] == '\r' {
            end - 1
        } else {
            end
        };
        let line = String::from_str(content.substring_char(start, stop));
        let ghost before = out.deep_view();
        let ghost rest = content@.skip(start as int);
        out.push(line);
        proof {
            line_break_is_first(rest, end - start);
            assert(out.deep_view() =~= before.push(line@));
            if end < n {
                assert(rest.take(end - start) =~= content@.subrange(start as int, end as int));
                assert(rest.skip(end - start + 1) =~= content@.skip(end + 1));
                assert(line@ =~= without_carriage_return(rest.take(end - start)));
                assert(before + (seq![line@] + lines_of(content@.skip(end + 1)))
                    =~= before.push(line@) + lines_of(content@.skip(end + 1)));
            } else {
                assert(line@ =~= rest);
                assert(lines_of(content@.skip(n as int)) =~= Seq::<Seq<char>>::empty());
                assert(before + seq![rest] =~= before.push(line@) + Seq::<Seq<char>>::empty());
            }
        }
        start = if end < n {
            end + 1
        } else {
            end
        };
    }
    proof {
        assert(lines_of(content@.skip(n as int)) =~= Seq::<Seq<char>>::empty());
        assert(out.deep_view() + Seq::<Seq<char>>::empty() =~= out.deep_view());
    }
    out
}

/// The lines put together with a line feed between neighbours.
pub fn join_lines(lines: &Vec<String>) -> (text: String)
    ensures
        text@ == joined_lines(lines.deep_view()),
{
    let mut text = String::new();
    let mut i: usize = 0;
    proof {
        assert(lines.deep_view().take(0) =~= Seq::<Seq<char>>::empty());
    }
    while i < lines.len()
        invariant
            i <= lines.len(),
            text@ == joined_lines(lines.deep_view().take(i as int)),
        decreases lines.len() - i,
    {
        let ghost done = lines.deep_view().take(i as int);
        let ghost next = lines.deep_view().take(i + 1);
        proof {
            reveal_strlit("\n");
            assert(next.drop_last() =~= done);
            assert(next.last() == lines@[i as int]@);
            assert("\n"@ =~= seq!['\n']);
        }
        if i > 0 {
            text.append("\n");
        }
        text.append(lines[i].as_str());
        i += 1;
    }
    proof {
        assert(lines.deep_view().take(lines.len() as int) =~= lines.deep_view());
    }
    text
}

} // verus!
