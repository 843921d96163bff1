//! Verified predicates on character sequences: prefix test, substring
//! search, and ASCII lowercasing.
//!
//! The specs speak over `Seq<char>` views of `&str`; the executable
//! functions walk the strings character by character. Lowercasing folds the
//! 26 ASCII capitals and leaves every other character alone.

use vstd::prelude::*;
use vstd::string::StrSliceExecFns;
use vstd::string::StringExecFns;

verus! {

/// ASCII lowercase of one character.
pub open spec fn lower_char_s(c: char) -> char {
    if c == 'A' {
        'a'
    } else if c == 'B' {
        'b'
    } else if c == 'C' {
        'c'
    } else if c == 'D' {
        'd'
    } else if c == 'E' {
        'e'
    } else if c == 'F' {
        'f'
    } else if c == 'G' {
        'g'
    } else if c == 'H' {
        'h'
    } else if c == 'I' {
        'i'
    } else if c == 'J' {
        'j'
    } else if c == 'K' {
        'k'
    } else if c == 'L' {
        'l'
    } else if c == 'M' {
        'm'
    } else if c == 'N' {
        'n'
    } else if c == 'O' {
        'o'
    } else if c == 'P' {
        'p'
    } else if c == 'Q' {
        'q'
    } else if c == 'R' {
        'r'
    } else if c == 'S' {
        's'
    } else if c == 'T' {
        't'
    } else if c == 'U' {
        'u'
    } else if c == 'V' {
        'v'
    } else if c == 'W' {
        'w'
    } else if c == 'X' {
        'x'
    } else if c == 'Y' {
        'y'
    } else if c == 'Z' {
        'z'
    } else {
        c
    }
}

/// ASCII lowercase of one character.
pub fn lower_char(c: char) -> (r: char)
    ensures
        r == lower_char_s(c),
{
    if c == 'A' {
        'a'
    } else if c == 'B' {
        'b'
    } else if c == 'C' {
        'c'
    } else if c == 'D' {
        'd'
    } else if c == 'E' {
        'e'
    } else if c == 'F' {
        'f'
    } else if c == 'G' {
        'g'
    } else if c == 'H' {
        'h'
    } else if c == 'I' {
        'i'
    } else if c == 'J' {
        'j'
    } else if c == 'K' {
        'k'
    } else if c == 'L' {
        'l'
    } else if c == 'M' {
        'm'
    } else if c == 'N' {
        'n'
    } else if c == 'O' {
        'o'
    } else if c == 'P' {
        'p'
    } else if c == 'Q' {
        'q'
    } else if c == 'R' {
        'r'
    } else if c == 'S' {
        's'
    } else if c == 'T' {
        't'
    } else if c == 'U' {
        'u'
    } else if c == 'V' {
        'v'
    } else if c == 'W' {
        'w'
    } else if c == 'X' {
        'x'
    } else if c == 'Y' {
        'y'
    } else if c == 'Z' {
        'z'
    } else {
        c
    }
}

/// ASCII lowercase of a character sequence.
pub open spec fn lower_seq_s(s: Seq<char>) -> Seq<char> {
    Seq::new(s.len(), |i: int| lower_char_s(s[i]))
}

/// `p` occurs in `s` at offset `off`.
pub open spec fn matches_at_s(s: Seq<char>, p: Seq<char>, off: int) -> bool {
    0 <= off && off + p.len() <= s.len() && (forall|i: int|
        0 <= i < p.len() ==> s[off + i] == p[i])
}

/// `p` occurs somewhere in `s`.
pub open spec fn contains_s(s: Seq<char>, p: Seq<char>) -> bool {
    exists|off: int| matches_at_s(s, p, off)
}

/// `s` begins with `p`.
pub open spec fn starts_with_s(s: Seq<char>, p: Seq<char>) -> bool {
    matches_at_s(s, p, 0)
}

/// Does `s` begin with `p`?
pub fn starts_with_chars(s: &str, p: &str) -> (r: bool)
    ensures
        r == starts_with_s(s@, p@),
{
    let n = s.unicode_len();
    let m = p.unicode_len();
    if m > n {
        return false;
    }
    let mut j: usize = 0;
    while j < m
        invariant
            m <= n,
            n == s@.len(),
            m == p@.len(),
            j <= m,
            forall|k: int| 0 <= k < j ==> s@[k] == p@[k],
        decreases m - j,
    {
        if s.get_char(j) != p.get_char(j) {
            return false;
        }
        j = j + 1;
    }
    true
}

/// Does `p` occur in `s`?
pub fn contains_chars(s: &str, p: &str) -> (r: bool)
    ensures
        r == contains_s(s@, p@),
{
    let n = s.unicode_len();
    let m = p.unicode_len();
    if m > n {
        return false;
    }
    let mut off: usize = 0;
    while off <= n - m
        invariant
            m <= n,
            n == s@.len(),
            m == p@.len(),
            off <= n - m + 1,
            forall|o: int| 0 <= o < off ==> !matches_at_s(s@, p@, o),
        decreases n - off,
    {
        let mut j: usize = 0;
        let mut hit = true;
        while j < m
            invariant
                m <= n,
                n == s@.len(),
                m == p@.len(),
                off + m <= n,
                j <= m,
                hit ==> forall|k: int| 0 <= k < j ==> s@[off + k] == p@[k],
                !hit ==> !matches_at_s(s@, p@, off as int),
            decreases m - j,
        {
            if hit && s.get_char(off + j) != p.get_char(j) {
                hit = false;
            }
            j = j + 1;
        }
        if hit {
            assert(matches_at_s(s@, p@, off as int));
            return true;
        }
        off = off + 1;
    }
    false
}

/// Does `p` occur in the ASCII-lowercased `s`?
pub fn contains_lower_chars(s: &str, p: &str) -> (r: bool)
    ensures
        r == contains_s(lower_seq_s(s@), p@),
{
    let n = s.unicode_len();
    let m = p.unicode_len();
    if m > n {
        return false;
    }
    let mut off: usize = 0;
    while off <= n - m
        invariant
            m <= n,
            n == s@.len(),
            m == p@.len(),
            off <= n - m + 1,
            forall|o: int| 0 <= o < off ==> !matches_at_s(lower_seq_s(s@), p@, o),
        decreases n - off,
    {
        let mut j: usize = 0;
        let mut hit = true;
        while j < m
            invariant
                m <= n,
                n == s@.len(),
                m == p@.len(),
                off + m <= n,
                j <= m,
                hit ==> forall|k: int| 0 <= k < j ==> lower_seq_s(s@)[off + k] == p@[k],
                !hit ==> !matches_at_s(lower_seq_s(s@), p@, off as int),
            decreases m - j,
        {
            if hit && lower_char(s.get_char(off + j)) != p.get_char(j) {
                hit = false;
            }
            j = j + 1;
        }
        if hit {
            assert(matches_at_s(lower_seq_s(s@), p@, off as int));
            return true;
        }
        off = off + 1;
    }
    false
}


/// `i` is the first position of a line of `s` (the start, or just after a
/// newline).
pub open spec fn is_line_start(s: Seq<char>, i: int) -> bool {
    i == 0 || s[i - 1] == '\n'
}

/// The position where the line that contains position `i` ends: the next
/// newline at or after `i`, or the end of `s`.
pub open spec fn line_end(s: Seq<char>, i: int) -> int
    decreases s.len() - i,
{
    if i < 0 || i >= s.len() {
        s.len() as int
    } else if s[i] == '\n' {
        i
    } else {
        line_end(s, i + 1)
    }
}

/// The line end lies between its start position and the end of `s`.
pub proof fn lemma_line_end_range(s: Seq<char>, i: int)
    requires
        0 <= i <= s.len(),
    ensures
        i <= line_end(s, i) <= s.len(),
    decreases s.len() - i,
{
    if i < s.len() && s[i] != '\n' {
        lemma_line_end_range(s, i + 1);
    }
}

/// `line_end` is characterized by: no newline before it, a newline or the
/// end of the sequence at it.
proof fn lemma_line_end_characterize(s: Seq<char>, i: int, e: int)
    requires
        0 <= i <= e <= s.len(),
        forall|j: int| i <= j < e ==> s[j] != '\n',
        e == s.len() || s[e] == '\n',
    ensures
        line_end(s, i) == e,
    decreases e - i,
{
    if i == e {
    } else {
        lemma_line_end_characterize(s, i + 1, e);
    }
}

/// No line of `s` that starts before position `k` begins with `p`.
pub open spec fn no_prefixed_line_before(s: Seq<char>, p: Seq<char>, k: int) -> bool {
    forall|t: int| 0 <= t < k && is_line_start(s, t) ==> !matches_at_s(s, p, t)
}

/// What it means for `r` to be the value of the first line of `s` that
/// begins with the prefix `p`: the text between the prefix and the line's
/// end, or nothing when no line begins with `p`.
pub open spec fn found_line_value(s: Seq<char>, p: Seq<char>, r: Option<String>) -> bool {
    match r {
        Some(val) => exists|i: int|
            #![trigger matches_at_s(s, p, i)]
            is_line_start(s, i) && matches_at_s(s, p, i) && val@ == s.subrange(
                i + p.len(),
                line_end(s, i + p.len()),
            ) && no_prefixed_line_before(s, p, i),
        None => no_prefixed_line_before(s, p, s.len() + 1int),
    }
}

/// Does `p` occur in `s` at offset `off`?
fn matches_prefix_at(s: &str, p: &str, off: usize, n: usize, m: usize) -> (r: bool)
    requires
        n == s@.len(),
        m == p@.len(),
        off <= n,
    ensures
        r == matches_at_s(s@, p@, off as int),
{
    if m > n - off {
        return false;
    }
    let mut j: usize = 0;
    while j < m
        invariant
            n == s@.len(),
            m == p@.len(),
            off + m <= n,
            j <= m,
            forall|k: int| 0 <= k < j ==> s@[off + k] == p@[k],
        decreases m - j,
    {
        if s.get_char(off + j) != p.get_char(j) {
            return false;
        }
        j = j + 1;
    }
    true
}

/// The value of the first line of `content` that begins with `prefix`: the
/// rest of that line after the prefix, or nothing when no line begins with
/// it.
pub fn line_value_after_prefix(content: &str, prefix: &str) -> (r: Option<String>)
    ensures
        found_line_value(content@, prefix@, r),
{
    let n = content.unicode_len();
    let m = prefix.unicode_len();
    let mut k: usize = 0;
    while k < n
        invariant
            n == content@.len(),
            m == prefix@.len(),
            k <= n,
            no_prefixed_line_before(content@, prefix@, k as int),
        decreases n - k,
    {
        let at_start = k == 0 || content.get_char(k - 1) == '\n';
        if at_start && matches_prefix_at(content, prefix, k, n, m) {
            let mut e: usize = k + m;
            while e < n
                invariant_except_break
                    n == content@.len(),
                    k + m <= e <= n,
                    forall|j: int| k + m <= j < e ==> content@[j] != '\n',
                ensures
                    k + m <= e <= n,
                    forall|j: int| k + m <= j < e ==> content@[j] != '\n',
                    e == n || content@[e as int] == '\n',
                decreases n - e,
            {
                if content.get_char(e) == '\n' {
                    break;
                }
                e = e + 1;
            }
            proof {
                lemma_line_end_characterize(content@, k + m, e as int);
            }
            let line = content.substring_char(k + m, e);
            return Some(String::from_str(line));
        }
        k = k + 1;
    }
    let at_end_start = n == 0 || content.get_char(n - 1) == '\n';
    if at_end_start && matches_prefix_at(content, prefix, n, n, m) {
        proof {
            lemma_line_end_characterize(content@, n as int, n as int);
        }
        let line = content.substring_char(n, n);
        return Some(String::from_str(line));
    }
    None
}


/// The end of a line with a trailing carriage return stripped.
pub open spec fn strip_cr(s: Seq<char>, pos: int, e: int) -> int {
    if e > pos && s[e - 1] == '\r' {
        e - 1
    } else {
        e
    }
}

/// The text of `s` from position `pos` on, line by line, with every line
/// that begins with `p` replaced by `p` followed by `v`. Lines are joined
/// with a plain newline, a trailing carriage return is stripped from each
/// kept line, and a trailing newline of `s` is dropped.
pub open spec fn replace_prefixed_from(s: Seq<char>, p: Seq<char>, v: Seq<char>, pos: int) -> Seq<
    char,
>
    decreases s.len() - pos,
    via replace_prefixed_from_decreases
{
    if pos < 0 || pos >= s.len() {
        Seq::empty()
    } else {
        let e = line_end(s, pos);
        let line = if matches_at_s(s, p, pos) {
            p + v
        } else {
            s.subrange(pos, strip_cr(s, pos, e))
        };
        if e >= s.len() - 1 {
            line
        } else {
            line + seq!['\n'] + replace_prefixed_from(s, p, v, e + 1)
        }
    }
}

#[via_fn]
proof fn replace_prefixed_from_decreases(s: Seq<char>, p: Seq<char>, v: Seq<char>, pos: int) {
    if 0 <= pos < s.len() {
        lemma_line_end_range(s, pos);
    }
}

/// Rewrite `content` line by line: every line that begins with `prefix` is
/// replaced by the prefix followed by `value`, every other line is kept.
/// Lines come back joined with plain newlines, without a trailing newline.
pub fn replace_prefixed_lines(content: &str, prefix: &str, value: &str) -> (r: String)
    ensures
        r@ == replace_prefixed_from(content@, prefix@, value@, 0),
{
    let n = content.unicode_len();
    let m = prefix.unicode_len();
    let mut out = String::new();
    let mut pos: usize = 0;
    proof {
        reveal_strlit("\n");
    }
    while pos < n
        invariant
            n == content@.len(),
            m == prefix@.len(),
            pos <= n,
            "\n"@ =~= seq!['\n'],
            out@ + replace_prefixed_from(content@, prefix@, value@, pos as int)
                =~= replace_prefixed_from(content@, prefix@, value@, 0),
        decreases n - pos,
    {
        let mut e: usize = pos;
        while e < n
            invariant_except_break
                n == content@.len(),
                pos <= e <= n,
                forall|j: int| pos <= j < e ==> content@[j] != '\n',
            ensures
                pos <= e <= n,
                forall|j: int| pos <= j < e ==> content@[j] != '\n',
                e == n || content@[e as int] == '\n',
            decreases n - e,
        {
            if content.get_char(e) == '\n' {
                break;
            }
            e = e + 1;
        }
        proof {
            lemma_line_end_characterize(content@, pos as int, e as int);
        }
        let e2: usize = if e > pos && content.get_char(e - 1) == '\r' {
            e - 1
        } else {
            e
        };
        let ghost out_before = out@;
        let ghost line = if matches_at_s(content@, prefix@, pos as int) {
            prefix@ + value@
        } else {
            content@.subrange(pos as int, e2 as int)
        };
        if matches_prefix_at(content, prefix, pos, n, m) {
            out.append(prefix);
            out.append(value);
        } else {
            out.append(content.substring_char(pos, e2));
        }
        proof {
            assert(out@ =~= out_before + line);
        }
        if e < n - 1 {
            out.append("\n");
            proof {
                assert(out@ =~= out_before + (line + seq!['\n']));
                assert(out_before + (line + seq!['\n']) + replace_prefixed_from(
                    content@,
                    prefix@,
                    value@,
                    e + 1,
                ) =~= out_before + replace_prefixed_from(content@, prefix@, value@, pos as int));
            }
            pos = e + 1;
        } else {
            proof {
                assert(out@ + Seq::<char>::empty() =~= out_before + line);
                assert(replace_prefixed_from(content@, prefix@, value@, pos as int) == line);
            }
            pos = n;
        }
    }
    proof {
        assert(out@ + replace_prefixed_from(content@, prefix@, value@, n as int) =~= out@);
    }
    out
}

} // verus!
