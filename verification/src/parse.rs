//! Parsing process-enumeration output.
//!
//! The process directory answers a query with one line of text per matching
//! process, each line carrying a decimal process identifier, possibly
//! surrounded by whitespace. Parsing is deliberately lenient: a line that
//! does not hold a decimal number that fits in 64 bits is dropped, not an
//! error.

use vstd::prelude::*;

verus! {

/// Whitespace trimmed around a line: exactly the characters
/// `char::is_whitespace` reports (the Unicode White_Space set), so that
/// trimming agrees with the standard library's `str::trim` — carriage
/// returns among them, so lines separated by "\r\n" parse cleanly.
pub open spec fn is_space(c: char) -> bool {
    ||| c == ' '
    ||| c == '\u{9}'
    ||| c == '\u{A}'
    ||| c == '\u{B}'
    ||| c == '\u{C}'
    ||| c == '\u{D}'
    ||| c == '\u{85}'
    ||| c == '\u{A0}'
    ||| c == '\u{1680}'
    ||| ('\u{2000}' <= c && c <= '\u{200A}')
    ||| c == '\u{2028}'
    ||| c == '\u{2029}'
    ||| c == '\u{202F}'
    ||| c == '\u{205F}'
    ||| c == '\u{3000}'
}

/// A decimal digit.
pub open spec fn is_digit(c: char) -> bool {
    '0' <= c && c <= '9'
}

/// The value of one decimal digit.
pub open spec fn digit_val(c: char) -> nat {
    (c as int - '0' as int) as nat
}

/// The sequence with leading whitespace removed.
pub open spec fn trim_front(s: Seq<char>) -> Seq<char>
    decreases s.len(),
{
    if s.len() > 0 && is_space(s[0]) {
        trim_front(s.drop_first())
    } else {
        s
    }
}

/// The sequence with trailing whitespace removed.
pub open spec fn trim_back(s: Seq<char>) -> Seq<char>
    decreases s.len(),
{
    if s.len() > 0 && is_space(s.last()) {
        trim_back(s.drop_last())
    } else {
        s
    }
}

/// The sequence with surrounding whitespace removed.
pub open spec fn trim_ends(s: Seq<char>) -> Seq<char> {
    trim_back(trim_front(s))
}

/// True iff every character is a decimal digit.
pub open spec fn all_digits(s: Seq<char>) -> bool {
    forall|i: int| 0 <= i < s.len() ==> is_digit(s[i])
}

/// The value of a digit string, most significant digit first.
pub open spec fn digits_val(s: Seq<char>) -> nat
    decreases s.len(),
{
    if s.len() == 0 {
        0
    } else {
        digits_val(s.drop_last()) * 10 + digit_val(s.last())
    }
}

/// What parsing a piece of text as an unsigned 64-bit integer yields:
/// a value exactly when the text is non-empty, all digits, and the value
/// fits; `None` otherwise.
pub open spec fn parse_u64(s: Seq<char>) -> Option<u64> {
    if s.len() > 0 && all_digits(s) && digits_val(s) <= u64::MAX {
        Some(digits_val(s) as u64)
    } else {
        None
    }
}

/// The identifiers one line contributes: one value when the trimmed line
/// parses, nothing otherwise.
pub open spec fn line_pids(line: Seq<char>) -> Seq<u64> {
    match parse_u64(trim_ends(line)) {
        Some(v) => seq![v],
        None => Seq::empty(),
    }
}

/// The identifiers in the remaining text `s`, with `cur` the part of the
/// current line already read.
pub open spec fn pids_from(s: Seq<char>, cur: Seq<char>) -> Seq<u64>
    decreases s.len(),
{
    if s.len() == 0 {
        line_pids(cur)
    } else if s[0] == '\n' {
        line_pids(cur) + pids_from(s.drop_first(), Seq::empty())
    } else {
        pids_from(s.drop_first(), cur.push(s[0]))
    }
}

/// The process identifiers in process-enumeration output: the text is split
/// at newlines, each line is trimmed of surrounding whitespace, and each
/// trimmed line holding only decimal digits whose value fits in 64 bits
/// contributes that value, in text order; every other line is dropped.
pub open spec fn spec_pids(s: Seq<char>) -> Seq<u64> {
    pids_from(s, Seq::empty())
}

fn is_space_char(c: char) -> (r: bool)
    ensures
        r == is_space(c),
{
    c == ' ' || c == '\u{9}' || c == '\u{A}' || c == '\u{B}' || c == '\u{C}' || c == '\u{D}' || c
        == '\u{85}' || c == '\u{A0}' || c == '\u{1680}' || ('\u{2000}' <= c && c <= '\u{200A}') || c
        == '\u{2028}' || c == '\u{2029}' || c == '\u{202F}' || c == '\u{205F}' || c == '\u{3000}'
}

fn is_digit_char(c: char) -> (r: bool)
    ensures
        r == is_digit(c),
{
    '0' <= c && c <= '9'
}

fn digit_value(c: char) -> (d: u64)
    requires
        is_digit(c),
    ensures
        d as nat == digit_val(c),
        d < 10,
{
    (c as u32 - '0' as u32) as u64
}

/// The value of a digit-string prefix never exceeds the value of the whole.
proof fn lemma_digits_val_prefix(s: Seq<char>, j: int)
    requires
        0 <= j <= s.len(),
    ensures
        digits_val(s.take(j)) <= digits_val(s),
    decreases s.len() - j,
{
    if j == s.len() {
        assert(s.take(j) =~= s);
    } else {
        assert(s.take(j + 1).drop_last() =~= s.take(j));
        lemma_digits_val_prefix(s, j + 1);
    }
}

/// Parses one accumulated line, exactly as `parse_u64` of the trimmed line.
fn parse_line(line: &Vec<char>) -> (r: Option<u64>)
    ensures
        r == parse_u64(trim_ends(line@)),
{
    let n = line.len();
    let mut lo: usize = 0;
    proof {
        assert(line@.subrange(0, n as int) =~= line@);
    }
    while lo < n && is_space_char(line[lo])
        invariant
            n == line@.len(),
            lo <= n,
            trim_front(line@) == trim_front(line@.subrange(lo as int, n as int)),
        decreases n - lo,
    {
        proof {
            let t = line@.subrange(lo as int, n as int);
            assert(t[0] == line@[lo as int]);
            assert(t.drop_first() =~= line@.subrange(lo as int + 1, n as int));
        }
        lo = lo + 1;
    }
    proof {
        let t = line@.subrange(lo as int, n as int);
        assert(trim_front(t) == t);
        assert(trim_ends(line@) == trim_back(t));
    }
    let mut hi: usize = n;
    while hi > lo && is_space_char(line[hi - 1])
        invariant
            n == line@.len(),
            lo <= hi <= n,
            trim_ends(line@) == trim_back(line@.subrange(lo as int, hi as int)),
        decreases hi,
    {
        proof {
            let t = line@.subrange(lo as int, hi as int);
            assert(t.last() == line@[hi as int - 1]);
            assert(t.drop_last() =~= line@.subrange(lo as int, hi as int - 1));
        }
        hi = hi - 1;
    }
    proof {
        let core = line@.subrange(lo as int, hi as int);
        assert(trim_back(core) == core);
        assert(trim_ends(line@) == core);
    }
    if hi == lo {
        return None;
    }
    let mut v: u64 = 0;
    let mut j: usize = lo;
    proof {
        assert(line@.subrange(lo as int, lo as int) =~= Seq::<char>::empty());
    }
    while j < hi
        invariant
            n == line@.len(),
            lo <= j <= hi <= n,
            lo < hi,
            trim_ends(line@) == line@.subrange(lo as int, hi as int),
            forall|k: int| lo <= k < j ==> is_digit(line@[k]),
            v as nat == digits_val(line@.subrange(lo as int, j as int)),
        decreases hi - j,
    {
        let c = line[j];
        let ghost core = line@.subrange(lo as int, hi as int);
        if !is_digit_char(c) {
            proof {
                assert(core[j - lo] == line@[j as int]);
                assert(!all_digits(core));
            }
            return None;
        }
        let d = digit_value(c);
        proof {
            assert(line@.subrange(lo as int, j as int + 1).drop_last() =~= line@.subrange(
                lo as int,
                j as int,
            ));
            assert(line@.subrange(lo as int, j as int + 1).last() == line@[j as int]);
            assert(digits_val(line@.subrange(lo as int, j as int + 1)) == (v as nat) * 10 + (
            d as nat));
        }
        if v > u64::MAX / 10 || (v == u64::MAX / 10 && d > u64::MAX % 10) {
            proof {
                assert((v as nat) * 10 + (d as nat) > u64::MAX) by {
                    assert(u64::MAX == 10 * (u64::MAX / 10) + (u64::MAX % 10));
                }
                if all_digits(core) {
                    lemma_digits_val_prefix(core, j + 1 - lo as int);
                    assert(core.take(j + 1 - lo as int) =~= line@.subrange(
                        lo as int,
                        j as int + 1,
                    ));
                    assert(digits_val(core) > u64::MAX);
                }
            }
            return None;
        }
        v = v * 10 + d;
        j = j + 1;
    }
    proof {
        let core = line@.subrange(lo as int, hi as int);
        assert(forall|k: int| 0 <= k < core.len() ==> is_digit(core[k]));
        assert(parse_u64(trim_ends(line@)) == Some(v));
    }
    Some(v)
}

/// Extracts the process identifiers from raw process-enumeration output.
///
/// Every line that holds a (whitespace-surrounded) decimal number fitting
/// in 64 bits contributes its value, in text order; every other line is
/// silently dropped.
pub fn parse_pids(s: &str) -> (pids: Vec<u64>)
    ensures
        pids@ == spec_pids(s@),
{
    let n = s.unicode_len();
    let mut out: Vec<u64> = Vec::new();
    let mut cur: Vec<char> = Vec::new();
    let mut i: usize = 0;
    proof {
        assert(s@.skip(0) =~= s@);
    }
    while i < n
        invariant
            n == s@.len(),
            i <= n,
            spec_pids(s@) == out@ + pids_from(s@.skip(i as int), cur@),
        decreases n - i,
    {
        let c = s.get_char(i);
        proof {
            let t = s@.skip(i as int);
            assert(t[0] == s@[i as int]);
            assert(t.drop_first() =~= s@.skip(i as int + 1));
        }
        if c == '\n' {
            match parse_line(&cur) {
                Some(v) => out.push(v),
                None => (),
            }
            cur.clear();
        } else {
            cur.push(c);
        }
        proof {
            assert(spec_pids(s@) =~= out@ + pids_from(s@.skip(i as int + 1), cur@));
        }
        i = i + 1;
    }
    proof {
        assert(s@.skip(n as int) =~= Seq::<char>::empty());
    }
    match parse_line(&cur) {
        Some(v) => out.push(v),
        None => (),
    }
    proof {
        assert(out@ =~= spec_pids(s@));
    }
    out
}

} // verus!
