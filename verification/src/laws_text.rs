//! Properties of the character model: which characters are whitespace, what
//! trimming removes, how text splits into lines and what decimal text reads as.
use vstd::prelude::*;

use crate::text::{
    decimal, digit_char, is_trimmed, is_whitespace, lemma_trim_end_prefix,
    lemma_trim_is_trimmed_slice, lemma_trim_start_suffix, lines, trim, trim_end, trim_start,
};

verus! {

/// Among ASCII characters, exactly space, tab, line feed, vertical tab, form
/// feed and carriage return are whitespace; quotes, `#`, `:` and every other
/// printable character are not.
pub proof fn law_ascii_whitespace(c: char)
    requires
        (c as u32) < 0x80,
    ensures
        is_whitespace(c) <==> (c == ' ' || c == '\t' || c == '\n' || c == '\u{b}' || c == '\u{c}'
            || c == '\r'),
{
}

/// Beyond ASCII, exactly the Unicode `White_Space` code points are whitespace:
/// U+0085, U+00A0, U+1680, U+2000 to U+200A, U+2028, U+2029, U+202F, U+205F
/// and U+3000.
pub proof fn law_non_ascii_whitespace(c: char)
    requires
        (c as u32) >= 0x80,
    ensures
        is_whitespace(c) <==> ((c as u32) == 0x85 || (c as u32) == 0xa0 || (c as u32) == 0x1680
            || (0x2000 <= (c as u32) && (c as u32) <= 0x200a) || (c as u32) == 0x2028
            || (c as u32) == 0x2029 || (c as u32) == 0x202f || (c as u32) == 0x205f
            || (c as u32) == 0x3000),
{
}

/// Trimming removes whitespace from both ends and nothing else: what is left
/// is a contiguous piece of the text, every character cut before or after it
/// is whitespace, and it neither starts nor ends with whitespace.
pub proof fn law_trim_removes_only_whitespace_ends(s: Seq<char>)
    ensures
        exists|lo: int, hi: int|
            0 <= lo <= hi <= s.len() && trim(s) == s.subrange(lo, hi) && (forall|j: int|
                0 <= j < lo ==> is_whitespace(#[trigger] s[j])) && (forall|j: int|
                hi <= j < s.len() ==> is_whitespace(#[trigger] s[j])),
        is_trimmed(trim(s)),
{
    lemma_trim_is_trimmed_slice(s);
    lemma_trim_start_suffix(s);
    let a = choose|k: int|
        0 <= k <= s.len() && trim_start(s) == s.skip(k) && (forall|j: int|
            0 <= j < k ==> is_whitespace(#[trigger] s[j])) && (k == s.len() || !is_whitespace(
            s[k]));
    let t = s.skip(a);
    lemma_trim_end_prefix(t);
    let b = choose|k: int|
        0 <= k <= t.len() && trim_end(t) == t.take(k) && (forall|j: int|
            k <= j < t.len() ==> is_whitespace(#[trigger] t[j])) && (k == 0 || !is_whitespace(
            t[k - 1]));
    assert(t.take(b) =~= s.subrange(a, a + b));
    assert forall|j: int| a + b <= j < s.len() implies is_whitespace(#[trigger] s[j]) by {
        assert(s[j] == t[j - a]);
    }
    assert(trim(s) == s.subrange(a, a + b));
}

/// Text without whitespace at its ends is left as it is by trimming.
pub proof fn law_trim_keeps_trimmed_text(s: Seq<char>)
    requires
        is_trimmed(s),
    ensures
        trim(s) == s,
{
    if s.len() > 0 {
        assert(trim_start(s) == s);
        assert(trim_end(s) == s);
    }
}

/// No line contains a line feed, and joining the lines with line feeds gives
/// back the text, up to one final line feed.
pub proof fn law_lines_rejoin(s: Seq<char>)
    ensures
        forall|i: int, j: int|
            0 <= i < lines(s).len() && 0 <= j < lines(s)[i].len() ==> lines(s)[i][j] != '\n',
        joined(lines(s)) == s || joined(lines(s)).push('\n') == s,
    decreases s.len(),
{
    if s.len() > 0 {
        let e = crate::text::span_until(s, '\n');
        lemma_span_bounds(s, '\n');
        if e >= s.len() {
            assert(lines(s) == seq![s]);
            assert(joined(seq![s]) == s) by {
                assert(seq![s].drop_first() =~= Seq::<Seq<char>>::empty());
            }
        } else {
            let rest = s.skip(e as int + 1);
            law_lines_rejoin(rest);
            let head = s.take(e as int);
            assert(lines(s) == seq![head] + lines(rest));
            let ls = lines(s);
            assert(ls.drop_first() =~= lines(rest));
            assert forall|i: int, j: int|
                0 <= i < ls.len() && 0 <= j < ls[i].len() implies ls[i][j] != '\n' by {
                if i > 0 {
                    assert(ls[i] == lines(rest)[i - 1]);
                }
            }
            if lines(rest).len() == 0 {
                assert(rest.len() == 0) by {
                    if rest.len() > 0 {
                        lemma_lines_nonempty(rest);
                    }
                }
                assert(joined(ls) == head);
                assert(head.push('\n') =~= s);
            } else {
                assert(joined(ls) == head + seq!['\n'] + joined(lines(rest)));
                if joined(lines(rest)) == rest {
                    assert(head + seq!['\n'] + rest =~= s);
                } else {
                    assert(joined(ls).push('\n') =~= head + seq!['\n'] + joined(lines(rest)).push(
                        '\n',
                    ));
                    assert(head + seq!['\n'] + rest =~= s);
                }
            }
        }
    }
}

/// The pieces `ls` joined with a line feed between each two.
pub open spec fn joined(ls: Seq<Seq<char>>) -> Seq<char>
    decreases ls.len(),
{
    if ls.len() == 0 {
        seq![]
    } else if ls.len() == 1 {
        ls[0]
    } else {
        ls[0] + seq!['\n'] + joined(ls.drop_first())
    }
}

proof fn lemma_lines_nonempty(s: Seq<char>)
    requires
        s.len() > 0,
    ensures
        lines(s).len() > 0,
{
}

pub proof fn lemma_span_bounds(s: Seq<char>, c: char)
    ensures
        crate::text::span_until(s, c) <= s.len(),
        forall|j: int| 0 <= j < crate::text::span_until(s, c) ==> s[j] != c,
        crate::text::span_until(s, c) < s.len() ==> s[crate::text::span_until(s, c) as int] == c,
    decreases s.len(),
{
    if s.len() > 0 && s[0] != c {
        lemma_span_bounds(s.drop_first(), c);
        assert forall|j: int| 0 <= j < crate::text::span_until(s, c) implies s[j] != c by {
            if j > 0 {
                assert(s[j] == s.drop_first()[j - 1]);
            }
        }
    }
}

/// The number that decimal digits `s` stand for, most significant first.
pub open spec fn digits_value(s: Seq<char>) -> int
    decreases s.len(),
{
    if s.len() == 0 {
        0
    } else {
        digits_value(s.drop_last()) * 10 + ((s.last() as u32) - ('0' as u32))
    }
}

/// `decimal(n)` is a non-empty run of the digits `0` to `9`, without a leading
/// zero unless it is `0` itself, that reads back as `n`.
pub proof fn law_decimal_reads_back(n: nat)
    ensures
        decimal(n).len() > 0,
        forall|i: int| 0 <= i < decimal(n).len() ==> '0' <= #[trigger] decimal(n)[i] <= '9',
        decimal(n)[0] == '0' ==> n == 0,
        digits_value(decimal(n)) == n,
    decreases n,
{
    if n < 10 {
        lemma_digit_char(n);
        assert(decimal(n) == seq![digit_char(n)]);
        assert(seq![digit_char(n)].drop_last() =~= Seq::<char>::empty());
        assert(digits_value(seq![digit_char(n)]) == digits_value(Seq::<char>::empty()) * 10 + (
        (digit_char(n) as u32) - ('0' as u32)));
    } else {
        law_decimal_reads_back(n / 10);
        lemma_digit_char(n % 10);
        let d = decimal(n / 10);
        assert(decimal(n) == d + seq![digit_char(n % 10)]);
        assert((d + seq![digit_char(n % 10)]).drop_last() =~= d);
        assert(n == (n / 10) * 10 + n % 10);
        assert(digits_value(d + seq![digit_char(n % 10)]) == digits_value(d) * 10 + ((digit_char(
            n % 10,
        ) as u32) - ('0' as u32)));
        assert forall|i: int| 0 <= i < decimal(n).len() implies '0' <= #[trigger] decimal(n)[i]
            <= '9' by {
            if i < d.len() {
                assert(decimal(n)[i] == d[i]);
            }
        }
        assert(decimal(n)[0] == d[0]);
    }
}

proof fn lemma_digit_char(d: nat)
    requires
        d < 10,
    ensures
        '0' <= digit_char(d) <= '9',
        (digit_char(d) as u32) - ('0' as u32) == d,
        digit_char(d) == '0' <==> d == 0,
{
}

} // verus!
