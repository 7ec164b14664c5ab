//! Character-level text handling: whitespace, trimming, line splitting and
//! decimal rendering, each stated over `Seq<char>` and implemented on exec values.
use vstd::prelude::*;

verus! {

/// The Unicode `White_Space` property, the set that `char::is_whitespace` and
/// `str::trim` go by.
pub open spec fn is_whitespace(c: char) -> bool {
    let u = c as u32;
    ||| 0x09 <= u <= 0x0d
    ||| u == 0x20
    ||| u == 0x85
    ||| u == 0xa0
    ||| u == 0x1680
    ||| 0x2000 <= u <= 0x200a
    ||| u == 0x2028
    ||| u == 0x2029
    ||| u == 0x202f
    ||| u == 0x205f
    ||| u == 0x3000
}

/// `s` without its leading whitespace.
pub open spec fn trim_start(s: Seq<char>) -> Seq<char>
    decreases s.len(),
{
    if s.len() > 0 && is_whitespace(s[0]) {
        trim_start(s.drop_first())
    } else {
        s
    }
}

/// `s` without its trailing whitespace.
pub open spec fn trim_end(s: Seq<char>) -> Seq<char>
    decreases s.len(),
{
    if s.len() > 0 && is_whitespace(s.last()) {
        trim_end(s.drop_last())
    } else {
        s
    }
}

/// `s` without leading and trailing whitespace.
pub open spec fn trim(s: Seq<char>) -> Seq<char> {
    trim_end(trim_start(s))
}

/// Neither the first nor the last character of `s` is whitespace.
pub open spec fn is_trimmed(s: Seq<char>) -> bool {
    s.len() > 0 ==> !is_whitespace(s[0]) && !is_whitespace(s.last())
}

/// The number of characters of `s` before the first `c` (all of `s` if it has none).
pub open spec fn span_until(s: Seq<char>, c: char) -> nat
    decreases s.len(),
{
    if s.len() == 0 || s[0] == c {
        0
    } else {
        1 + span_until(s.drop_first(), c)
    }
}

/// The lines of `s`: the pieces between `'\n'` characters, where a final
/// `'\n'` does not open another (empty) line. A `'\r'` before a `'\n'` stays in
/// its line; it is whitespace, so trimming removes it.
pub open spec fn lines(s: Seq<char>) -> Seq<Seq<char>>
    decreases s.len(),
{
    if s.len() == 0 {
        seq![]
    } else {
        let e = span_until(s, '\n');
        if e >= s.len() {
            seq![s]
        } else {
            seq![s.take(e as int)] + lines(s.skip(e as int + 1))
        }
    }
}

/// The decimal digit for `d < 10`.
pub open spec fn digit_char(d: nat) -> char {
    ((('0' as u32) + d) as u32) as char
}

/// The decimal representation of `n`, without leading zeros.
pub open spec fn decimal(n: nat) -> Seq<char>
    decreases n,
{
    if n < 10 {
        seq![digit_char(n)]
    } else {
        decimal(n / 10) + seq![digit_char(n % 10)]
    }
}

pub proof fn lemma_span_until(s: Seq<char>, c: char, k: int)
    requires
        0 <= k <= s.len(),
        forall|j: int| 0 <= j < k ==> s[j] != c,
        k == s.len() || s[k] == c,
    ensures
        span_until(s, c) == k,
    decreases k,
{
    if k > 0 {
        lemma_span_until(s.drop_first(), c, k - 1);
    }
}

pub proof fn lemma_trim_start(s: Seq<char>, k: int)
    requires
        0 <= k <= s.len(),
        forall|j: int| 0 <= j < k ==> is_whitespace(#[trigger] s[j]),
        k == s.len() || !is_whitespace(s[k]),
    ensures
        trim_start(s) == s.skip(k),
    decreases k,
{
    if k > 0 {
        lemma_trim_start(s.drop_first(), k - 1);
        assert(s.drop_first().skip(k - 1) =~= s.skip(k));
    } else {
        assert(s.skip(0) =~= s);
    }
}

pub proof fn lemma_trim_end(s: Seq<char>, k: int)
    requires
        0 <= k <= s.len(),
        forall|j: int| k <= j < s.len() ==> is_whitespace(#[trigger] s[j]),
        k == 0 || !is_whitespace(s[k - 1]),
    ensures
        trim_end(s) == s.take(k),
    decreases s.len() - k,
{
    if k < s.len() {
        lemma_trim_end(s.drop_last(), k);
        assert(s.drop_last().take(k) =~= s.take(k));
    } else {
        assert(s.take(k) =~= s);
    }
}

/// Trimming `s[lo..hi]`-style bounds found by scanning gives the trimmed slice.
pub proof fn lemma_trim_bounds(s: Seq<char>, a: int, lo: int, hi: int, b: int)
    requires
        0 <= a <= lo <= hi <= b <= s.len(),
        forall|j: int| a <= j < lo ==> is_whitespace(#[trigger] s[j]),
        forall|j: int| hi <= j < b ==> is_whitespace(#[trigger] s[j]),
        lo == hi ==> lo == b,
        lo < hi ==> !is_whitespace(s[lo]) && !is_whitespace(s[hi - 1]),
    ensures
        trim(s.subrange(a, b)) == s.subrange(lo, hi),
{
    let x = s.subrange(a, b);
    lemma_trim_start(x, lo - a);
    let y = x.skip(lo - a);
    assert(y =~= s.subrange(lo, b));
    lemma_trim_end(y, hi - lo);
    assert(y.take(hi - lo) =~= s.subrange(lo, hi));
}

pub proof fn lemma_trim_start_suffix(s: Seq<char>)
    ensures
        exists|k: int|
            0 <= k <= s.len() && trim_start(s) == s.skip(k) && (forall|j: int|
                0 <= j < k ==> is_whitespace(#[trigger] s[j])) && (k == s.len()
                || !is_whitespace(s[k])),
    decreases s.len(),
{
    if s.len() > 0 && is_whitespace(s[0]) {
        lemma_trim_start_suffix(s.drop_first());
        let k = choose|k: int|
            0 <= k <= s.drop_first().len() && trim_start(s.drop_first()) == s.drop_first().skip(k)
                && (forall|j: int| 0 <= j < k ==> is_whitespace(#[trigger] s.drop_first()[j])) && (
            k == s.drop_first().len() || !is_whitespace(s.drop_first()[k]));
        assert(s.drop_first().skip(k) =~= s.skip(k + 1));
        assert forall|j: int| 0 <= j < k + 1 implies is_whitespace(#[trigger] s[j]) by {
            if j > 0 {
                assert(s[j] == s.drop_first()[j - 1]);
            }
        }
    } else {
        assert(s.skip(0) =~= s);
    }
}

pub proof fn lemma_trim_end_prefix(s: Seq<char>)
    ensures
        exists|k: int|
            0 <= k <= s.len() && trim_end(s) == s.take(k) && (forall|j: int|
                k <= j < s.len() ==> is_whitespace(#[trigger] s[j])) && (k == 0 || !is_whitespace(
                s[k - 1])),
    decreases s.len(),
{
    if s.len() > 0 && is_whitespace(s.last()) {
        lemma_trim_end_prefix(s.drop_last());
        let k = choose|k: int|
            0 <= k <= s.drop_last().len() && trim_end(s.drop_last()) == s.drop_last().take(k)
                && (forall|j: int|
                k <= j < s.drop_last().len() ==> is_whitespace(#[trigger] s.drop_last()[j])) && (
            k == 0 || !is_whitespace(s.drop_last()[k - 1]));
        assert(s.drop_last().take(k) =~= s.take(k));
        assert forall|j: int| k <= j < s.len() implies is_whitespace(#[trigger] s[j]) by {
            if j < s.len() - 1 {
                assert(s[j] == s.drop_last()[j]);
            }
        }
    } else {
        assert(s.take(s.len() as int) =~= s);
    }
}

/// What `trim` returns is a contiguous piece of its argument, with no
/// whitespace at either end.
pub proof fn lemma_trim_is_trimmed_slice(s: Seq<char>)
    ensures
        is_trimmed(trim(s)),
        exists|lo: int, hi: int| 0 <= lo <= hi <= s.len() && trim(s) == s.subrange(lo, hi),
{
    lemma_trim_start_suffix(s);
    let a = choose|k: int|
        0 <= k <= s.len() && trim_start(s) == s.skip(k) && (forall|j: int|
            0 <= j < k ==> is_whitespace(#[trigger] s[j])) && (k == s.len() || !is_whitespace(
            s[k]));
    let t = s.skip(a);
    lemma_trim_end_prefix(t);
    let b = choose|k: int|
        0 <= k <= t.len() && trim_end(t) == t.take(k) && (forall|j: int|
            k <= j < t.len() ==> is_whitespace(#[trigger] t[j])) && (k == 0 || !is_whitespace(
            t[k - 1]));
    assert(t.take(b) =~= s.subrange(a, a + b));
    if b > 0 {
        assert(t.take(b)[0] == s[a]);
    }
}

/// The decimal digit `d` as a one-character string.
pub fn digit_str(d: u64) -> (s: &'static str)
    requires
        d < 10,
    ensures
        s@ == seq![digit_char(d as nat)],
{
    proof {
        reveal_strlit("0");
        reveal_strlit("1");
        reveal_strlit("2");
        reveal_strlit("3");
        reveal_strlit("4");
        reveal_strlit("5");
        reveal_strlit("6");
        reveal_strlit("7");
        reveal_strlit("8");
        reveal_strlit("9");
    }
    match d {
        0 => "0",
        1 => "1",
        2 => "2",
        3 => "3",
        4 => "4",
        5 => "5",
        6 => "6",
        7 => "7",
        8 => "8",
        _ => "9",
    }
}

/// Appends the decimal representation of `n` to `s`.
pub fn push_decimal(s: &mut String, n: u64)
    ensures
        final(s)@ == old(s)@ + decimal(n as nat),
    decreases n,
{
    if n >= 10 {
        push_decimal(s, n / 10);
    }
    let d = digit_str(n % 10);
    s.append(d);
    assert(final(s)@ =~= old(s)@ + decimal(n as nat));
}

/// Whether `c` is Unicode whitespace.
pub fn is_whitespace_char(c: char) -> (b: bool)
    ensures
        b == is_whitespace(c),
{
    let u = c as u32;
    (0x09 <= u && u <= 0x0d) || u == 0x20 || u == 0x85 || u == 0xa0 || u == 0x1680 || (0x2000
        <= u && u <= 0x200a) || u == 0x2028 || u == 0x2029 || u == 0x202f || u == 0x205f || u
        == 0x3000
}

/// The characters of `s`, in order.
pub fn chars_of(s: &str) -> (v: Vec<char>)
    ensures
        v@ == s@,
{
    let mut v: Vec<char> = Vec::new();
    for c in it: s.chars()
        invariant
            v@ == it.seq().take(it.index() as int),
            it.seq() == s@,
    {
        v.push(c);
    }
    v
}

/// The bounds of `cs[a..b]` once leading and trailing whitespace is removed.
pub fn trim_bounds(cs: &Vec<char>, a: usize, b: usize) -> (r: (usize, usize))
    requires
        a <= b <= cs.len(),
    ensures
        a <= r.0 <= r.1 <= b,
        trim(cs@.subrange(a as int, b as int)) == cs@.subrange(r.0 as int, r.1 as int),
{
    let mut lo = a;
    while lo < b && is_whitespace_char(cs[lo])
        invariant
            a <= lo <= b <= cs.len(),
            forall|j: int| a <= j < lo ==> is_whitespace(#[trigger] cs@[j]),
        decreases b - lo,
    {
        lo = lo + 1;
    }
    let mut hi = b;
    while hi > lo && is_whitespace_char(cs[hi - 1])
        invariant
            a <= lo <= hi <= b <= cs.len(),
            forall|j: int| hi <= j < b ==> is_whitespace(#[trigger] cs@[j]),
        decreases hi - lo,
    {
        hi = hi - 1;
    }
    proof {
        lemma_trim_bounds(cs@, a as int, lo as int, hi as int, b as int);
    }
    (lo, hi)
}

/// The first index in `cs[a..b]` holding `c`, or `b` if there is none.
pub fn find_char(cs: &Vec<char>, a: usize, b: usize, c: char) -> (k: usize)
    requires
        a <= b <= cs.len(),
    ensures
        a <= k <= b,
        span_until(cs@.subrange(a as int, b as int), c) == k - a,
        forall|j: int| a <= j < k ==> cs@[j] != c,
        k < b ==> cs@[k as int] == c,
{
    let mut k = a;
    while k < b && cs[k] != c
        invariant
            a <= k <= b <= cs.len(),
            forall|j: int| a <= j < k ==> cs@[j] != c,
        decreases b - k,
    {
        k = k + 1;
    }
    proof {
        lemma_span_until(cs@.subrange(a as int, b as int), c, k - a);
    }
    k
}

} // verus!
