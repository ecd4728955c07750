//! Character-level text operations used by the extraction stages.
//!
//! Text is handled as a sequence of `char`s. Each operation states its result
//! with a spec function over `Seq<char>`.
use vstd::prelude::*;
use vstd::std_specs::iter::IteratorSpec;

verus! {

broadcast use vstd::string::group_string_axioms;

/// `p` occurs in `t` starting at index `i`.
pub open spec fn matches_at(t: Seq<char>, p: Seq<char>, i: int) -> bool {
    0 <= i && i + p.len() <= t.len() && t.subrange(i, i + p.len()) == p
}

/// The first index `i >= from` at which `p` occurs in `t`.
pub open spec fn find_from_spec(t: Seq<char>, p: Seq<char>, from: int) -> Option<int>
    decreases t.len() - from,
{
    if from < 0 || from + p.len() > t.len() {
        None
    } else if matches_at(t, p, from) {
        Some(from)
    } else if from >= t.len() {
        None
    } else {
        find_from_spec(t, p, from + 1)
    }
}

/// The first index at which `p` occurs in `t`.
pub open spec fn find_spec(t: Seq<char>, p: Seq<char>) -> Option<int> {
    find_from_spec(t, p, 0)
}

/// `p` occurs somewhere in `t`.
pub open spec fn contains_spec(t: Seq<char>, p: Seq<char>) -> bool {
    find_spec(t, p) is Some
}

pub proof fn lemma_find_from_bounds(t: Seq<char>, p: Seq<char>, from: int)
    ensures
        match find_from_spec(t, p, from) {
            Some(i) => from <= i && matches_at(t, p, i),
            None => true,
        },
    decreases t.len() - from,
{
    if from < 0 || from + p.len() > t.len() {
    } else if matches_at(t, p, from) {
    } else if from >= t.len() {
    } else {
        lemma_find_from_bounds(t, p, from + 1);
    }
}

/// What follows the segment from `from` on, with every non-overlapping
/// occurrence of `p` (taken from the left) replaced by `r`.
pub open spec fn replace_from_spec(t: Seq<char>, p: Seq<char>, r: Seq<char>, from: int) -> Seq<
    char,
>
    decreases t.len() - from,
{
    match find_from_spec(t, p, from) {
        Some(i) if p.len() > 0 && from <= i && i + p.len() <= t.len() => t.subrange(from, i) + r
            + replace_from_spec(t, p, r, i + p.len()),
        _ => t.subrange(from, t.len() as int),
    }
}

/// `t` with every non-overlapping occurrence of `p` replaced by `r`.
pub open spec fn replace_spec(t: Seq<char>, p: Seq<char>, r: Seq<char>) -> Seq<char> {
    replace_from_spec(t, p, r, 0)
}

/// The last index at which `c` stands in `t`.
pub open spec fn rfind_char_spec(t: Seq<char>, c: char) -> Option<int>
    decreases t.len(),
{
    if t.len() == 0 {
        None
    } else if t.last() == c {
        Some(t.len() - 1)
    } else {
        rfind_char_spec(t.drop_last(), c)
    }
}

pub open spec fn is_digit(c: char) -> bool {
    '0' <= c && c <= '9'
}

pub open spec fn digit_value(c: char) -> nat {
    (c as u32 - '0' as u32) as nat
}

pub open spec fn digit_char(d: nat) -> char {
    ((d + '0' as u32) as u8) as char
}

pub open spec fn all_digits(s: Seq<char>) -> bool {
    forall|i: int| 0 <= i < s.len() ==> is_digit(#[trigger] s[i])
}

/// The number that a string of decimal digits denotes.
pub open spec fn decimal_value(s: Seq<char>) -> nat
    decreases s.len(),
{
    if s.len() == 0 {
        0
    } else {
        decimal_value(s.drop_last()) * 10 + digit_value(s.last())
    }
}

/// The decimal digits of `n`, without leading zeros.
pub open spec fn decimal_of(n: nat) -> Seq<char>
    decreases n,
{
    if n < 10 {
        seq![digit_char(n)]
    } else {
        decimal_of(n / 10).push(digit_char(n % 10))
    }
}

/// The digits that a number parser reads: an optional leading `+` is skipped.
pub open spec fn unsigned_body(s: Seq<char>) -> Seq<char> {
    if s.len() > 0 && s[0] == '+' {
        s.drop_first()
    } else {
        s
    }
}

/// The value of `s` read as an unsigned decimal number no larger than `max`,
/// as the standard library parses one: one or more digits after an
/// optional `+`.
pub open spec fn parse_unsigned_spec(s: Seq<char>, max: nat) -> Option<nat> {
    let b = unsigned_body(s);
    if b.len() > 0 && all_digits(b) && decimal_value(b) <= max {
        Some(decimal_value(b))
    } else {
        None
    }
}

pub open spec fn parse_u64_spec(s: Seq<char>) -> Option<u64> {
    match parse_unsigned_spec(s, u64::MAX as nat) {
        Some(v) => Some(v as u64),
        None => None,
    }
}

pub open spec fn parse_u128_spec(s: Seq<char>) -> Option<u128> {
    match parse_unsigned_spec(s, u128::MAX as nat) {
        Some(v) => Some(v as u128),
        None => None,
    }
}

/// The text between the first occurrence of `m` in `t` and the next one, or
/// the end of `t`.
pub open spec fn second_piece(t: Seq<char>, m: Seq<char>) -> Option<Seq<char>> {
    match find_spec(t, m) {
        None => None,
        Some(a) => {
            let start = a + m.len();
            let end = match find_from_spec(t, m, start) {
                Some(b) => b,
                None => t.len() as int,
            };
            Some(t.subrange(start, end))
        },
    }
}

/// Relies on `String`'s `FromIterator<&char>`: the characters in order.
#[verifier::external_body]
pub(crate) fn string_of(v: &[char]) -> (r: String)
    ensures
        r@ == v@,
{
    v.iter().collect()
}

/// The characters of `s`, in order.
pub fn chars_of(s: &str) -> (r: Vec<char>)
    ensures
        r@ == s@,
{
    let mut out: Vec<char> = Vec::new();
    let mut it = s.chars();
    assert(it.remaining() == s@);
    loop
        invariant
            out@ + it.remaining() == s@,
            it.obeys_prophetic_iter_laws(),
        ensures
            out@ == s@,
        decreases s@.len() - out@.len(),
    {
        let ghost before = it.remaining();
        match it.next() {
            Some(c) => {
                proof {
                    assert(before.len() > 0);
                    assert(before == seq![c] + it.remaining());
                }
                out.push(c);
                assert(out@ + it.remaining() == s@) by {
                    assert(out@ + it.remaining() =~= (out@.drop_last() + seq![c])
                        + it.remaining());
                }
            },
            None => {
                assert(before.len() == 0);
                assert(it.remaining() == before);
                assert(out@ =~= s@);
                break ;
            },
        }
    }
    out
}

/// Appends the characters `src[from..to]` to `out`.
pub fn push_range(out: &mut Vec<char>, src: &[char], from: usize, to: usize)
    requires
        from <= to <= src@.len(),
    ensures
        final(out)@ == old(out)@ + src@.subrange(from as int, to as int),
{
    let mut i: usize = from;
    while i < to
        invariant
            from <= i <= to <= src@.len(),
            out@ == old(out)@ + src@.subrange(from as int, i as int),
        decreases to - i,
    {
        out.push(src[i]);
        i = i + 1;
        assert(out@ =~= old(out)@ + src@.subrange(from as int, i as int));
    }
}

/// Appends the characters of `src` to `out`.
pub fn push_all(out: &mut Vec<char>, src: &[char])
    ensures
        final(out)@ == old(out)@ + src@,
{
    push_range(out, src, 0, src.len());
    assert(src@.subrange(0, src@.len() as int) =~= src@);
}

/// Appends the characters of `s` to `out`.
pub fn push_str(out: &mut Vec<char>, s: &str)
    ensures
        final(out)@ == old(out)@ + s@,
{
    let v = chars_of(s);
    push_all(out, v.as_slice());
}

/// Whether two character sequences are equal.
pub fn chars_eq(a: &[char], b: &[char]) -> (r: bool)
    ensures
        r == (a@ == b@),
{
    if a.len() != b.len() {
        return false;
    }
    let mut i: usize = 0;
    while i < a.len()
        invariant
            a@.len() == b@.len(),
            i <= a@.len(),
            forall|j: int| 0 <= j < i ==> a@[j] == b@[j],
        decreases a@.len() - i,
    {
        if a[i] != b[i] {
            return false;
        }
        i = i + 1;
    }
    assert(a@ =~= b@);
    true
}

/// Whether two strings are equal.
pub fn str_eq(a: &str, b: &str) -> (r: bool)
    ensures
        r == (a@ == b@),
{
    let x = chars_of(a);
    let y = chars_of(b);
    chars_eq(x.as_slice(), y.as_slice())
}

/// Whether `p` occurs in `t` at index `i`.
pub fn is_match_at(t: &[char], p: &[char], i: usize) -> (r: bool)
    ensures
        r == matches_at(t@, p@, i as int),
{
    if i > t.len() || p.len() > t.len() - i {
        return false;
    }
    let mut k: usize = 0;
    while k < p.len()
        invariant
            i + p@.len() <= t@.len(),
            t@.len() <= usize::MAX,
            k <= p@.len(),
            forall|j: int| 0 <= j < k ==> t@[i + j] == p@[j],
        decreases p@.len() - k,
    {
        assert(i + k < t@.len());
        if t[i + k] != p[k] {
            assert(t@.subrange(i as int, i + p@.len())[k as int] != p@[k as int]);
            return false;
        }
        k = k + 1;
    }
    assert(t@.subrange(i as int, i + p@.len()) =~= p@);
    true
}

/// The first index `i >= from` at which `p` occurs in `t`.
pub fn find_from(t: &[char], p: &[char], from: usize) -> (r: Option<usize>)
    ensures
        match r {
            Some(i) => find_from_spec(t@, p@, from as int) == Some(i as int),
            None => find_from_spec(t@, p@, from as int) is None,
        },
{
    if p.len() > t.len() {
        proof {
            if find_from_spec(t@, p@, from as int) is Some {
                lemma_find_from_bounds(t@, p@, from as int);
            }
        }
        return None;
    }
    let last = t.len() - p.len();
    let mut i: usize = from;
    if i > last {
        return None;
    }
    loop
        invariant
            last == t@.len() - p@.len(),
            from <= i <= last,
            find_from_spec(t@, p@, from as int) == find_from_spec(t@, p@, i as int),
        decreases last - i,
    {
        if is_match_at(t, p, i) {
            return Some(i);
        }
        if i == last {
            assert(find_from_spec(t@, p@, i + 1) is None);
            return None;
        }
        i = i + 1;
    }
}

/// The first index at which `p` occurs in `t`.
pub fn find(t: &[char], p: &[char]) -> (r: Option<usize>)
    ensures
        match r {
            Some(i) => find_spec(t@, p@) == Some(i as int),
            None => find_spec(t@, p@) is None,
        },
{
    find_from(t, p, 0)
}

/// Whether `p` occurs in `t`.
pub fn contains(t: &[char], p: &[char]) -> (r: bool)
    ensures
        r == contains_spec(t@, p@),
{
    find(t, p).is_some()
}

/// `t` with every non-overlapping occurrence of `p`, taken from the left,
/// replaced by `r`.
pub fn replace_all(t: &[char], p: &[char], r: &[char]) -> (out: Vec<char>)
    requires
        p@.len() > 0,
    ensures
        out@ == replace_spec(t@, p@, r@),
{
    let mut out: Vec<char> = Vec::new();
    let mut pos: usize = 0;
    let _n = t.len();
    loop
        invariant
            p@.len() > 0,
            pos <= t@.len(),
            t@.len() <= usize::MAX,
            out@ + replace_from_spec(t@, p@, r@, pos as int) == replace_spec(t@, p@, r@),
        decreases t@.len() - pos,
    {
        let found = find_from(t, p, pos);
        proof {
            lemma_find_from_bounds(t@, p@, pos as int);
        }
        match found {
            None => {
                push_range(&mut out, t, pos, t.len());
                return out;
            },
            Some(i) => {
                assert(matches_at(t@, p@, i as int));
                let ghost o = out@;
                let ghost rest = replace_from_spec(t@, p@, r@, i + p@.len());
                push_range(&mut out, t, pos, i);
                push_all(&mut out, r);
                assert(out@ + rest =~= o + (t@.subrange(pos as int, i as int) + r@ + rest));
                pos = i + p.len();
            },
        }
    }
}

/// The text between the first occurrence of `m` in `t` and the next one, or
/// the end of `t`.
pub fn second_piece_of(t: &[char], m: &[char]) -> (r: Option<Vec<char>>)
    ensures
        match second_piece(t@, m@) {
            Some(s) => r matches Some(v) && v@ == s,
            None => r is None,
        },
{
    let _n = t.len();
    let a = match find(t, m) {
        Some(a) => a,
        None => return None,
    };
    proof {
        lemma_find_from_bounds(t@, m@, 0);
    }
    let start = a + m.len();
    let end = match find_from(t, m, start) {
        Some(b) => b,
        None => t.len(),
    };
    proof {
        lemma_find_from_bounds(t@, m@, start as int);
    }
    let mut seg: Vec<char> = Vec::new();
    push_range(&mut seg, t, start, end);
    assert(seg@ =~= t@.subrange(start as int, end as int));
    Some(seg)
}

/// The last index at which `c` stands in `t`.
pub fn rfind_char(t: &[char], c: char) -> (r: Option<usize>)
    ensures
        match r {
            Some(i) => rfind_char_spec(t@, c) == Some(i as int),
            None => rfind_char_spec(t@, c) is None,
        },
{
    let mut n: usize = t.len();
    assert(t@.subrange(0, n as int) =~= t@);
    while n > 0
        invariant
            n <= t@.len(),
            rfind_char_spec(t@, c) == rfind_char_spec(t@.subrange(0, n as int), c),
        decreases n,
    {
        let ghost s = t@.subrange(0, n as int);
        if t[n - 1] == c {
            return Some(n - 1);
        }
        assert(s.drop_last() =~= t@.subrange(0, n - 1));
        n = n - 1;
    }
    None
}

pub proof fn lemma_decimal_value_push(s: Seq<char>, c: char)
    ensures
        decimal_value(s.push(c)) == decimal_value(s) * 10 + digit_value(c),
{
    assert(s.push(c).drop_last() =~= s);
}

pub proof fn lemma_decimal_value_grows(s: Seq<char>, k: int)
    requires
        0 <= k <= s.len(),
    ensures
        decimal_value(s.subrange(0, k)) <= decimal_value(s),
    decreases s.len() - k,
{
    if k < s.len() {
        lemma_decimal_value_grows(s, k + 1);
        let a = s.subrange(0, k);
        assert(s.subrange(0, k + 1) =~= a.push(s[k]));
        lemma_decimal_value_push(a, s[k]);
    } else {
        assert(s.subrange(0, k) =~= s);
    }
}

/// The value of the decimal digits `s[start..]`, or `None` where a character
/// is no digit, there are none, or the value exceeds `u128::MAX`.
fn digits_value(s: &[char], start: usize) -> (r: Option<u128>)
    requires
        start <= s@.len(),
    ensures
        ({
            let b = s@.subrange(start as int, s@.len() as int);
            match r {
                Some(v) => b.len() > 0 && all_digits(b) && v as nat == decimal_value(b),
                None => !(b.len() > 0 && all_digits(b) && decimal_value(b) <= u128::MAX),
            }
        }),
{
    let ghost b = s@.subrange(start as int, s@.len() as int);
    if start == s.len() {
        return None;
    }
    let mut v: u128 = 0;
    let mut i: usize = start;
    while i < s.len()
        invariant
            start <= i <= s@.len(),
            b == s@.subrange(start as int, s@.len() as int),
            all_digits(s@.subrange(start as int, i as int)),
            v as nat == decimal_value(s@.subrange(start as int, i as int)),
        decreases s@.len() - i,
    {
        let c = s[i];
        let ghost prefix = s@.subrange(start as int, i as int);
        assert(s@.subrange(start as int, i + 1) =~= prefix.push(c));
        if !('0' <= c && c <= '9') {
            assert(b[i - start] == c);
            return None;
        }
        let d = (c as u32 - '0' as u32) as u128;
        proof {
            lemma_decimal_value_push(prefix, c);
        }
        if v > (u128::MAX - d) / 10 {
            proof {
                assert(v * 10 + d > u128::MAX) by (nonlinear_arith)
                    requires
                        v > (u128::MAX - d) / 10,
                        d <= 9,
                ;
                assert(b.subrange(0, i + 1 - start) =~= prefix.push(c));
                lemma_decimal_value_grows(b, i + 1 - start);
            }
            return None;
        }
        proof {
            assert(v * 10 + d <= u128::MAX) by (nonlinear_arith)
                requires
                    v <= (u128::MAX - d) / 10,
                    d <= 9,
            ;
        }
        v = v * 10 + d;
        i = i + 1;
        assert(all_digits(s@.subrange(start as int, i as int)));
    }
    assert(s@.subrange(start as int, i as int) =~= b);
    Some(v)
}

/// Reads an unsigned decimal number as the standard library does: one or
/// more digits after an optional `+`.
pub fn parse_u128(s: &[char]) -> (r: Option<u128>)
    ensures
        r == parse_u128_spec(s@),
{
    let start: usize = if s.len() > 0 && s[0] == '+' {
        1
    } else {
        0
    };
    assert(unsigned_body(s@) =~= s@.subrange(start as int, s@.len() as int));
    digits_value(s, start)
}

/// Reads an unsigned decimal number that fits in `u64`, as the standard
/// library does.
pub fn parse_u64(s: &[char]) -> (r: Option<u64>)
    ensures
        r == parse_u64_spec(s@),
{
    match parse_u128(s) {
        Some(v) => {
            if v <= u64::MAX as u128 {
                Some(v as u64)
            } else {
                None
            }
        },
        None => None,
    }
}

/// Appends the decimal digits of `n` to `out`.
pub fn push_decimal(out: &mut Vec<char>, n: u128)
    ensures
        final(out)@ == old(out)@ + decimal_of(n as nat),
    decreases n,
{
    if n >= 10 {
        push_decimal(out, n / 10);
    }
    let d = (n % 10) as u8;
    let c = (d + 48u8) as char;
    out.push(c);
    proof {
        if n >= 10 {
            assert(decimal_of(n as nat) == decimal_of((n / 10) as nat).push(digit_char((n % 10) as nat)));
        }
    }
    assert(out@ =~= old(out)@ + decimal_of(n as nat));
}

/// The decimal digits of `n`.
pub fn decimal_string(n: u128) -> (r: String)
    ensures
        r@ == decimal_of(n as nat),
{
    let mut v: Vec<char> = Vec::new();
    push_decimal(&mut v, n);
    assert(v@ =~= decimal_of(n as nat));
    string_of(v.as_slice())
}

} // verus!
