//! Text as sequences of characters: getting at the characters of a string
//! and building a string from them.

use vstd::prelude::*;
use crate::search::{first_index, is_first, lemma_first_index, lemma_first_index_is};

verus! {

/// `String::push` appends one character to the end of the string.
pub assume_specification[ String::push ](s: &mut String, c: char)
    ensures
        final(s)@ == old(s)@.push(c),
;

/// The characters of `s`, in order.
pub fn chars_of(s: &str) -> (r: Vec<char>)
    ensures
        r@ == s@,
{
    let mut out: Vec<char> = Vec::new();
    for c in it: s.chars()
        invariant
            out@ == it.seq().take(it.index() as int),
            it.seq() == s@,
    {
        out.push(c);
        proof {
            assert(out@ =~= it.seq().take(it.index() + 1));
        }
    }
    proof {
        assert(out@ =~= s@);
    }
    out
}

/// The string made of `chars`, in order.
pub fn string_of(chars: &Vec<char>) -> (r: String)
    ensures
        r@ == chars@,
{
    let mut out = String::new();
    let mut i: usize = 0;
    while i < chars.len()
        invariant
            i <= chars.len(),
            out@ == chars@.take(i as int),
        decreases chars.len() - i,
    {
        out.push(chars[i]);
        i += 1;
        assert(out@ =~= chars@.take(i as int));
    }
    assert(chars@.take(i as int) =~= chars@);
    out
}

/// A copy of the characters of `chars` from `lo` up to `hi`.
pub fn copy_range(chars: &Vec<char>, lo: usize, hi: usize) -> (r: Vec<char>)
    requires
        lo <= hi <= chars.len(),
    ensures
        r@ == chars@.subrange(lo as int, hi as int),
{
    let mut out: Vec<char> = Vec::new();
    let mut i: usize = lo;
    while i < hi
        invariant
            lo <= i <= hi <= chars.len(),
            out@ == chars@.subrange(lo as int, i as int),
        decreases hi - i,
    {
        out.push(chars[i]);
        i += 1;
        assert(out@ =~= chars@.subrange(lo as int, i as int));
    }
    out
}

/// The texts of a list of character vectors, in order.
pub open spec fn texts(parts: Seq<Vec<char>>) -> Seq<Seq<char>> {
    parts.map_values(|v: Vec<char>| v@)
}

// ---------------------------------------------------------------------------
// White space.
// ---------------------------------------------------------------------------

/// `c` is white space: one of the code points with the Unicode property
/// `White_Space`.
pub open spec fn is_space(c: char) -> bool {
    let n = c as u32;
    ||| 0x09 <= n <= 0x0d
    ||| n == 0x20
    ||| n == 0x85
    ||| n == 0xa0
    ||| n == 0x1680
    ||| 0x2000 <= n <= 0x200a
    ||| n == 0x2028
    ||| n == 0x2029
    ||| n == 0x202f
    ||| n == 0x205f
    ||| n == 0x3000
}

/// Tells whether `c` is white space.
pub fn is_whitespace(c: char) -> (b: bool)
    ensures
        b == is_space(c),
{
    let n: u32 = c as u32;
    (0x09 <= n && n <= 0x0d) || n == 0x20 || n == 0x85 || n == 0xa0 || n == 0x1680 || (0x2000 <= n
        && n <= 0x200a) || n == 0x2028 || n == 0x2029 || n == 0x202f || n == 0x205f || n == 0x3000
}

/// `s` without the white space it begins with.
pub open spec fn trim_start(s: Seq<char>) -> Seq<char>
    decreases s.len(),
{
    if s.len() > 0 && is_space(s[0]) {
        trim_start(s.skip(1))
    } else {
        s
    }
}

/// `s` without the white space it ends with.
pub open spec fn trim_end(s: Seq<char>) -> Seq<char>
    decreases s.len(),
{
    if s.len() > 0 && is_space(s.last()) {
        trim_end(s.drop_last())
    } else {
        s
    }
}

/// `s` without the white space at either end.
pub open spec fn trim(s: Seq<char>) -> Seq<char> {
    trim_end(trim_start(s))
}

/// Copies `chars` without the white space at either end.
pub fn trimmed(chars: &Vec<char>) -> (r: Vec<char>)
    ensures
        r@ == trim(chars@),
{
    let len = chars.len();
    let mut lo: usize = 0;
    assert(chars@.skip(0) =~= chars@);
    while lo < len && is_whitespace(chars[lo])
        invariant
            lo <= len == chars.len(),
            trim_start(chars@) == trim_start(chars@.skip(lo as int)),
        decreases len - lo,
    {
        assert(chars@.skip(lo as int).skip(1) =~= chars@.skip(lo + 1));
        lo += 1;
    }
    assert(trim_start(chars@) == chars@.skip(lo as int));
    assert(chars@.skip(lo as int) =~= chars@.subrange(lo as int, len as int));
    let mut hi: usize = len;
    while hi > lo && is_whitespace(chars[hi - 1])
        invariant
            lo <= hi <= len == chars.len(),
            trim(chars@) == trim_end(chars@.subrange(lo as int, hi as int)),
        decreases hi,
    {
        assert(chars@.subrange(lo as int, hi as int).drop_last() =~= chars@.subrange(
            lo as int,
            hi - 1,
        ));
        hi -= 1;
    }
    copy_range(chars, lo, hi)
}

// ---------------------------------------------------------------------------
// Splitting at a separator.
// ---------------------------------------------------------------------------

/// The pieces of `s` between the occurrences of `sep`, in order. There is
/// always at least one piece, and a piece may be empty.
pub open spec fn split(s: Seq<char>, sep: char) -> Seq<Seq<char>>
    decreases s.len(),
{
    match first_index(s, sep) {
        Some(i) => if 0 <= i < s.len() {
            seq![s.take(i)] + split(s.skip(i + 1), sep)
        } else {
            seq![s]
        },
        None => seq![s],
    }
}

/// Splits `chars` at each occurrence of `sep`.
pub fn split_at_char(chars: &Vec<char>, sep: char) -> (r: Vec<Vec<char>>)
    ensures
        texts(r@) == split(chars@, sep),
        r.len() >= 1,
{
    let mut parts: Vec<Vec<char>> = Vec::new();
    let mut current: Vec<char> = Vec::new();
    let ghost mut start: int = 0;
    let mut i: usize = 0;
    assert(chars@.skip(0) =~= chars@);
    assert(texts(parts@) + split(chars@, sep) =~= split(chars@, sep));
    while i < chars.len()
        invariant
            0 <= start <= i <= chars.len(),
            current@ == chars@.subrange(start, i as int),
            forall|j: int| start <= j < i ==> chars@[j] != sep,
            split(chars@, sep) == texts(parts@) + split(chars@.skip(start), sep),
        decreases chars.len() - i,
    {
        let c = chars[i];
        if c == sep {
            proof {
                let rest = chars@.skip(start);
                assert(is_first(rest, sep, i - start));
                lemma_first_index_is(rest, sep, i - start);
                assert(rest.take(i - start) =~= current@);
                assert(rest.skip(i - start + 1) =~= chars@.skip(i + 1));
                assert(texts(parts@.push(current)) =~= texts(parts@) + seq![current@]);
                assert(texts(parts@) + (seq![current@] + split(chars@.skip(i + 1), sep)) =~= texts(
                    parts@,
                ) + seq![current@] + split(chars@.skip(i + 1), sep));
                start = i + 1;
            }
            parts.push(current);
            current = Vec::new();
        } else {
            current.push(c);
        }
        i += 1;
        assert(current@ =~= chars@.subrange(start, i as int));
    }
    proof {
        let rest = chars@.skip(start);
        lemma_first_index(rest, sep);
        if first_index(rest, sep) is Some {
            let k = first_index(rest, sep)->0;
            assert(rest[k] == chars@[start + k]);
        }
        assert(rest =~= current@);
        assert(texts(parts@.push(current)) =~= texts(parts@) + seq![current@]);
    }
    parts.push(current);
    parts
}

// ---------------------------------------------------------------------------
// Decimal numbers.
// ---------------------------------------------------------------------------

/// `c` is one of the digits `0` to `9`.
pub open spec fn is_digit(c: char) -> bool {
    48 <= c as u32 <= 57
}

/// The value of a digit.
pub open spec fn digit_value(c: char) -> nat
    recommends
        is_digit(c),
{
    (c as u32 - 48) as nat
}

/// Every character of `s` is a digit.
pub open spec fn all_digits(s: Seq<char>) -> bool {
    forall|i: int| 0 <= i < s.len() ==> is_digit(#[trigger] s[i])
}

/// The number that a string of digits writes in base ten.
pub open spec fn decimal_value(s: Seq<char>) -> nat
    decreases s.len(),
{
    if s.len() == 0 {
        0
    } else {
        decimal_value(s.drop_last()) * 10 + digit_value(s.last())
    }
}

/// `s` without a plus sign in front.
pub open spec fn unsigned(s: Seq<char>) -> Seq<char> {
    if s.len() > 0 && s[0] == '+' {
        s.skip(1)
    } else {
        s
    }
}

/// The number that `s` writes, if `s` is one or more digits, with or without
/// a plus sign in front, and the number fits in 32 bits.
pub open spec fn parse_u32(s: Seq<char>) -> Option<u32> {
    let digits = unsigned(s);
    if digits.len() > 0 && all_digits(digits) && decimal_value(digits) <= u32::MAX {
        Some(decimal_value(digits) as u32)
    } else {
        None
    }
}

/// A string of digits writes at least what any of its beginnings writes.
pub proof fn lemma_decimal_value_grows(s: Seq<char>, k: int)
    requires
        0 <= k <= s.len(),
    ensures
        decimal_value(s.take(k)) <= decimal_value(s),
    decreases s.len() - k,
{
    if k == s.len() {
        assert(s.take(k) =~= s);
    } else {
        lemma_decimal_value_grows(s.drop_last(), k);
        assert(s.drop_last().take(k) =~= s.take(k));
    }
}

/// Reads an unsigned decimal number that fits in 32 bits.
pub fn to_u32(chars: &Vec<char>) -> (r: Option<u32>)
    ensures
        r == parse_u32(chars@),
{
    let len = chars.len();
    let start: usize = if len > 0 && chars[0] == '+' { 1 } else { 0 };
    let ghost digits = chars@.skip(start as int);
    assert(digits == unsigned(chars@));
    if start == len {
        return None;
    }
    let mut acc: u32 = 0;
    let mut i: usize = start;
    while i < len
        invariant
            start <= i <= len == chars.len(),
            digits == chars@.skip(start as int),
            digits == unsigned(chars@),
            all_digits(digits.take(i - start)),
            acc == decimal_value(digits.take(i - start)),
        decreases len - i,
    {
        let n: u32 = chars[i] as u32;
        assert(digits[i - start] == chars@[i as int]);
        if n < 48 || n > 57 {
            assert(!is_digit(digits[i - start]));
            return None;
        }
        let digit: u32 = n - 48;
        proof {
            let next = digits.take(i - start + 1);
            assert(next.drop_last() =~= digits.take(i - start));
            assert(next.last() == chars@[i as int]);
            assert(decimal_value(next) == acc * 10 + digit);
            lemma_decimal_value_grows(digits, i - start + 1);
        }
        if acc > (u32::MAX - digit) / 10 {
            assert(acc * 10 + digit > u32::MAX);
            assert(decimal_value(digits) > u32::MAX);
            return None;
        }
        acc = acc * 10 + digit;
        i += 1;
    }
    assert(digits.take(i - start) =~= digits);
    Some(acc)
}

/// The character that writes the digit `d`.
pub open spec fn digit_char(d: nat) -> char
    recommends
        d < 10,
{
    if d == 0 {
        '0'
    } else if d == 1 {
        '1'
    } else if d == 2 {
        '2'
    } else if d == 3 {
        '3'
    } else if d == 4 {
        '4'
    } else if d == 5 {
        '5'
    } else if d == 6 {
        '6'
    } else if d == 7 {
        '7'
    } else if d == 8 {
        '8'
    } else {
        '9'
    }
}

/// `n` written in base ten, without leading zeros.
pub open spec fn decimal(n: nat) -> Seq<char>
    decreases n,
{
    if n < 10 {
        seq![digit_char(n)]
    } else {
        decimal(n / 10).push(digit_char(n % 10))
    }
}

/// `n` written in base ten, with a zero in front where it has one digit.
pub open spec fn two_digits(n: nat) -> Seq<char> {
    if n < 10 {
        seq!['0'] + decimal(n)
    } else {
        decimal(n)
    }
}

/// The character that writes the digit `d`.
fn digit_to_char(d: u64) -> (c: char)
    requires
        d < 10,
    ensures
        c == digit_char(d as nat),
{
    if d == 0 {
        '0'
    } else if d == 1 {
        '1'
    } else if d == 2 {
        '2'
    } else if d == 3 {
        '3'
    } else if d == 4 {
        '4'
    } else if d == 5 {
        '5'
    } else if d == 6 {
        '6'
    } else if d == 7 {
        '7'
    } else if d == 8 {
        '8'
    } else {
        '9'
    }
}

/// Appends `n` in base ten.
pub fn push_decimal(out: &mut Vec<char>, n: u64)
    ensures
        final(out)@ == old(out)@ + decimal(n as nat),
    decreases n,
{
    if n >= 10 {
        push_decimal(out, n / 10);
    }
    out.push(digit_to_char(n % 10));
    assert(out@ =~= old(out)@ + decimal(n as nat));
}

/// Appends `n` in base ten, in at least two digits.
pub fn push_two_digits(out: &mut Vec<char>, n: u64)
    ensures
        final(out)@ == old(out)@ + two_digits(n as nat),
{
    if n < 10 {
        out.push('0');
    }
    push_decimal(out, n);
    assert(out@ =~= old(out)@ + two_digits(n as nat));
}

/// Appends the characters of `more`.
pub fn push_all(out: &mut Vec<char>, more: &Vec<char>)
    ensures
        final(out)@ == old(out)@ + more@,
{
    let mut i: usize = 0;
    while i < more.len()
        invariant
            i <= more.len(),
            out@ == old(out)@ + more@.take(i as int),
        decreases more.len() - i,
    {
        out.push(more[i]);
        i += 1;
        assert(out@ =~= old(out)@ + more@.take(i as int));
    }
    assert(more@.take(i as int) =~= more@);
}

// ---------------------------------------------------------------------------
// Replacing a pattern.
// ---------------------------------------------------------------------------

/// `s` begins with `pattern`.
pub open spec fn starts_with(s: Seq<char>, pattern: Seq<char>) -> bool {
    pattern.len() <= s.len() && s.take(pattern.len() as int) == pattern
}

/// `s` with `to` after each of its characters.
pub open spec fn followed_by(s: Seq<char>, to: Seq<char>) -> Seq<char>
    decreases s.len(),
{
    if s.len() == 0 {
        s
    } else {
        seq![s[0]] + to + followed_by(s.skip(1), to)
    }
}

/// `s` with every occurrence of `pattern` replaced by `to`, found from left
/// to right without overlap. The empty pattern occurs before each character
/// and at the end.
pub open spec fn replace_all(s: Seq<char>, pattern: Seq<char>, to: Seq<char>) -> Seq<char>
    decreases s.len(),
{
    if pattern.len() == 0 {
        to + followed_by(s, to)
    } else if s.len() == 0 {
        s
    } else if starts_with(s, pattern) {
        to + replace_all(s.skip(pattern.len() as int), pattern, to)
    } else {
        seq![s[0]] + replace_all(s.skip(1), pattern, to)
    }
}

/// Tells whether `pattern` stands in `chars` at `at`.
pub fn stands_at(chars: &Vec<char>, at: usize, pattern: &Vec<char>) -> (b: bool)
    requires
        at <= chars.len(),
    ensures
        b == starts_with(chars@.skip(at as int), pattern@),
{
    if pattern.len() > chars.len() - at {
        return false;
    }
    let ghost rest = chars@.skip(at as int);
    let mut k: usize = 0;
    while k < pattern.len()
        invariant
            k <= pattern.len() <= chars.len() - at,
            rest == chars@.skip(at as int),
            forall|j: int| 0 <= j < k ==> rest[j] == pattern@[j],
        decreases pattern.len() - k,
    {
        if chars[at + k] != pattern[k] {
            assert(rest.take(pattern.len() as int)[k as int] != pattern@[k as int]);
            return false;
        }
        k += 1;
    }
    assert(rest.take(pattern.len() as int) =~= pattern@);
    true
}

/// Copies `chars` with `to` after each character.
fn interleaved(chars: &Vec<char>, to: &Vec<char>) -> (r: Vec<char>)
    ensures
        r@ == to@ + followed_by(chars@, to@),
{
    let mut out: Vec<char> = Vec::new();
    push_all(&mut out, to);
    let mut i: usize = 0;
    assert(chars@.skip(0) =~= chars@);
    while i < chars.len()
        invariant
            i <= chars.len(),
            to@ + followed_by(chars@, to@) == out@ + followed_by(chars@.skip(i as int), to@),
        decreases chars.len() - i,
    {
        let ghost before = out@;
        let ghost rest = chars@.skip(i as int);
        out.push(chars[i]);
        push_all(&mut out, to);
        proof {
            assert(rest.skip(1) =~= chars@.skip(i + 1));
            assert(before + (seq![rest[0]] + to@ + followed_by(chars@.skip(i + 1), to@)) =~= out@
                + followed_by(chars@.skip(i + 1), to@));
        }
        i += 1;
    }
    assert(out@ + followed_by(chars@.skip(i as int), to@) =~= out@);
    out
}

/// Copies `chars` with every occurrence of `pattern` replaced by `to`.
pub fn replaced(chars: &Vec<char>, pattern: &Vec<char>, to: &Vec<char>) -> (r: Vec<char>)
    ensures
        r@ == replace_all(chars@, pattern@, to@),
{
    if pattern.len() == 0 {
        return interleaved(chars, to);
    }
    let mut out: Vec<char> = Vec::new();
    let mut i: usize = 0;
    assert(chars@.skip(0) =~= chars@);
    while i < chars.len()
        invariant
            i <= chars.len(),
            pattern.len() > 0,
            replace_all(chars@, pattern@, to@) == out@ + replace_all(
                chars@.skip(i as int),
                pattern@,
                to@,
            ),
        decreases chars.len() - i,
    {
        let ghost rest = chars@.skip(i as int);
        let ghost before = out@;
        if stands_at(chars, i, pattern) {
            push_all(&mut out, to);
            proof {
                assert(rest.skip(pattern.len() as int) =~= chars@.skip(i + pattern.len()));
                assert(before + (to@ + replace_all(chars@.skip(i + pattern.len()), pattern@, to@))
                    =~= before + to@ + replace_all(chars@.skip(i + pattern.len()), pattern@, to@));
            }
            i += pattern.len();
        } else {
            out.push(chars[i]);
            proof {
                assert(rest.skip(1) =~= chars@.skip(i + 1));
                assert(before + (seq![rest[0]] + replace_all(chars@.skip(i + 1), pattern@, to@))
                    =~= before.push(chars@[i as int]) + replace_all(
                    chars@.skip(i + 1),
                    pattern@,
                    to@,
                ));
            }
            i += 1;
        }
    }
    assert(out@ + replace_all(chars@.skip(i as int), pattern@, to@) =~= out@);
    out
}

} // verus!
