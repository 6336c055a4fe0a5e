//! Decimal numerals and the few operations on text that the rest of the crate needs.

use vstd::prelude::*;

verus! {

/// `String::push` appends one character to the end of the string.
pub assume_specification[ String::push ](s: &mut String, c: char)
    ensures
        final(s)@ == old(s)@.push(c),
;

/// The characters of `s`, in order.
pub fn chars_of(s: &str) -> (chars: Vec<char>)
    ensures
        chars@ == s@,
{
    let mut chars: Vec<char> = Vec::new();
    for c in it: s.chars()
        invariant
            it.seq() == s@,
            chars@ == s@.take(it.index() as int),
    {
        chars.push(c);
        assert(chars@ =~= s@.take(it.index() + 1));
    }
    assert(chars@ =~= s@);
    chars
}

/// The text made of the characters of `chars` from `from` up to, not including, `to`.
pub fn text_of(chars: &Vec<char>, from: usize, to: usize) -> (text: String)
    requires
        from <= to <= chars.len(),
    ensures
        text@ == chars@.subrange(from as int, to as int),
{
    let mut text = String::new();
    let mut i: usize = from;
    while i < to
        invariant
            from <= i <= to <= chars.len(),
            text@ == chars@.subrange(from as int, i as int),
        decreases to - i,
    {
        text.push(chars[i]);
        i = i + 1;
        assert(text@ =~= chars@.subrange(from as int, i as int));
    }
    text
}

/// Whether `c` is one of the ten decimal digits.
pub open spec fn is_digit(c: char) -> bool {
    '0' <= c <= '9'
}

/// The number that the digit `c` stands for.
pub open spec fn digit_value(c: char) -> nat
    recommends
        is_digit(c),
{
    (c as u32 - '0' as u32) as nat
}

/// The character that stands for the digit `d`.
pub open spec fn digit_char(d: nat) -> char
    recommends
        d < 10,
{
    ((d + '0' as u32) as u8) as char
}

/// Whether every character of `s` is a decimal digit.
pub open spec fn all_digits(s: Seq<char>) -> bool {
    forall|i: int| 0 <= i < s.len() ==> is_digit(#[trigger] s[i])
}

/// The number that a run of decimal digits stands for; leading zeros count for nothing.
pub open spec fn digits_value(s: Seq<char>) -> nat
    decreases s.len(),
{
    if s.len() == 0 {
        0
    } else {
        digits_value(s.drop_last()) * 10 + digit_value(s.last())
    }
}

/// The decimal numeral of `n`, without leading zeros.
pub open spec fn decimal(n: nat) -> Seq<char>
    decreases n,
{
    if n < 10 {
        seq![digit_char(n)]
    } else {
        decimal(n / 10).push(digit_char(n % 10))
    }
}

/// A numeral is never empty and holds digits only.
pub proof fn lemma_decimal_digits(n: nat)
    ensures
        decimal(n).len() >= 1,
        all_digits(decimal(n)),
    decreases n,
{
    if n >= 10 {
        lemma_decimal_digits(n / 10);
    }
}

/// Reading a numeral gives back the number it was written for.
pub proof fn lemma_decimal_value(n: nat)
    ensures
        digits_value(decimal(n)) == n,
    decreases n,
{
    if n < 10 {
        assert(decimal(n).drop_last() =~= Seq::<char>::empty());
        assert(digits_value(Seq::<char>::empty()) == 0);
    } else {
        lemma_decimal_value(n / 10);
        assert(decimal(n).drop_last() =~= decimal(n / 10));
    }
}

/// Appends the decimal numeral of `n` to `out`.
pub fn push_decimal(out: &mut String, n: u64)
    ensures
        final(out)@ == old(out)@ + decimal(n as nat),
    decreases n,
{
    if n >= 10 {
        push_decimal(out, n / 10);
    }
    let d: u8 = (n % 10) as u8;
    let c: char = (48u8 + d) as char;
    assert(c == digit_char((n % 10) as nat));
    out.push(c);
    assert(out@ =~= old(out)@ + decimal(n as nat));
}

/// A run of `k` zeros.
pub open spec fn zeros(k: nat) -> Seq<char> {
    Seq::new(k, |i: int| '0')
}

/// The decimal numeral of `n`, with zeros in front of it until it is `width` characters long.
/// A numeral that is longer already is left as it is.
pub open spec fn zero_padded(n: nat, width: nat) -> Seq<char> {
    if decimal(n).len() >= width {
        decimal(n)
    } else {
        zeros((width - decimal(n).len()) as nat) + decimal(n)
    }
}

/// The length of a numeral grows with its number.
pub proof fn lemma_decimal_len(n: nat, m: nat)
    requires
        n <= m,
    ensures
        decimal(n).len() <= decimal(m).len(),
    decreases m,
{
    if m >= 10 {
        if n >= 10 {
            lemma_decimal_len(n / 10, m / 10);
        } else {
            lemma_decimal_digits(m / 10);
        }
    }
}

/// Zeros in front of a run of digits do not change its value.
pub proof fn lemma_leading_zeros(k: nat, s: Seq<char>)
    ensures
        digits_value(zeros(k) + s) == digits_value(s),
    decreases s.len(),
{
    if s.len() == 0 {
        assert(zeros(k) + s =~= zeros(k));
        lemma_zeros_value(k);
    } else {
        lemma_leading_zeros(k, s.drop_last());
        assert((zeros(k) + s).drop_last() =~= zeros(k) + s.drop_last());
    }
}

/// A run of zeros stands for zero.
pub proof fn lemma_zeros_value(k: nat)
    ensures
        digits_value(zeros(k)) == 0,
    decreases k,
{
    if k > 0 {
        lemma_zeros_value((k - 1) as nat);
        assert(zeros(k).drop_last() =~= zeros((k - 1) as nat));
    }
}

/// What holds of every padded numeral: it is at least `width` long, exactly so where the plain
/// numeral is no longer than that; it holds digits only; and it still stands for `n`.
pub proof fn lemma_zero_padded(n: nat, width: nat)
    ensures
        zero_padded(n, width).len() >= width,
        zero_padded(n, width).len() >= decimal(n).len(),
        decimal(n).len() <= width ==> zero_padded(n, width).len() == width,
        decimal(n).len() >= width ==> zero_padded(n, width) == decimal(n),
        all_digits(zero_padded(n, width)),
        digits_value(zero_padded(n, width)) == n,
{
    lemma_decimal_digits(n);
    lemma_decimal_value(n);
    if decimal(n).len() < width {
        lemma_leading_zeros((width - decimal(n).len()) as nat, decimal(n));
    }
}

/// The number of digits in the decimal numeral of `n`.
pub fn decimal_len(n: u64) -> (len: usize)
    ensures
        len == decimal(n as nat).len(),
        1 <= len <= 20,
    decreases n,
{
    if n < 10 {
        1
    } else {
        let shorter = decimal_len(n / 10);
        proof {
            lemma_decimal_len((n / 10) as nat, 1844674407370955161);
            lemma_len_of_largest();
        }
        shorter + 1
    }
}

proof fn lemma_len_of_largest()
    ensures
        decimal(1844674407370955161).len() == 19,
{
    reveal_with_fuel(decimal, 20);
}

/// Appends the decimal numeral of `n` to `out`, padded with zeros to `width` characters.
pub fn push_zero_padded(out: &mut String, n: u64, width: usize)
    ensures
        final(out)@ == old(out)@ + zero_padded(n as nat, width as nat),
{
    let len = decimal_len(n);
    let mut written: usize = len;
    assert(out@ =~= old(out)@ + zeros(0));
    while written < width
        invariant
            len == decimal(n as nat).len(),
            len <= written,
            written <= width || written == len,
            out@ == old(out)@ + zeros((written - len) as nat),
        decreases width - written,
    {
        out.push('0');
        written = written + 1;
        assert(out@ =~= old(out)@ + zeros((written - len) as nat));
    }
    push_decimal(out, n);
    assert(out@ =~= old(out)@ + zero_padded(n as nat, width as nat));
}

/// The digits of an unsigned number as `str::parse` takes it: one `+` in front is allowed and
/// dropped.
pub open spec fn unsigned_digits(s: Seq<char>) -> Seq<char> {
    if s.len() > 0 && s[0] == '+' {
        s.drop_first()
    } else {
        s
    }
}

/// The number that `s` stands for, where `s` is an optional `+` and then one or more decimal
/// digits; `None` for any other text.
pub open spec fn unsigned_value(s: Seq<char>) -> Option<nat> {
    let digits = unsigned_digits(s);
    if digits.len() > 0 && all_digits(digits) {
        Some(digits_value(digits))
    } else {
        None
    }
}

/// `unsigned_value`, where the number fits in 64 bits.
pub open spec fn u64_value(s: Seq<char>) -> Option<u64> {
    match unsigned_value(s) {
        Some(v) => if v <= u64::MAX {
            Some(v as u64)
        } else {
            None
        },
        None => None,
    }
}

/// A run of digits stands for no less than any of its beginnings.
pub proof fn lemma_digits_value_grows(s: Seq<char>, k: int)
    requires
        0 <= k <= s.len(),
    ensures
        digits_value(s.take(k)) <= digits_value(s),
    decreases s.len(),
{
    if k == s.len() {
        assert(s.take(k) =~= s);
    } else {
        lemma_digits_value_grows(s.drop_last(), k);
        assert(s.drop_last().take(k) =~= s.take(k));
    }
}

/// The plain numeral of `n` reads as `n`.
pub proof fn lemma_unsigned_value_of_decimal(n: nat)
    ensures
        unsigned_value(decimal(n)) == Some(n),
{
    lemma_decimal_digits(n);
    lemma_decimal_value(n);
    assert(is_digit(decimal(n)[0]));
}

/// Reads the characters of `chars` from `from` up to `to` as an unsigned number.
pub fn parse_u64(chars: &Vec<char>, from: usize, to: usize) -> (value: Option<u64>)
    requires
        from <= to <= chars.len(),
    ensures
        value == u64_value(chars@.subrange(from as int, to as int)),
{
    let ghost s = chars@.subrange(from as int, to as int);
    let mut i: usize = from;
    if i < to && chars[i] == '+' {
        i = i + 1;
    }
    let start: usize = i;
    let ghost digits = chars@.subrange(start as int, to as int);
    assert(digits =~= unsigned_digits(s));
    if start == to {
        return None;
    }
    let mut acc: u64 = 0;
    while i < to
        invariant
            from <= start <= i <= to <= chars.len(),
            s == chars@.subrange(from as int, to as int),
            digits == chars@.subrange(start as int, to as int),
            digits == unsigned_digits(s),
            digits.len() > 0,
            all_digits(digits.take(i - start)),
            acc == digits_value(digits.take(i - start)),
        decreases to - i,
    {
        let c: char = chars[i];
        assert(c == digits[i - start]);
        if !(c >= '0' && c <= '9') {
            assert(!is_digit(digits[i - start]));
            return None;
        }
        let d: u64 = (c as u32 - '0' as u32) as u64;
        assert(digits.take(i - start + 1).drop_last() =~= digits.take(i - start));
        if acc > (u64::MAX - d) / 10 {
            proof {
                lemma_digits_value_grows(digits, i - start + 1);
            }
            return None;
        }
        acc = acc * 10 + d;
        i = i + 1;
    }
    assert(digits.take(i - start) =~= digits);
    Some(acc)
}

/// Whether two texts hold the same characters.
pub fn same_text(a: &str, b: &str) -> (same: bool)
    ensures
        same == (a@ == b@),
{
    let left = chars_of(a);
    let right = chars_of(b);
    if left.len() != right.len() {
        return false;
    }
    let mut i: usize = 0;
    while i < left.len()
        invariant
            i <= left.len() == right.len(),
            left@ == a@,
            right@ == b@,
            left@.take(i as int) == right@.take(i as int),
        decreases left.len() - i,
    {
        if left[i] != right[i] {
            return false;
        }
        i = i + 1;
        assert(left@.take(i as int) =~= left@.take(i - 1).push(left@[i - 1]));
        assert(right@.take(i as int) =~= right@.take(i - 1).push(right@[i - 1]));
    }
    assert(left@ =~= left@.take(i as int));
    assert(right@ =~= right@.take(i as int));
    true
}

} // verus!
