//! Radix-16 integer parsing (the rules of `from_str_radix` with radix 16)
//! and fixed-width hexadecimal / decimal rendering.

use vstd::prelude::*;

verus! {

/// Why a string is not a valid radix-16 integer of the target width.
#[derive(Debug, Clone, Copy, PartialEq, Eq, Structural)]
pub enum IntErrorKind {
    /// The string is empty.
    Empty,
    /// A character that is not a hexadecimal digit was found.
    InvalidDigit,
    /// The number is too large for the target type.
    PosOverflow,
}

pub open spec fn is_hex_digit(c: char) -> bool {
    ('0' <= c && c <= '9') || ('a' <= c && c <= 'f') || ('A' <= c && c <= 'F')
}

pub open spec fn hex_digit_value(c: char) -> nat {
    if '0' <= c && c <= '9' {
        (c as int - '0' as int) as nat
    } else if 'a' <= c && c <= 'f' {
        (c as int - 'a' as int + 10) as nat
    } else {
        (c as int - 'A' as int + 10) as nat
    }
}

/// The value of a sequence of hexadecimal digits, most significant first.
pub open spec fn hex_value(s: Seq<char>) -> nat
    decreases s.len(),
{
    if s.len() == 0 {
        0
    } else {
        16 * hex_value(s.drop_last()) + hex_digit_value(s.last())
    }
}

/// The length of the longest prefix of `s` made of hexadecimal digits.
pub open spec fn hex_prefix_len(s: Seq<char>) -> nat
    decreases s.len(),
{
    if s.len() == 0 {
        0
    } else if is_hex_digit(s[0]) {
        1 + hex_prefix_len(s.drop_first())
    } else {
        0
    }
}

/// What `from_str_radix(s, 16)` gives for an unsigned type whose largest
/// value is `max`: an optional leading `+`, then digits; digits are read
/// from the left, and the first digit position that is either not a
/// hexadecimal digit or makes the value exceed `max` decides the error.
pub open spec fn radix16_parse(s: Seq<char>, max: nat) -> Result<nat, IntErrorKind> {
    if s.len() == 0 {
        Err(IntErrorKind::Empty)
    } else {
        let digits = if s[0] == '+' { s.drop_first() } else { s };
        if digits.len() == 0 {
            Err(IntErrorKind::InvalidDigit)
        } else {
            let j = hex_prefix_len(digits);
            if hex_value(digits.take(j as int)) > max {
                Err(IntErrorKind::PosOverflow)
            } else if j < digits.len() {
                Err(IntErrorKind::InvalidDigit)
            } else {
                Ok(hex_value(digits))
            }
        }
    }
}

proof fn lemma_hex_prefix_len(s: Seq<char>, i: int)
    requires
        0 <= i <= s.len(),
        forall|k: int| 0 <= k < i ==> is_hex_digit(#[trigger] s[k]),
        i == s.len() || !is_hex_digit(s[i]),
    ensures
        hex_prefix_len(s) == i,
    decreases i,
{
    if i > 0 {
        let t = s.drop_first();
        assert forall|k: int| 0 <= k < i - 1 implies is_hex_digit(#[trigger] t[k]) by {
            assert(t[k] == s[k + 1]);
        }
        if i < s.len() {
            assert(t[i - 1] == s[i]);
        }
        lemma_hex_prefix_len(t, i - 1);
    }
}

proof fn lemma_hex_prefix_len_facts(s: Seq<char>)
    ensures
        hex_prefix_len(s) <= s.len(),
        forall|k: int| 0 <= k < hex_prefix_len(s) ==> is_hex_digit(#[trigger] s[k]),
        hex_prefix_len(s) == s.len() || !is_hex_digit(s[hex_prefix_len(s) as int]),
    decreases s.len(),
{
    if s.len() > 0 && is_hex_digit(s[0]) {
        let t = s.drop_first();
        lemma_hex_prefix_len_facts(t);
        assert forall|k: int| 0 <= k < hex_prefix_len(s) implies is_hex_digit(#[trigger] s[k]) by {
            if k > 0 {
                assert(s[k] == t[k - 1]);
            }
        }
        if hex_prefix_len(s) < s.len() {
            assert(s[hex_prefix_len(s) as int] == t[hex_prefix_len(t) as int]);
        }
    }
}

proof fn lemma_hex_value_prefix_monotone(s: Seq<char>, i: int, j: int)
    requires
        0 <= i <= j <= s.len(),
    ensures
        hex_value(s.take(i)) <= hex_value(s.take(j)),
    decreases j - i,
{
    if i < j {
        lemma_hex_value_prefix_monotone(s, i, j - 1);
        assert(s.take(j).drop_last() =~= s.take(j - 1));
    }
}

/// Parses `s` as `from_str_radix(s, 16)` does for an unsigned type whose
/// largest value is `max`.
pub fn parse_radix16(s: &str, max: u32) -> (r: Result<u32, IntErrorKind>)
    requires
        max <= 0xffff,
    ensures
        match r {
            Ok(v) => radix16_parse(s@, max as nat) == Ok::<nat, IntErrorKind>(v as nat),
            Err(k) => radix16_parse(s@, max as nat) == Err::<nat, IntErrorKind>(k),
        },
        r matches Ok(v) ==> v <= max,
{
    let n = s.unicode_len();
    if n == 0 {
        return Err(IntErrorKind::Empty);
    }
    let start: usize = if s.get_char(0) == '+' { 1 } else { 0 };
    if start == n {
        return Err(IntErrorKind::InvalidDigit);
    }
    let ghost digits = if s@[0] == '+' { s@.drop_first() } else { s@ };
    assert(digits =~= s@.subrange(start as int, n as int));
    let mut acc: u32 = 0;
    let mut i: usize = start;
    while i < n
        invariant
            s@.len() == n,
            start <= i <= n,
            start < n,
            max <= 0xffff,
            digits =~= s@.subrange(start as int, n as int),
            digits == (if s@[0] == '+' { s@.drop_first() } else { s@ }),
            forall|k: int| 0 <= k < i - start ==> is_hex_digit(#[trigger] digits[k]),
            acc as nat == hex_value(digits.take(i - start)),
            acc <= max,
        decreases n - i,
    {
        let c = s.get_char(i);
        let ghost p = (i - start) as int;
        assert(digits[p] == c);
        let d: u32 = if '0' <= c && c <= '9' {
            (c as u32) - ('0' as u32)
        } else if 'a' <= c && c <= 'f' {
            (c as u32) - ('a' as u32) + 10
        } else if 'A' <= c && c <= 'F' {
            (c as u32) - ('A' as u32) + 10
        } else {
            proof {
                lemma_hex_prefix_len(digits, p);
            }
            return Err(IntErrorKind::InvalidDigit);
        };
        assert(digits.take(p + 1).drop_last() =~= digits.take(p));
        assert(digits.take(p + 1).last() == c);
        let next = acc * 16 + d;
        assert(next as nat == hex_value(digits.take(p + 1)));
        if next > max {
            proof {
                lemma_hex_prefix_len_facts(digits);
                let j = hex_prefix_len(digits) as int;
                if j < p + 1 {
                    assert(is_hex_digit(digits[j]));
                }
                lemma_hex_value_prefix_monotone(digits, p + 1, j);
            }
            return Err(IntErrorKind::PosOverflow);
        }
        acc = next;
        i = i + 1;
    }
    proof {
        lemma_hex_prefix_len(digits, (n - start) as int);
        assert(digits.take((n - start) as int) =~= digits);
    }
    Ok(acc)
}

/// The text `IntErrorKind`'s variants are reported with.
pub open spec fn int_error_text(k: IntErrorKind) -> Seq<char> {
    match k {
        IntErrorKind::Empty => "cannot parse integer from empty string"@,
        IntErrorKind::InvalidDigit => "invalid digit found in string"@,
        IntErrorKind::PosOverflow => "number too large to fit in target type"@,
    }
}

/// Renders a parse failure the way it is reported to users.
pub fn int_error_message(k: IntErrorKind) -> (m: String)
    ensures
        m@ == int_error_text(k),
{
    match k {
        IntErrorKind::Empty => String::from_str("cannot parse integer from empty string"),
        IntErrorKind::InvalidDigit => String::from_str("invalid digit found in string"),
        IntErrorKind::PosOverflow => String::from_str("number too large to fit in target type"),
    }
}

/// The lowercase hexadecimal digit for `d < 16`.
pub open spec fn hex_char(d: nat) -> char {
    if d == 0 { '0' } else if d == 1 { '1' } else if d == 2 { '2' } else if d == 3 { '3' }
    else if d == 4 { '4' } else if d == 5 { '5' } else if d == 6 { '6' } else if d == 7 { '7' }
    else if d == 8 { '8' } else if d == 9 { '9' } else if d == 10 { 'a' } else if d == 11 { 'b' }
    else if d == 12 { 'c' } else if d == 13 { 'd' } else if d == 14 { 'e' } else { 'f' }
}

/// `v` as exactly four lowercase hexadecimal digits (`{:04x}` for a `u16`).
pub open spec fn hex4(v: nat) -> Seq<char> {
    seq![
        hex_char((v / 4096) % 16),
        hex_char((v / 256) % 16),
        hex_char((v / 16) % 16),
        hex_char(v % 16),
    ]
}

/// The decimal digit for `d < 10`.
pub open spec fn dec_char(d: nat) -> char {
    if d == 0 { '0' } else if d == 1 { '1' } else if d == 2 { '2' } else if d == 3 { '3' }
    else if d == 4 { '4' } else if d == 5 { '5' } else if d == 6 { '6' } else if d == 7 { '7' }
    else if d == 8 { '8' } else { '9' }
}

/// `n` in decimal without leading zeros (`{}` for an unsigned integer).
pub open spec fn decimal(n: nat) -> Seq<char>
    decreases n,
{
    if n < 10 {
        seq![dec_char(n)]
    } else {
        decimal(n / 10).push(dec_char(n % 10))
    }
}

proof fn lemma_hex_char(d: nat)
    requires
        d < 16,
    ensures
        is_hex_digit(hex_char(d)),
        hex_digit_value(hex_char(d)) == d,
{
}

fn hex_digit_str(d: u16) -> (s: &'static str)
    requires
        d < 16,
    ensures
        s@ == seq![hex_char(d as nat)],
{
    if d == 0 { proof { reveal_strlit("0"); } "0" }
    else if d == 1 { proof { reveal_strlit("1"); } "1" }
    else if d == 2 { proof { reveal_strlit("2"); } "2" }
    else if d == 3 { proof { reveal_strlit("3"); } "3" }
    else if d == 4 { proof { reveal_strlit("4"); } "4" }
    else if d == 5 { proof { reveal_strlit("5"); } "5" }
    else if d == 6 { proof { reveal_strlit("6"); } "6" }
    else if d == 7 { proof { reveal_strlit("7"); } "7" }
    else if d == 8 { proof { reveal_strlit("8"); } "8" }
    else if d == 9 { proof { reveal_strlit("9"); } "9" }
    else if d == 10 { proof { reveal_strlit("a"); } "a" }
    else if d == 11 { proof { reveal_strlit("b"); } "b" }
    else if d == 12 { proof { reveal_strlit("c"); } "c" }
    else if d == 13 { proof { reveal_strlit("d"); } "d" }
    else if d == 14 { proof { reveal_strlit("e"); } "e" }
    else { proof { reveal_strlit("f"); } "f" }
}

fn dec_digit_str(d: u64) -> (s: &'static str)
    requires
        d < 10,
    ensures
        s@ == seq![dec_char(d as nat)],
{
    if d == 0 { proof { reveal_strlit("0"); } "0" }
    else if d == 1 { proof { reveal_strlit("1"); } "1" }
    else if d == 2 { proof { reveal_strlit("2"); } "2" }
    else if d == 3 { proof { reveal_strlit("3"); } "3" }
    else if d == 4 { proof { reveal_strlit("4"); } "4" }
    else if d == 5 { proof { reveal_strlit("5"); } "5" }
    else if d == 6 { proof { reveal_strlit("6"); } "6" }
    else if d == 7 { proof { reveal_strlit("7"); } "7" }
    else if d == 8 { proof { reveal_strlit("8"); } "8" }
    else { proof { reveal_strlit("9"); } "9" }
}

/// Appends `v` as four lowercase hexadecimal digits to `out`.
pub fn push_hex4(out: &mut String, v: u16)
    ensures
        final(out)@ == old(out)@ + hex4(v as nat),
{
    out.append(hex_digit_str((v / 4096) % 16));
    out.append(hex_digit_str((v / 256) % 16));
    out.append(hex_digit_str((v / 16) % 16));
    out.append(hex_digit_str(v % 16));
    assert(final(out)@ =~= old(out)@ + hex4(v as nat));
}

/// Appends `n` in decimal to `out`.
pub fn push_decimal(out: &mut String, n: u64)
    ensures
        final(out)@ == old(out)@ + decimal(n as nat),
    decreases n,
{
    if n < 10 {
        out.append(dec_digit_str(n));
    } else {
        push_decimal(out, n / 10);
        out.append(dec_digit_str(n % 10));
        assert(final(out)@ =~= old(out)@ + decimal(n as nat));
    }
}

/// `n` in decimal, with a leading `-` when negative (`{}` for a signed
/// integer).
pub open spec fn signed_decimal(n: int) -> Seq<char> {
    if n < 0 {
        seq!['-'] + decimal((-n) as nat)
    } else {
        decimal(n as nat)
    }
}

/// Appends `n` in decimal, with a leading `-` when negative, to `out`.
pub fn push_signed_decimal(out: &mut String, n: i32)
    ensures
        final(out)@ == old(out)@ + signed_decimal(n as int),
{
    if n < 0 {
        proof {
            reveal_strlit("-");
        }
        out.append("-");
        let magnitude: u64 = (0 - (n as i64)) as u64;
        push_decimal(out, magnitude);
        assert(final(out)@ =~= old(out)@ + signed_decimal(n as int));
    } else {
        push_decimal(out, n as u64);
    }
}

/// Reading back four hexadecimal digits gives the number they render.
pub proof fn lemma_hex4_parses(v: nat)
    requires
        v <= 0xffff,
    ensures
        hex_prefix_len(hex4(v)) == 4,
        hex_value(hex4(v)) == v,
        radix16_parse(hex4(v), 0xffff) == Ok::<nat, IntErrorKind>(v),
{
    let s = hex4(v);
    let a = (v / 4096) % 16;
    let b = (v / 256) % 16;
    let c = (v / 16) % 16;
    let d = v % 16;
    lemma_hex_char(a);
    lemma_hex_char(b);
    lemma_hex_char(c);
    lemma_hex_char(d);
    let s1 = seq![hex_char(a)];
    let s2 = seq![hex_char(a), hex_char(b)];
    let s3 = seq![hex_char(a), hex_char(b), hex_char(c)];
    assert(s1.drop_last() =~= Seq::<char>::empty());
    assert(hex_value(s1.drop_last()) == 0);
    assert(s1.last() == hex_char(a));
    assert(hex_value(s1) == a);
    assert(s2.drop_last() =~= s1);
    assert(hex_value(s2) == a * 16 + b);
    assert(s3.drop_last() =~= s2);
    assert(hex_value(s3) == (a * 16 + b) * 16 + c);
    assert(s.drop_last() =~= s3);
    assert(hex_value(s) == ((a * 16 + b) * 16 + c) * 16 + d);
    assert(((a * 16 + b) * 16 + c) * 16 + d == v) by (nonlinear_arith)
        requires
            v <= 0xffff,
            a == (v / 4096) % 16,
            b == (v / 256) % 16,
            c == (v / 16) % 16,
            d == v % 16,
    ;
    assert forall|k: int| 0 <= k < 4 implies is_hex_digit(#[trigger] s[k]) by {}
    lemma_hex_prefix_len(s, 4);
    assert(s.take(4) =~= s);
}

/// The uppercase hexadecimal digit for `d < 16`.
pub open spec fn hex_char_upper(d: nat) -> char {
    if d == 0 { '0' } else if d == 1 { '1' } else if d == 2 { '2' } else if d == 3 { '3' }
    else if d == 4 { '4' } else if d == 5 { '5' } else if d == 6 { '6' } else if d == 7 { '7' }
    else if d == 8 { '8' } else if d == 9 { '9' } else if d == 10 { 'A' } else if d == 11 { 'B' }
    else if d == 12 { 'C' } else if d == 13 { 'D' } else if d == 14 { 'E' } else { 'F' }
}

/// `v` as exactly four uppercase hexadecimal digits (`{:04X}` for a `u16`).
pub open spec fn hex4_upper(v: nat) -> Seq<char> {
    seq![
        hex_char_upper((v / 4096) % 16),
        hex_char_upper((v / 256) % 16),
        hex_char_upper((v / 16) % 16),
        hex_char_upper(v % 16),
    ]
}

/// The hexadecimal digits are exactly `0`-`9`, `a`-`f` and `A`-`F`, worth
/// their decimal value, ten more than their offset from `a`, and ten more
/// than their offset from `A`; both cases read alike.
pub proof fn lemma_hex_digits_of_both_cases()
    ensures
        forall|c: char| '0' <= c <= '9' ==> is_hex_digit(c) && hex_digit_value(c) == c as int - '0' as int,
        forall|c: char| 'a' <= c <= 'f' ==> is_hex_digit(c) && hex_digit_value(c) == c as int - 'a' as int + 10,
        forall|c: char| 'A' <= c <= 'F' ==> is_hex_digit(c) && hex_digit_value(c) == c as int - 'A' as int + 10,
        forall|c: char|
            #![trigger is_hex_digit(c)]
            is_hex_digit(c) ==> ('0' <= c <= '9') || ('a' <= c <= 'f') || ('A' <= c <= 'F'),
        forall|d: nat| d < 16 ==> is_hex_digit(#[trigger] hex_char_upper(d)) && hex_digit_value(hex_char_upper(d)) == d,
{
}

/// Reading back four uppercase hexadecimal digits gives the number they
/// render, as with lowercase ones.
pub proof fn lemma_hex4_upper_parses(v: nat)
    requires
        v <= 0xffff,
    ensures
        hex_prefix_len(hex4_upper(v)) == 4,
        hex_value(hex4_upper(v)) == v,
        radix16_parse(hex4_upper(v), 0xffff) == Ok::<nat, IntErrorKind>(v),
{
    lemma_hex_digits_of_both_cases();
    let s = hex4_upper(v);
    let a = (v / 4096) % 16;
    let b = (v / 256) % 16;
    let c = (v / 16) % 16;
    let d = v % 16;
    let s1 = seq![hex_char_upper(a)];
    let s2 = seq![hex_char_upper(a), hex_char_upper(b)];
    let s3 = seq![hex_char_upper(a), hex_char_upper(b), hex_char_upper(c)];
    assert(s1.drop_last() =~= Seq::<char>::empty());
    assert(hex_value(s1.drop_last()) == 0);
    assert(s1.last() == hex_char_upper(a));
    assert(hex_value(s1) == a);
    assert(s2.drop_last() =~= s1);
    assert(hex_value(s2) == a * 16 + b);
    assert(s3.drop_last() =~= s2);
    assert(hex_value(s3) == (a * 16 + b) * 16 + c);
    assert(s.drop_last() =~= s3);
    assert(hex_value(s) == ((a * 16 + b) * 16 + c) * 16 + d);
    assert(((a * 16 + b) * 16 + c) * 16 + d == v) by (nonlinear_arith)
        requires
            v <= 0xffff,
            a == (v / 4096) % 16,
            b == (v / 256) % 16,
            c == (v / 16) % 16,
            d == v % 16,
    ;
    assert forall|k: int| 0 <= k < 4 implies is_hex_digit(#[trigger] s[k]) by {}
    lemma_hex_prefix_len(s, 4);
    assert(s.take(4) =~= s);
}

} // verus!
