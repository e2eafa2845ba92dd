//! Decimal text for unsigned integers: rendering (as `{}` formats a `u64`)
//! and parsing (as `str::parse::<u32>` and `str::parse::<bool>` accept).
use vstd::prelude::*;

verus! {

/// The ASCII digit for `d` (`d < 10`).
pub open spec fn digit_char(d: nat) -> char {
    seq!['0', '1', '2', '3', '4', '5', '6', '7', '8', '9'][d as int]
}

/// `c` is one of the ASCII digits `0`..`9`.
pub open spec fn is_digit(c: char) -> bool {
    0x30 <= (c as u32) <= 0x39
}

/// The value of the ASCII digit `c`.
pub open spec fn digit_value(c: char) -> nat {
    ((c as u32) - 0x30) as nat
}

/// Every character of `s` is an ASCII digit.
pub open spec fn all_digits(s: Seq<char>) -> bool {
    forall|i: int| 0 <= i < s.len() ==> is_digit(#[trigger] s[i])
}

/// `acc` followed by the digits `d`, read most significant first.
pub open spec fn fold_digits(acc: nat, d: Seq<char>) -> nat
    decreases d.len(),
{
    if d.len() == 0 {
        acc
    } else {
        fold_digits(acc * 10 + digit_value(d[0]), d.drop_first())
    }
}

/// The shortest decimal text of `n`.
pub open spec fn decimal(n: nat) -> Seq<char>
    decreases n,
{
    if n < 10 {
        seq![digit_char(n)]
    } else {
        decimal(n / 10).push(digit_char(n % 10))
    }
}

/// Why a text is not a `u32`, as `std::num::IntErrorKind` tells it.
#[derive(Clone, Copy, Debug, PartialEq, Eq, Structural)]
pub enum IntErrorKind {
    /// The text is empty.
    Empty,
    /// A character is not a digit, or the text is a lone sign.
    InvalidDigit,
    /// The number does not fit in a `u32`.
    PosOverflow,
}

/// Reads the digits `d` after the value `acc` read so far, left to right,
/// stopping at the first character that is not a digit or that makes the
/// value exceed `u32::MAX`.
pub open spec fn scan_u32(acc: nat, d: Seq<char>) -> Result<u32, IntErrorKind>
    decreases d.len(),
{
    if d.len() == 0 {
        Ok(acc as u32)
    } else if !is_digit(d[0]) {
        Err(IntErrorKind::InvalidDigit)
    } else if acc * 10 + digit_value(d[0]) > u32::MAX {
        Err(IntErrorKind::PosOverflow)
    } else {
        scan_u32(acc * 10 + digit_value(d[0]), d.drop_first())
    }
}

/// What `str::parse::<u32>` gives for `s`: an optional leading `+`, then
/// decimal digits whose value fits in `u32`.
pub open spec fn parse_u32_spec(s: Seq<char>) -> Result<u32, IntErrorKind> {
    if s.len() == 0 {
        Err(IntErrorKind::Empty)
    } else if (s[0] == '+' || s[0] == '-') && s.len() == 1 {
        Err(IntErrorKind::InvalidDigit)
    } else if s[0] == '+' {
        scan_u32(0, s.drop_first())
    } else {
        scan_u32(0, s)
    }
}

/// The text with which `std::num::ParseIntError` reports a kind of error.
pub open spec fn int_error_message(k: IntErrorKind) -> Seq<char> {
    match k {
        IntErrorKind::Empty => "cannot parse integer from empty string"@,
        IntErrorKind::InvalidDigit => "invalid digit found in string"@,
        IntErrorKind::PosOverflow => "number too large to fit in target type"@,
    }
}

impl IntErrorKind {
    /// The text with which the error is reported.
    pub fn message(&self) -> (s: &'static str)
        ensures
            s@ == int_error_message(*self),
    {
        match self {
            IntErrorKind::Empty => "cannot parse integer from empty string",
            IntErrorKind::InvalidDigit => "invalid digit found in string",
            IntErrorKind::PosOverflow => "number too large to fit in target type",
        }
    }
}

/// What `str::parse::<bool>` gives for `s`.
pub open spec fn parse_bool_seq(s: Seq<char>) -> Option<bool> {
    if s == "true"@ {
        Some(true)
    } else if s == "false"@ {
        Some(false)
    } else {
        None
    }
}

proof fn lemma_digit_char(d: nat)
    requires
        d < 10,
    ensures
        is_digit(digit_char(d)),
        digit_value(digit_char(d)) == d,
        digit_char(d) != '+',
{
    assert(d == 0 || d == 1 || d == 2 || d == 3 || d == 4 || d == 5 || d == 6 || d == 7 || d
        == 8 || d == 9);
}

proof fn lemma_fold_push(acc: nat, s: Seq<char>, c: char)
    ensures
        fold_digits(acc, s.push(c)) == fold_digits(acc, s) * 10 + digit_value(c),
    decreases s.len(),
{
    if s.len() == 0 {
        let t = s.push(c);
        assert(t.drop_first() =~= Seq::<char>::empty());
        assert(fold_digits(acc * 10 + digit_value(c), Seq::<char>::empty()) == acc * 10
            + digit_value(c));
    } else {
        let t = s.push(c);
        assert(t.drop_first() =~= s.drop_first().push(c));
        assert(t[0] == s[0]);
        lemma_fold_push(acc * 10 + digit_value(s[0]), s.drop_first(), c);
    }
}

proof fn lemma_fold_at_least(acc: nat, d: Seq<char>)
    ensures
        fold_digits(acc, d) >= acc,
    decreases d.len(),
{
    if d.len() > 0 {
        lemma_fold_at_least(acc * 10 + digit_value(d[0]), d.drop_first());
    }
}

proof fn lemma_scan_fits(acc: nat, d: Seq<char>)
    requires
        all_digits(d),
        fold_digits(acc, d) <= u32::MAX,
    ensures
        scan_u32(acc, d) == Ok::<u32, IntErrorKind>(fold_digits(acc, d) as u32),
    decreases d.len(),
{
    if d.len() > 0 {
        let a2 = acc * 10 + digit_value(d[0]);
        assert(is_digit(d[0]));
        lemma_fold_at_least(a2, d.drop_first());
        assert forall|i: int| 0 <= i < d.drop_first().len() implies is_digit(
            #[trigger] d.drop_first()[i],
        ) by {
            assert(d.drop_first()[i] == d[i + 1]);
        }
        lemma_scan_fits(a2, d.drop_first());
    }
}

/// The decimal text of `n` is made of digits only and reads back as `n`.
pub proof fn lemma_decimal_digits(n: nat)
    ensures
        decimal(n).len() > 0,
        all_digits(decimal(n)),
        fold_digits(0, decimal(n)) == n,
    decreases n,
{
    if n < 10 {
        lemma_digit_char(n);
        let s = decimal(n);
        assert(s.drop_first() =~= Seq::<char>::empty());
        assert(fold_digits(digit_value(s[0]), s.drop_first()) == n);
    } else {
        lemma_decimal_digits(n / 10);
        lemma_digit_char(n % 10);
        let s = decimal(n);
        lemma_fold_push(0, decimal(n / 10), digit_char(n % 10));
        assert(n == (n / 10) * 10 + n % 10);
        assert forall|i: int| 0 <= i < s.len() implies is_digit(#[trigger] s[i]) by {
            if i < s.len() - 1 {
                assert(s[i] == decimal(n / 10)[i]);
            }
        }
    }
}

/// The decimal text of a number has no whitespace around it.
pub proof fn lemma_decimal_is_trimmed(n: nat)
    ensures
        crate::text::trim_seq(decimal(n)) == decimal(n),
{
    lemma_decimal_digits(n);
    let s = decimal(n);
    assert(is_digit(s[0]));
    assert(is_digit(s[s.len() - 1]));
    crate::text::lemma_trim_unchanged(s);
}

/// Parsing the decimal text of any `u32` gives that number back.
pub proof fn lemma_parse_decimal_roundtrip(n: u32)
    ensures
        parse_u32_spec(decimal(n as nat)) == Ok::<u32, IntErrorKind>(n),
{
    lemma_decimal_digits(n as nat);
    let s = decimal(n as nat);
    assert(is_digit(s[0]));
    lemma_digit_char(0);
    lemma_scan_fits(0, s);
}

/// The ASCII text of the digit `d`.
fn digit_text(d: u64) -> (t: &'static str)
    requires
        d < 10,
    ensures
        t@ == seq![digit_char(d as nat)],
{
    if d == 0 {
        proof { reveal_strlit("0"); }
        "0"
    } else if d == 1 {
        proof { reveal_strlit("1"); }
        "1"
    } else if d == 2 {
        proof { reveal_strlit("2"); }
        "2"
    } else if d == 3 {
        proof { reveal_strlit("3"); }
        "3"
    } else if d == 4 {
        proof { reveal_strlit("4"); }
        "4"
    } else if d == 5 {
        proof { reveal_strlit("5"); }
        "5"
    } else if d == 6 {
        proof { reveal_strlit("6"); }
        "6"
    } else if d == 7 {
        proof { reveal_strlit("7"); }
        "7"
    } else if d == 8 {
        proof { reveal_strlit("8"); }
        "8"
    } else {
        proof { reveal_strlit("9"); }
        "9"
    }
}

/// Appends the decimal text of `n` to `out`, as `write!(out, "{}", n)`.
pub fn push_decimal(out: &mut String, n: u64)
    ensures
        final(out)@ == old(out)@ + decimal(n as nat),
    decreases n,
{
    if n >= 10 {
        push_decimal(out, n / 10);
    }
    out.append(digit_text(n % 10));
    proof {
        if n >= 10 {
            assert(decimal(n as nat) == decimal((n / 10) as nat).push(digit_char((n % 10) as nat)));
        }
    }
    assert(out@ =~= old(out)@ + decimal(n as nat));
}

/// The decimal text of `n`, as `n.to_string()`.
pub fn format_decimal(n: u64) -> (s: String)
    ensures
        s@ == decimal(n as nat),
{
    let mut s = String::new();
    push_decimal(&mut s, n);
    assert(s@ =~= decimal(n as nat));
    s
}

/// Parses `s` as `str::parse::<u32>` does, with the kind of error it reports.
pub fn parse_u32(s: &str) -> (r: Result<u32, IntErrorKind>)
    ensures
        r == parse_u32_spec(s@),
{
    let cs = crate::text::chars_of(s);
    let n: usize = cs.len();
    if n == 0 {
        return Err(IntErrorKind::Empty);
    }
    if (cs[0] == '+' || cs[0] == '-') && n == 1 {
        return Err(IntErrorKind::InvalidDigit);
    }
    let start: usize = if cs[0] == '+' {
        1
    } else {
        0
    };
    let ghost d = if cs@[0] == '+' {
        s@.drop_first()
    } else {
        s@
    };
    assert(d =~= s@.skip(start as int));
    assert(d.skip(0) =~= d);
    let mut acc: u64 = 0;
    let mut k: usize = start;
    while k < n
        invariant
            cs@ == s@,
            n == cs.len(),
            d == s@.skip(start as int),
            start <= k <= n,
            acc <= u32::MAX,
            parse_u32_spec(s@) == scan_u32(0, d),
            scan_u32(0, d) == scan_u32(acc as nat, d.skip(k - start)),
        decreases n - k,
    {
        let c = cs[k];
        let u: u32 = c as u32;
        let ghost rest = d.skip(k - start);
        assert(rest[0] == c);
        assert(rest.drop_first() =~= d.skip(k + 1 - start));
        if u < 0x30 || u > 0x39 {
            return Err(IntErrorKind::InvalidDigit);
        }
        let v: u64 = acc * 10 + ((u - 0x30) as u64);
        if v > 0xffff_ffff {
            return Err(IntErrorKind::PosOverflow);
        }
        acc = v;
        k = k + 1;
    }
    assert(d.skip(n - start) =~= Seq::<char>::empty());
    Ok(acc as u32)
}

/// Parses `s` as `str::parse::<bool>` does; `None` where that gives an error.
pub fn parse_bool(s: &str) -> (r: Option<bool>)
    ensures
        r == parse_bool_seq(s@),
{
    if crate::text::str_equal(s, "true") {
        Some(true)
    } else if crate::text::str_equal(s, "false") {
        Some(false)
    } else {
        None
    }
}

} // verus!
