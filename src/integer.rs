//! Unsigned decimal integers in text form.
use vstd::prelude::*;

verus! {

/// Represents the ways in which integer parsing fails.
#[derive(Debug, Clone, Copy, PartialEq, Eq)]
pub enum IntErrorKind {
    /// The string is empty.
    Empty,
    /// The string holds something other than an optional `+` followed by decimal digits.
    InvalidDigit,
    /// The number is too large for the target type.
    PosOverflow,
}

/// Represents integer parsing errors.
#[derive(Debug)]
pub struct ParseError {
    /// The way in which parsing failed.
    pub kind: IntErrorKind,
}

/// The error of the given kind.
pub open spec fn wrap_spec(kind: IntErrorKind) -> ParseError {
    ParseError { kind }
}

/// Wraps the given error kind into [`ParseError`].
pub fn wrap(kind: IntErrorKind) -> (r: ParseError)
    ensures
        r == wrap_spec(kind),
{
    ParseError { kind }
}

/// Whether `c` is an ASCII decimal digit.
pub open spec fn is_digit(c: char) -> bool {
    '0' <= c && c <= '9'
}

/// The value of the decimal digit `c`.
pub open spec fn digit_value(c: char) -> nat {
    (c as u32 - '0' as u32) as nat
}

/// The value of a sequence of decimal digits, most significant first.
pub open spec fn digits_value(s: Seq<char>) -> nat
    decreases s.len(),
{
    if s.len() == 0 {
        0
    } else {
        digits_value(s.drop_last()) * 10 + digit_value(s.last())
    }
}

/// The digits of an unsigned number in text form: what follows an optional leading `+`.
pub open spec fn unsigned_body(s: Seq<char>) -> Seq<char> {
    if s.len() > 0 && s[0] == '+' {
        s.drop_first()
    } else {
        s
    }
}

/// Whether `s` is an optional `+` followed by at least one decimal digit.
pub open spec fn is_unsigned_text(s: Seq<char>) -> bool {
    let d = unsigned_body(s);
    d.len() > 0 && forall|i: int| 0 <= i < d.len() ==> is_digit(#[trigger] d[i])
}

/// The result of reading `s` as an unsigned number no larger than `max`.
pub open spec fn parse_unsigned(s: Seq<char>, max: nat) -> Result<nat, IntErrorKind> {
    if s.len() == 0 {
        Err(IntErrorKind::Empty)
    } else if !is_unsigned_text(s) {
        Err(IntErrorKind::InvalidDigit)
    } else if digits_value(unsigned_body(s)) > max {
        Err(IntErrorKind::PosOverflow)
    } else {
        Ok(digits_value(unsigned_body(s)))
    }
}

proof fn lemma_prefix_value_le(s: Seq<char>, i: int)
    requires
        0 <= i <= s.len(),
    ensures
        digits_value(s.take(i)) <= digits_value(s),
    decreases s.len() - i,
{
    if i < s.len() {
        lemma_prefix_value_le(s, i + 1);
        assert(s.take(i + 1).drop_last() =~= s.take(i));
    } else {
        assert(s.take(i) =~= s);
    }
}

/// Parses an unsigned decimal number no larger than `max`.
///
/// # Errors
///
/// Returns [`ParseError`] if the string is empty, is not an optional `+` followed by decimal
/// digits, or holds a number larger than `max`.
pub fn parse_bounded(string: &str, max: u64) -> (r: Result<u64, ParseError>)
    ensures
        match parse_unsigned(string@, max as nat) {
            Ok(v) => r is Ok && r->Ok_0 == v,
            Err(kind) => r is Err && r->Err_0 == wrap_spec(kind),
        },
{
    let n = string.unicode_len();
    if n == 0 {
        return Err(wrap(IntErrorKind::Empty));
    }
    let start: usize = if string.get_char(0) == '+' { 1 } else { 0 };
    let ghost body = unsigned_body(string@);
    assert(body =~= string@.subrange(start as int, n as int));
    if start == n {
        return Err(wrap(IntErrorKind::InvalidDigit));
    }
    let mut i: usize = start;
    while i < n
        invariant
            start <= i <= n,
            n == string@.len(),
            body == string@.subrange(start as int, n as int),
            body == unsigned_body(string@),
            forall|j: int| 0 <= j < i - start ==> is_digit(#[trigger] body[j]),
        decreases n - i,
    {
        let c = string.get_char(i);
        if !(c >= '0' && c <= '9') {
            assert(!is_digit(body[i - start]));
            assert(!is_unsigned_text(string@));
            return Err(wrap(IntErrorKind::InvalidDigit));
        }
        i = i + 1;
    }
    let mut acc: u64 = 0;
    let mut i: usize = start;
    while i < n
        invariant
            start <= i <= n,
            n == string@.len(),
            body == string@.subrange(start as int, n as int),
            body == unsigned_body(string@),
            forall|j: int| 0 <= j < body.len() ==> is_digit(#[trigger] body[j]),
            acc as nat == digits_value(body.take(i - start)),
            acc <= max,
        decreases n - i,
    {
        let c = string.get_char(i);
        assert(c == body[i - start]);
        assert(is_digit(body[i - start]));
        let d = (c as u32 - '0' as u32) as u64;
        assert(body.take(i + 1 - start).drop_last() =~= body.take(i - start));
        assert(body.take(i + 1 - start).last() == c);
        if d > max || acc > (max - d) / 10 {
            proof {
                assert(digits_value(body.take(i + 1 - start)) == acc * 10 + d);
                assert(acc * 10 + d > max) by (nonlinear_arith)
                    requires
                        d > max || acc > (max - d) / 10,
                ;
                lemma_prefix_value_le(body, i + 1 - start);
                assert(is_unsigned_text(string@));
            }
            return Err(wrap(IntErrorKind::PosOverflow));
        }
        assert(acc * 10 + d <= max) by (nonlinear_arith)
            requires
                d <= max,
                acc <= (max - d) / 10,
        ;
        acc = acc * 10 + d;
        i = i + 1;
    }
    assert(body.take(n - start) =~= body);
    Ok(acc)
}

} // verus!

verus! {

proof fn lemma_digit_char(d: nat)
    requires
        d < 10,
    ensures
        is_digit(crate::text::digit_char(d)),
        digit_value(crate::text::digit_char(d)) == d,
{
}

proof fn lemma_decimal_digits(n: nat)
    ensures
        crate::text::decimal(n).len() > 0,
        forall|i: int|
            0 <= i < crate::text::decimal(n).len() ==> is_digit(
                #[trigger] crate::text::decimal(n)[i],
            ),
        digits_value(crate::text::decimal(n)) == n,
    decreases n,
{
    let s = crate::text::decimal(n);
    if n < 10 {
        lemma_digit_char(n);
        assert(s.drop_last() =~= Seq::<char>::empty());
        assert(s.last() == crate::text::digit_char(n));
        assert(digits_value(s) == digits_value(s.drop_last()) * 10 + digit_value(s.last()));
        assert(digits_value(Seq::<char>::empty()) == 0);
    } else {
        lemma_decimal_digits(n / 10);
        lemma_digit_char(n % 10);
        assert(s.drop_last() =~= crate::text::decimal(n / 10));
        assert(s.last() == crate::text::digit_char(n % 10));
        assert((n / 10) * 10 + n % 10 == n) by (nonlinear_arith);
        assert(digits_value(s) == digits_value(s.drop_last()) * 10 + digit_value(s.last()));
    }
}

/// Reading back the decimal form of a number gives the number, for any bound that the number
/// respects.
pub proof fn lemma_parse_decimal(n: nat, max: nat)
    requires
        n <= max,
    ensures
        parse_unsigned(crate::text::decimal(n), max) == Ok::<nat, IntErrorKind>(n),
{
    let s = crate::text::decimal(n);
    lemma_decimal_digits(n);
    assert(is_digit(s[0]));
    assert(unsigned_body(s) == s);
}

} // verus!
