//! Amounts arrive as decimal text (the `value` of a transfer body) and are
//! read as `u64`, with the rules and error kinds of Rust's `u64` parsing.

use vstd::prelude::*;
use vstd::utf8::encode_utf8;

verus! {

/// Why decimal text is not a `u64`.
#[derive(Clone, Copy, Debug, PartialEq, Eq, Structural)]
pub enum AmountError {
    /// The text is empty.
    Empty,
    /// A byte is not a decimal digit (after one optional leading `+`).
    InvalidDigit,
    /// The number is larger than `u64::MAX`.
    PosOverflow,
}

pub open spec fn is_decimal_digit(b: u8) -> bool {
    0x30 <= b <= 0x39
}

/// Reading a run of digits from left to right: at the first byte that is no
/// digit the result is `InvalidDigit`; where the value so far would exceed
/// `u64::MAX` it is `PosOverflow`.
pub open spec fn scan_decimal(d: Seq<u8>) -> Result<u64, AmountError>
    decreases d.len(),
{
    if d.len() == 0 {
        Ok(0u64)
    } else {
        match scan_decimal(d.drop_last()) {
            Err(e) => Err(e),
            Ok(v) => if !is_decimal_digit(d.last()) {
                Err(AmountError::InvalidDigit)
            } else if v * 10 + (d.last() - 0x30) > u64::MAX {
                Err(AmountError::PosOverflow)
            } else {
                Ok((v * 10 + (d.last() - 0x30)) as u64)
            },
        }
    }
}

/// A `u64` read from the bytes of text: the text is not empty, a lone sign
/// is no number, one leading `+` is allowed, and the rest are digits.
pub open spec fn parse_amount_spec(b: Seq<u8>) -> Result<u64, AmountError> {
    if b.len() == 0 {
        Err(AmountError::Empty)
    } else if b.len() == 1 && (b[0] == 0x2b || b[0] == 0x2d) {
        Err(AmountError::InvalidDigit)
    } else if b[0] == 0x2b {
        scan_decimal(b.drop_first())
    } else {
        scan_decimal(b)
    }
}

/// Once a prefix of the digits has failed, the whole has failed the same way.
proof fn lemma_scan_prefix_error(d: Seq<u8>, k: int)
    requires
        0 <= k <= d.len(),
        scan_decimal(d.take(k)) is Err,
    ensures
        scan_decimal(d) == scan_decimal(d.take(k)),
    decreases d.len(),
{
    if k == d.len() {
        assert(d.take(k) =~= d);
    } else {
        assert(d.drop_last().take(k) =~= d.take(k));
        lemma_scan_prefix_error(d.drop_last(), k);
    }
}

proof fn lemma_overflow_bound(acc: u64, dig: u64)
    requires
        dig <= 9,
    ensures
        (acc * 10 + dig > u64::MAX) <==> (acc > (u64::MAX - dig) / 10),
{
    let m = (u64::MAX - dig) as int;
    assert((acc * 10 + dig > u64::MAX) <==> (acc > m / 10)) by (nonlinear_arith)
        requires
            m == u64::MAX - dig,
            0 <= dig <= 9,
            0 <= acc,
    ;
}

/// Reads decimal text as a `u64`.
pub fn parse_amount(text: &str) -> (res: Result<u64, AmountError>)
    ensures
        res == parse_amount_spec(encode_utf8(text@)),
{
    let bytes = text.as_bytes();
    let n = bytes.len();
    if n == 0 {
        return Err(AmountError::Empty);
    }
    let first = bytes[0];
    if n == 1 && (first == 0x2b || first == 0x2d) {
        return Err(AmountError::InvalidDigit);
    }
    let start: usize = if first == 0x2b { 1 } else { 0 };
    let ghost digits = bytes@.subrange(start as int, n as int);
    assert(first == 0x2b ==> digits =~= bytes@.drop_first());
    assert(first != 0x2b ==> digits =~= bytes@);
    assert(digits.take(0) =~= Seq::<u8>::empty());
    assert(parse_amount_spec(bytes@) == scan_decimal(digits));
    let mut acc: u64 = 0;
    let mut i: usize = start;
    while i < n
        invariant
            n == bytes@.len(),
            bytes@ == encode_utf8(text@),
            parse_amount_spec(bytes@) == scan_decimal(digits),
            start <= i <= n,
            digits == bytes@.subrange(start as int, n as int),
            scan_decimal(digits.take(i - start)) == Ok::<u64, AmountError>(acc),
        decreases n - i,
    {
        let b = bytes[i];
        let ghost k = i - start;
        assert(digits.take(k + 1).drop_last() =~= digits.take(k));
        assert(digits.take(k + 1).last() == b);
        if b < 0x30 || b > 0x39 {
            proof {
                lemma_scan_prefix_error(digits, k + 1);
            }
            return Err(AmountError::InvalidDigit);
        }
        let dig: u64 = (b - 0x30) as u64;
        proof {
            lemma_overflow_bound(acc, dig);
        }
        if acc > (u64::MAX - dig) / 10 {
            proof {
                lemma_scan_prefix_error(digits, k + 1);
            }
            return Err(AmountError::PosOverflow);
        }
        acc = acc * 10 + dig;
        i = i + 1;
    }
    assert(digits.take(n - start) =~= digits);
    Ok(acc)
}

/// The message Rust gives for each kind of `u64` parse failure.
pub open spec fn amount_error_text(e: AmountError) -> Seq<char> {
    match e {
        AmountError::Empty => "cannot parse integer from empty string"@,
        AmountError::InvalidDigit => "invalid digit found in string"@,
        AmountError::PosOverflow => "number too large to fit in target type"@,
    }
}

/// The message for a parse failure.
pub fn amount_error_message(e: AmountError) -> (res: String)
    ensures
        res@ == amount_error_text(e),
{
    match e {
        AmountError::Empty => String::from_str("cannot parse integer from empty string"),
        AmountError::InvalidDigit => String::from_str("invalid digit found in string"),
        AmountError::PosOverflow => String::from_str("number too large to fit in target type"),
    }
}

/// The decimal digits of `v` as ASCII bytes, most significant first, with
/// no sign and no leading zero (the way a `u64` is displayed).
pub open spec fn decimal_bytes(v: nat) -> Seq<u8>
    decreases v,
{
    if v < 10 {
        seq![(v + 0x30) as u8]
    } else {
        decimal_bytes(v / 10).push((v % 10 + 0x30) as u8)
    }
}

proof fn lemma_scan_decimal_bytes(v: nat)
    requires
        v <= u64::MAX,
    ensures
        scan_decimal(decimal_bytes(v)) == Ok::<u64, AmountError>(v as u64),
        decimal_bytes(v).len() >= 1,
        is_decimal_digit(decimal_bytes(v)[0]),
    decreases v,
{
    let d = decimal_bytes(v);
    if v < 10 {
        assert(d.drop_last() =~= Seq::<u8>::empty());
        assert(scan_decimal(d.drop_last()) == Ok::<u64, AmountError>(0u64));
        assert(d.last() - 0x30 == v);
        assert(is_decimal_digit(d.last()));
    } else {
        lemma_scan_decimal_bytes(v / 10);
        assert(d.drop_last() =~= decimal_bytes(v / 10));
        assert(d.last() - 0x30 == v % 10);
        assert((v / 10) * 10 + v % 10 == v);
        assert(is_decimal_digit(d.last()));
        assert(scan_decimal(d.drop_last()) == Ok::<u64, AmountError>((v / 10) as u64));
        assert(d[0] == decimal_bytes(v / 10)[0]);
    }
}

/// The same digits as characters.
pub open spec fn decimal_text(v: nat) -> Seq<char> {
    decimal_bytes(v).map_values(|b: u8| b as char)
}

proof fn lemma_decimal_bytes_digits(v: nat)
    ensures
        forall|i: int| 0 <= i < decimal_bytes(v).len() ==> is_decimal_digit(#[trigger] decimal_bytes(v)[i]),
    decreases v,
{
    if v >= 10 {
        lemma_decimal_bytes_digits(v / 10);
        let p = decimal_bytes(v / 10);
        let d = decimal_bytes(v);
        assert(d == p.push((v % 10 + 0x30) as u8));
        assert forall|i: int| 0 <= i < d.len() implies is_decimal_digit(#[trigger] d[i]) by {
            if i < p.len() {
                assert(d[i] == p[i]);
            }
        }
    }
}

/// Law: the decimal text of any `u64` reads back as that `u64`, so an
/// amount that the gateway displays (the value of a read request code) can
/// be sent back to it unchanged (as the value of a transfer).
pub proof fn lemma_amount_round_trip(v: u64)
    ensures
        parse_amount_spec(encode_utf8(decimal_text(v as nat))) == Ok::<u64, AmountError>(v),
{
    let d = decimal_bytes(v as nat);
    let t = decimal_text(v as nat);
    lemma_scan_decimal_bytes(v as nat);
    lemma_decimal_bytes_digits(v as nat);
    assert(vstd::utf8::is_ascii_chars(t));
    vstd::utf8::is_ascii_chars_encode_utf8(t);
    assert forall|i: int| 0 <= i < d.len() implies #[trigger] encode_utf8(t)[i] == d[i] by {
        assert(t[i] as u8 == d[i]);
    }
    assert(encode_utf8(t) =~= d);
}

/// Every byte is a decimal digit.
pub open spec fn all_decimal_digits(d: Seq<u8>) -> bool {
    forall|i: int| 0 <= i < d.len() ==> is_decimal_digit(#[trigger] d[i])
}

/// The number that a run of decimal digits stands for (leading zeros
/// allowed).
pub open spec fn digits_value(d: Seq<u8>) -> nat
    decreases d.len(),
{
    if d.len() == 0 {
        0
    } else {
        digits_value(d.drop_last()) * 10 + (d.last() - 0x30) as nat
    }
}

proof fn lemma_scan_digits(d: Seq<u8>)
    requires
        all_decimal_digits(d),
    ensures
        scan_decimal(d) == if digits_value(d) <= u64::MAX {
            Ok::<u64, AmountError>(digits_value(d) as u64)
        } else {
            Err::<u64, AmountError>(AmountError::PosOverflow)
        },
    decreases d.len(),
{
    if d.len() > 0 {
        let front = d.drop_last();
        assert(all_decimal_digits(front)) by {
            assert forall|i: int| 0 <= i < front.len() implies is_decimal_digit(#[trigger] front[i]) by {
                assert(front[i] == d[i]);
            }
        }
        lemma_scan_digits(front);
        assert(is_decimal_digit(d[d.len() - 1]));
        if digits_value(front) > u64::MAX {
            assert(digits_value(d) >= digits_value(front) * 10);
        }
    }
}

/// Law: a non-empty run of decimal digits, with or without one leading
/// `+`, reads as the number it stands for (leading zeros change nothing),
/// or as an overflow exactly when that number exceeds `u64::MAX`.
pub proof fn lemma_amount_digits(d: Seq<u8>)
    requires
        d.len() > 0,
        all_decimal_digits(d),
    ensures
        parse_amount_spec(d) == if digits_value(d) <= u64::MAX {
            Ok::<u64, AmountError>(digits_value(d) as u64)
        } else {
            Err::<u64, AmountError>(AmountError::PosOverflow)
        },
        parse_amount_spec(seq![0x2bu8] + d) == parse_amount_spec(d),
{
    lemma_scan_digits(d);
    assert(is_decimal_digit(d[0]));
    let p = seq![0x2bu8] + d;
    assert(p.drop_first() =~= d);
}

/// Law: what is refused before any digit is read: empty text, a lone sign,
/// a leading `-`, and a first byte that is neither a digit nor `+`.
pub proof fn lemma_amount_refusals(c: u8, rest: Seq<u8>)
    ensures
        parse_amount_spec(Seq::<u8>::empty()) == Err::<u64, AmountError>(AmountError::Empty),
        parse_amount_spec(seq![0x2bu8]) == Err::<u64, AmountError>(AmountError::InvalidDigit),
        parse_amount_spec(seq![0x2du8] + rest) == Err::<u64, AmountError>(AmountError::InvalidDigit),
        !is_decimal_digit(c) && c != 0x2b ==> parse_amount_spec(seq![c] + rest) == Err::<
            u64,
            AmountError,
        >(AmountError::InvalidDigit),
{
    let m = seq![0x2du8] + rest;
    assert(m.take(1) =~= seq![0x2du8]);
    assert(seq![0x2du8].drop_last() =~= Seq::<u8>::empty());
    lemma_scan_prefix_error(m, 1);
    let t = seq![c] + rest;
    if !is_decimal_digit(c) && c != 0x2b {
        assert(t.take(1) =~= seq![c]);
        assert(seq![c].drop_last() =~= Seq::<u8>::empty());
        lemma_scan_prefix_error(t, 1);
    }
}

} // verus!
