use vstd::prelude::*;
use vstd::string::StringSliceAdditionalSpecFns;

verus! {

/// ASCII code of the digit `0`.
pub const ASCII_ZERO: u8 = 48;

/// Whether `byte` is one of the ASCII digits `0` to `9`.
pub open spec fn is_digit(byte: u8) -> bool {
    48 <= byte <= 57
}

/// The value of an ASCII digit.
pub open spec fn digit_value(byte: u8) -> int {
    byte - 48
}

/// Whether every byte of `s` is an ASCII digit.
pub open spec fn all_digits(s: Seq<u8>) -> bool {
    forall|i: int| 0 <= i < s.len() ==> is_digit(#[trigger] s[i])
}

/// The number that a string of decimal digits denotes (most significant digit first).
pub open spec fn decimal_value(s: Seq<u8>) -> nat
    decreases s.len(),
{
    if s.len() == 0 {
        0
    } else {
        (decimal_value(s.drop_last()) * 10 + digit_value(s.last())) as nat
    }
}

/// Length of the longest prefix of `s` made of ASCII digits.
pub open spec fn digit_run(s: Seq<u8>) -> nat
    decreases s.len(),
{
    if s.len() == 0 || !is_digit(s[0]) {
        0
    } else {
        1 + digit_run(s.drop_first())
    }
}

/// Whether `s` is the decimal text of a number that fits in a `u32`.
pub open spec fn is_decimal_u32(s: Seq<u8>) -> bool {
    &&& s.len() > 0
    &&& all_digits(s)
    &&& decimal_value(s) <= u32::MAX
}

/// Why a text is not the decimal form of a `u32`.
#[derive(Clone, Copy, Debug, PartialEq, Eq, Structural)]
pub enum DecimalError {
    /// The text is empty, or a byte other than `0`..`9` is met first.
    NotDecimal,
    /// The digits met so far already denote a number above `u32::MAX`.
    Overflow,
}

/// The outcome of reading `s` as a decimal `u32` from left to right.
///
/// Reading stops at the first byte that is not a digit, or as soon as the
/// digits read so far exceed `u32::MAX`, whichever comes first.
pub open spec fn decimal_u32_outcome(s: Seq<u8>) -> Result<u32, DecimalError> {
    if s.len() == 0 {
        Err(DecimalError::NotDecimal)
    } else if decimal_value(s.take(digit_run(s) as int)) > u32::MAX {
        Err(DecimalError::Overflow)
    } else if digit_run(s) < s.len() {
        Err(DecimalError::NotDecimal)
    } else {
        Ok(decimal_value(s) as u32)
    }
}

proof fn lemma_digit_run_bounds(s: Seq<u8>)
    ensures
        digit_run(s) <= s.len(),
        all_digits(s.take(digit_run(s) as int)),
        digit_run(s) < s.len() ==> !is_digit(s[digit_run(s) as int]),
    decreases s.len(),
{
    if s.len() > 0 && is_digit(s[0]) {
        let t = s.drop_first();
        lemma_digit_run_bounds(t);
        assert forall|i: int| 0 <= i < digit_run(s) implies is_digit(
            #[trigger] s.take(digit_run(s) as int)[i],
        ) by {
            if i > 0 {
                assert(s.take(digit_run(s) as int)[i] == t.take(digit_run(t) as int)[i - 1]);
            }
        }
    }
}

/// A digit run covering a digit prefix is at least as long as that prefix.
proof fn lemma_digit_run_covers(s: Seq<u8>, n: int)
    requires
        0 <= n <= s.len(),
        all_digits(s.take(n)),
    ensures
        n <= digit_run(s),
    decreases s.len(),
{
    if n > 0 {
        assert(s.take(n)[0] == s[0]);
        let t = s.drop_first();
        assert forall|i: int| 0 <= i < n - 1 implies is_digit(#[trigger] t.take(n - 1)[i]) by {
            assert(t.take(n - 1)[i] == s.take(n)[i + 1]);
        }
        lemma_digit_run_covers(t, n - 1);
    }
}

/// On digit strings, a longer prefix never denotes a smaller number.
pub proof fn lemma_decimal_value_prefix_monotone(s: Seq<u8>, i: int, j: int)
    requires
        0 <= i <= j <= s.len(),
        all_digits(s.take(j)),
    ensures
        decimal_value(s.take(i)) <= decimal_value(s.take(j)),
    decreases j - i,
{
    if i < j {
        lemma_decimal_value_prefix_monotone(s, i, j - 1);
        assert(s.take(j).drop_last() =~= s.take(j - 1));
        assert(all_digits(s.take(j - 1))) by {
            assert forall|k: int| 0 <= k < j - 1 implies is_digit(#[trigger] s.take(j - 1)[k]) by {
                assert(s.take(j - 1)[k] == s.take(j)[k]);
            }
        }
        assert(is_digit(s.take(j)[j - 1]));
    }
}

/// Read `value` as a decimal `u32`, reporting which rule it breaks when it is not one.
pub fn try_parse_decimal_u32(value: &str) -> (result: Result<u32, DecimalError>)
    ensures
        result == decimal_u32_outcome(value.spec_bytes()),
{
    let bytes = value.as_bytes();
    let ghost s = bytes@;
    if bytes.len() == 0 {
        return Err(DecimalError::NotDecimal);
    }
    proof {
        lemma_digit_run_bounds(s);
    }
    let mut index: usize = 0;
    let mut parsed: u32 = 0;
    while index < bytes.len()
        invariant
            s == bytes@,
            s == value.spec_bytes(),
            s.len() > 0,
            digit_run(s) <= s.len(),
            all_digits(s.take(digit_run(s) as int)),
            digit_run(s) < s.len() ==> !is_digit(s[digit_run(s) as int]),
            index <= s.len(),
            all_digits(s.take(index as int)),
            parsed == decimal_value(s.take(index as int)),
        decreases s.len() - index,
    {
        let byte = bytes[index];
        if byte < 48 || byte > 57 {
            proof {
                lemma_digit_run_covers(s, index as int);
                if digit_run(s) > index {
                    assert(s.take(digit_run(s) as int)[index as int] == s[index as int]);
                }
                assert(digit_run(s) == index);
            }
            return Err(DecimalError::NotDecimal);
        }
        let digit: u32 = (byte - 48) as u32;
        assert(s.take(index + 1).drop_last() =~= s.take(index as int));
        assert(all_digits(s.take(index + 1))) by {
            assert forall|k: int| 0 <= k < index + 1 implies is_digit(
                #[trigger] s.take(index + 1)[k],
            ) by {
                if k < index {
                    assert(s.take(index + 1)[k] == s.take(index as int)[k]);
                }
            }
        }
        if parsed > (u32::MAX - digit) / 10 {
            proof {
                assert(decimal_value(s.take(index + 1)) > u32::MAX);
                lemma_digit_run_covers(s, index + 1);
                lemma_decimal_value_prefix_monotone(s, index + 1, digit_run(s) as int);
                assert(decimal_value(s.take(digit_run(s) as int)) > u32::MAX);
            }
            return Err(DecimalError::Overflow);
        }
        parsed = parsed * 10 + digit;
        index += 1;
    }
    proof {
        assert(s.take(s.len() as int) =~= s);
        lemma_digit_run_covers(s, s.len() as int);
        assert(digit_run(s) == s.len());
    }
    Ok(parsed)
}

/// Read `value` as a decimal `u32`; it must be the decimal text of one.
pub fn parse_decimal_u32(value: &str) -> (parsed: u32)
    requires
        is_decimal_u32(value.spec_bytes()),
    ensures
        parsed == decimal_value(value.spec_bytes()),
{
    let ghost s = value.spec_bytes();
    proof {
        assert(s.take(s.len() as int) =~= s);
        lemma_digit_run_covers(s, s.len() as int);
        lemma_digit_run_bounds(s);
    }
    match try_parse_decimal_u32(value) {
        Ok(parsed) => parsed,
        Err(_) => 0,
    }
}

/// The decimal text of `n`: its digits, most significant first, with no leading zero.
pub open spec fn decimal_text(n: nat) -> Seq<u8>
    decreases n,
{
    if n < 10 {
        seq![(48 + n) as u8]
    } else {
        decimal_text(n / 10).push((48 + n % 10) as u8)
    }
}

/// The dotted-decimal text of an IPv4 address given by its four octets.
pub open spec fn ipv4_text(octets: Seq<u8>) -> Seq<u8>
    recommends
        octets.len() == 4,
{
    decimal_text(octets[0] as nat) + seq![46u8] + decimal_text(octets[1] as nat) + seq![46u8]
        + decimal_text(octets[2] as nat) + seq![46u8] + decimal_text(octets[3] as nat)
}

/// The dotted-decimal text of the first `count` octets.
pub open spec fn ipv4_text_prefix(octets: Seq<u8>, count: int) -> Seq<u8>
    decreases count,
{
    if count <= 0 {
        Seq::empty()
    } else if count == 1 {
        decimal_text(octets[0] as nat)
    } else {
        ipv4_text_prefix(octets, count - 1) + seq![46u8] + decimal_text(octets[count - 1] as nat)
    }
}

/// The text of all four octets is the address's dotted-decimal text.
pub proof fn lemma_ipv4_text_prefix_complete(octets: Seq<u8>)
    requires
        octets.len() == 4,
    ensures
        ipv4_text_prefix(octets, 4) == ipv4_text(octets),
{
    reveal_with_fuel(ipv4_text_prefix, 5);
    assert(ipv4_text_prefix(octets, 4) =~= ipv4_text(octets));
}

/// The decimal text of a number is a non-empty run of digits without a leading
/// zero (except for zero itself) that reads back as the number.
pub proof fn lemma_decimal_text_reads_back(n: nat)
    ensures
        decimal_text(n).len() > 0,
        all_digits(decimal_text(n)),
        decimal_value(decimal_text(n)) == n,
        n > 0 ==> decimal_text(n)[0] != ASCII_ZERO,
    decreases n,
{
    if n >= 10 {
        lemma_decimal_text_reads_back(n / 10);
        let t = decimal_text(n);
        assert(t.drop_last() =~= decimal_text(n / 10));
        assert(t.last() == (48 + n % 10) as u8);
        assert(digit_value(t.last()) == n % 10);
        assert((n / 10) * 10 + n % 10 == n);
        assert forall|i: int| 0 <= i < t.len() implies is_digit(#[trigger] t[i]) by {
            if i < t.len() - 1 {
                assert(t[i] == decimal_text(n / 10)[i]);
            }
        }
    } else {
        let t = decimal_text(n);
        assert(t.drop_last() =~= Seq::<u8>::empty());
        assert(decimal_value(t.drop_last()) == 0);
        assert(t.last() == (48 + n) as u8);
    }
}

/// Reading the decimal text of a `u32` as a decimal `u32` gives the number back.
pub proof fn lemma_decimal_u32_round_trip(n: u32)
    ensures
        is_decimal_u32(decimal_text(n as nat)),
        decimal_u32_outcome(decimal_text(n as nat)) == Ok::<u32, DecimalError>(n),
{
    let s = decimal_text(n as nat);
    lemma_decimal_text_reads_back(n as nat);
    assert(s.take(s.len() as int) =~= s);
    lemma_digit_run_covers(s, s.len() as int);
    lemma_digit_run_bounds(s);
}

/// Appending a digit `d` to the decimal text of `v` gives the text of
/// `10·v + d`, still read as a `u32` while that fits.
pub proof fn lemma_decimal_append_digit(s: Seq<u8>, d: u8)
    requires
        is_decimal_u32(s),
        is_digit(d),
        decimal_value(s) * 10 + digit_value(d) <= u32::MAX,
    ensures
        is_decimal_u32(s.push(d)),
        decimal_value(s.push(d)) == decimal_value(s) * 10 + digit_value(d),
{
    assert(s.push(d).drop_last() =~= s);
    assert forall|i: int| 0 <= i < s.push(d).len() implies is_digit(#[trigger] s.push(d)[i]) by {
        if i < s.len() {
            assert(s.push(d)[i] == s[i]);
        }
    }
}

/// A leading zero changes neither the number nor whether the text is read as a `u32`.
pub proof fn lemma_decimal_leading_zero(s: Seq<u8>)
    requires
        all_digits(s),
    ensures
        all_digits(seq![ASCII_ZERO] + s),
        decimal_value(seq![ASCII_ZERO] + s) == decimal_value(s),
        is_decimal_u32(s) ==> is_decimal_u32(seq![ASCII_ZERO] + s),
    decreases s.len(),
{
    let t = seq![ASCII_ZERO] + s;
    assert forall|i: int| 0 <= i < t.len() implies is_digit(#[trigger] t[i]) by {
        if i > 0 {
            assert(t[i] == s[i - 1]);
        }
    }
    if s.len() == 0 {
        assert(t =~= seq![ASCII_ZERO]);
        assert(t.drop_last() =~= Seq::<u8>::empty());
        assert(decimal_value(t.drop_last()) == 0);
        assert(t.last() == ASCII_ZERO);
    } else {
        let r = s.drop_last();
        assert(all_digits(r)) by {
            assert forall|i: int| 0 <= i < r.len() implies is_digit(#[trigger] r[i]) by {
                assert(r[i] == s[i]);
            }
        }
        lemma_decimal_leading_zero(r);
        assert(t.drop_last() =~= seq![ASCII_ZERO] + r);
        assert(t.last() == s.last());
        assert(decimal_value(t) == decimal_value(t.drop_last()) * 10 + digit_value(t.last()));
        assert(decimal_value(s) == decimal_value(r) * 10 + digit_value(s.last()));
    }
}

} // verus!
