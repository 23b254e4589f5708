use vstd::prelude::*;

use crate::decimal::{decimal_text, ipv4_text, ipv4_text_prefix, lemma_ipv4_text_prefix_complete};

verus! {

/// Append the decimal text of one octet. The digits are produced least significant
/// first into a three-byte buffer, and the part of the buffer that was written is
/// then copied out.
fn write_octet(out: &mut Vec<u8>, octet: u8)
    ensures
        final(out)@ == old(out)@ + decimal_text(octet as nat),
{
    let mut digits: [u8; 3] = [0u8; 3];
    let mut value: u8 = octet;
    let mut cursor: usize = 3;
    loop
        invariant_except_break
            1 <= cursor <= 3,
            cursor == 3 ==> value == octet,
            cursor == 2 ==> value == octet / 10,
            cursor == 1 ==> value == octet / 100,
            cursor < 3 ==> value > 0,
            digits@.len() == 3,
            decimal_text(octet as nat) == decimal_text(value as nat) + digits@.subrange(
                cursor as int,
                3,
            ),
        ensures
            cursor < 3,
            digits@.len() == 3,
            decimal_text(octet as nat) == digits@.subrange(cursor as int, 3),
        decreases cursor,
    {
        let ghost old_digits = digits@;
        let ghost v = value as nat;
        cursor -= 1;
        digits[cursor] = 48 + value % 10;
        value /= 10;
        proof {
            assert(digits@.subrange(cursor as int, 3) =~= seq![(48 + v % 10) as u8]
                + old_digits.subrange(cursor + 1, 3));
            if v >= 10 {
                assert(decimal_text(v) == decimal_text(v / 10).push((48 + v % 10) as u8));
                assert(decimal_text(v) =~= decimal_text(v / 10) + seq![(48 + v % 10) as u8]);
            } else {
                assert(decimal_text(v) =~= seq![(48 + v % 10) as u8]);
            }
        }
        if value == 0 {
            assert(decimal_text(octet as nat) =~= digits@.subrange(cursor as int, 3));
            break;
        }
        assert(decimal_text(octet as nat) =~= decimal_text(value as nat) + digits@.subrange(
            cursor as int,
            3,
        ));
    }
    let ghost start = out@;
    let mut index: usize = cursor;
    while index < 3
        invariant
            cursor <= index <= 3,
            digits@.len() == 3,
            out@ == start + digits@.subrange(cursor as int, index as int),
        decreases 3 - index,
    {
        out.push(digits[index]);
        assert(out@ =~= start + digits@.subrange(cursor as int, index + 1));
        index += 1;
    }
}

/// Append the dotted-decimal text of an IPv4 address.
pub fn write_ipv4(out: &mut Vec<u8>, octets: [u8; 4])
    ensures
        final(out)@ == old(out)@ + ipv4_text(octets@),
{
    let ghost start = out@;
    let mut index: usize = 0;
    while index < 4
        invariant
            octets@.len() == 4,
            index <= 4,
            out@ == start + ipv4_text_prefix(octets@, index as int),
        decreases 4 - index,
    {
        if index != 0 {
            out.push(46);
        }
        write_octet(out, octets[index]);
        assert(out@ =~= start + ipv4_text_prefix(octets@, index + 1));
        index += 1;
    }
    proof {
        lemma_ipv4_text_prefix_complete(octets@);
    }
}

} // verus!
