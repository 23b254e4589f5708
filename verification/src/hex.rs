use vstd::prelude::*;

verus! {

/// The lowercase hexadecimal digit (ASCII) for a value below 16.
pub open spec fn hex_digit(nibble: int) -> u8
    recommends
        0 <= nibble < 16,
{
    if nibble < 10 {
        (48 + nibble) as u8
    } else {
        (87 + nibble) as u8
    }
}

/// Whether `byte` is one of `0`..`9`, `a`..`f`.
pub open spec fn is_lower_hex_digit(byte: u8) -> bool {
    (48 <= byte <= 57) || (97 <= byte <= 102)
}

/// The value of a lowercase hexadecimal digit.
pub open spec fn hex_digit_value(byte: u8) -> int {
    if byte <= 57 {
        byte - 48
    } else {
        byte - 87
    }
}

/// The number that a string of hexadecimal digits denotes (most significant first).
pub open spec fn hex_text_value(s: Seq<u8>) -> int
    decreases s.len(),
{
    if s.len() == 0 {
        0
    } else {
        hex_text_value(s.drop_last()) * 16 + hex_digit_value(s.last())
    }
}

/// The eight lowercase hexadecimal digits of `value`, most significant first, zero-padded.
pub open spec fn spec_hex8(value: u32) -> Seq<u8> {
    seq![
        hex_digit(((value / 0x1000_0000) % 16) as int),
        hex_digit(((value / 0x100_0000) % 16) as int),
        hex_digit(((value / 0x10_0000) % 16) as int),
        hex_digit(((value / 0x1_0000) % 16) as int),
        hex_digit(((value / 0x1000) % 16) as int),
        hex_digit(((value / 0x100) % 16) as int),
        hex_digit(((value / 0x10) % 16) as int),
        hex_digit((value % 16) as int),
    ]
}

/// The two lowercase hexadecimal digits of one byte.
pub open spec fn spec_hex_byte(byte: u8) -> Seq<u8> {
    seq![hex_digit((byte / 16) as int), hex_digit((byte % 16) as int)]
}

/// Each byte of `bytes` as two lowercase hexadecimal digits, in order.
pub open spec fn spec_hex_bytes(bytes: Seq<u8>) -> Seq<u8>
    decreases bytes.len(),
{
    if bytes.len() == 0 {
        Seq::empty()
    } else {
        spec_hex_bytes(bytes.drop_last()) + spec_hex_byte(bytes.last())
    }
}

fn hex_nibble(nibble: u32) -> (digit: u8)
    requires
        nibble < 16,
    ensures
        digit == hex_digit(nibble as int),
{
    if nibble < 10 {
        48 + nibble as u8
    } else {
        87 + nibble as u8
    }
}

/// The value as eight lowercase hexadecimal digits.
pub fn hex8(value: u32) -> (digits: [u8; 8])
    ensures
        digits@ == spec_hex8(value),
{
    assert(value >> 28u32 == value / 0x1000_0000) by (bit_vector);
    assert((value >> 24u32) & 0xf == (value / 0x100_0000) % 16) by (bit_vector);
    assert((value >> 20u32) & 0xf == (value / 0x10_0000) % 16) by (bit_vector);
    assert((value >> 16u32) & 0xf == (value / 0x1_0000) % 16) by (bit_vector);
    assert((value >> 12u32) & 0xf == (value / 0x1000) % 16) by (bit_vector);
    assert((value >> 8u32) & 0xf == (value / 0x100) % 16) by (bit_vector);
    assert((value >> 4u32) & 0xf == (value / 0x10) % 16) by (bit_vector);
    assert(value & 0xf == value % 16) by (bit_vector);
    let digits = [
        hex_nibble(value >> 28),
        hex_nibble((value >> 24) & 0xf),
        hex_nibble((value >> 20) & 0xf),
        hex_nibble((value >> 16) & 0xf),
        hex_nibble((value >> 12) & 0xf),
        hex_nibble((value >> 8) & 0xf),
        hex_nibble((value >> 4) & 0xf),
        hex_nibble(value & 0xf),
    ];
    assert(digits@ =~= spec_hex8(value));
    digits
}

/// Append the eight hexadecimal digits of `value` to `out`.
pub fn push_hex8(out: &mut Vec<u8>, value: u32)
    ensures
        final(out)@ == old(out)@ + spec_hex8(value),
{
    let digits = hex8(value);
    out.extend_from_slice(digits.as_slice());
    assert(final(out)@ =~= old(out)@ + spec_hex8(value));
}

/// Append each byte of `bytes` to `out` as two lowercase hexadecimal digits.
pub fn write_hex_bytes(out: &mut Vec<u8>, bytes: &[u8])
    ensures
        final(out)@ == old(out)@ + spec_hex_bytes(bytes@),
{
    let ghost start = out@;
    let mut index: usize = 0;
    while index < bytes.len()
        invariant
            index <= bytes@.len(),
            out@ == start + spec_hex_bytes(bytes@.take(index as int)),
        decreases bytes@.len() - index,
    {
        let byte = bytes[index];
        assert((byte >> 4u8) == byte / 16) by (bit_vector);
        assert((byte & 0x0fu8) == byte % 16) by (bit_vector);
        out.push(hex_nibble((byte >> 4) as u32));
        out.push(hex_nibble((byte & 0x0f) as u32));
        assert(bytes@.take(index + 1).drop_last() =~= bytes@.take(index as int));
        assert(out@ =~= start + spec_hex_bytes(bytes@.take(index + 1)));
        index += 1;
    }
    assert(bytes@.take(bytes@.len() as int) =~= bytes@);
}

proof fn lemma_hex_digit_reads_back(nibble: int)
    requires
        0 <= nibble < 16,
    ensures
        is_lower_hex_digit(hex_digit(nibble)),
        hex_digit_value(hex_digit(nibble)) == nibble,
{
}

/// Every digit that `hex8` produces is a lowercase hexadecimal digit, and the
/// digits read back as hexadecimal denote `value` again.
pub proof fn lemma_hex8_reads_back(value: u32)
    ensures
        spec_hex8(value).len() == 8,
        forall|i: int| 0 <= i < 8 ==> is_lower_hex_digit(#[trigger] spec_hex8(value)[i]),
        hex_text_value(spec_hex8(value)) == value,
{
    let s = spec_hex8(value);
    let n0 = (value / 0x1000_0000) % 16;
    let n1 = (value / 0x100_0000) % 16;
    let n2 = (value / 0x10_0000) % 16;
    let n3 = (value / 0x1_0000) % 16;
    let n4 = (value / 0x1000) % 16;
    let n5 = (value / 0x100) % 16;
    let n6 = (value / 0x10) % 16;
    let n7 = value % 16;
    lemma_hex_digit_reads_back(n0 as int);
    lemma_hex_digit_reads_back(n1 as int);
    lemma_hex_digit_reads_back(n2 as int);
    lemma_hex_digit_reads_back(n3 as int);
    lemma_hex_digit_reads_back(n4 as int);
    lemma_hex_digit_reads_back(n5 as int);
    lemma_hex_digit_reads_back(n6 as int);
    lemma_hex_digit_reads_back(n7 as int);
    assert(value == ((((((((value / 0x1000_0000) % 16) * 16 + (value / 0x100_0000) % 16) * 16
        + (value / 0x10_0000) % 16) * 16 + (value / 0x1_0000) % 16) * 16 + (value / 0x1000) % 16)
        * 16 + (value / 0x100) % 16) * 16 + (value / 0x10) % 16) * 16 + value % 16) by (bit_vector);
    reveal_with_fuel(hex_text_value, 9);
    assert(s.drop_last() =~= seq![s[0], s[1], s[2], s[3], s[4], s[5], s[6]]);
    assert(s.drop_last().drop_last() =~= seq![s[0], s[1], s[2], s[3], s[4], s[5]]);
    assert(s.drop_last().drop_last().drop_last() =~= seq![s[0], s[1], s[2], s[3], s[4]]);
    assert(s.drop_last().drop_last().drop_last().drop_last() =~= seq![s[0], s[1], s[2], s[3]]);
    assert(s.drop_last().drop_last().drop_last().drop_last().drop_last() =~= seq![
        s[0],
        s[1],
        s[2],
    ]);
    assert(s.drop_last().drop_last().drop_last().drop_last().drop_last().drop_last() =~= seq![
        s[0],
        s[1],
    ]);
    assert(s.drop_last().drop_last().drop_last().drop_last().drop_last().drop_last().drop_last()
        =~= seq![s[0]]);
    assert(seq![s[0]].drop_last() =~= Seq::<u8>::empty());
}

} // verus!
