use vstd::prelude::*;

verus! {

/// FNV-1a offset basis for 32-bit hashes.
pub const FNV32_OFFSET_BASIS: u32 = 0x811c_9dc5;

/// FNV-1a prime for 32-bit hashes.
pub const FNV32_PRIME: u32 = 0x0100_0193;

/// One FNV-1a round: fold a byte into the running hash.
pub open spec fn fnv1a32_step(hash: u32, byte: u8) -> u32 {
    vstd::wrapping::u32_specs::wrapping_mul(hash ^ (byte as u32), FNV32_PRIME)
}

/// The 32-bit FNV-1a hash of a byte sequence.
pub open spec fn spec_fnv1a32(bytes: Seq<u8>) -> u32
    decreases bytes.len(),
{
    if bytes.len() == 0 {
        FNV32_OFFSET_BASIS
    } else {
        fnv1a32_step(spec_fnv1a32(bytes.drop_last()), bytes.last())
    }
}

/// Hash `bytes` with 32-bit FNV-1a.
pub fn fnv1a32(bytes: &[u8]) -> (hash: u32)
    ensures
        hash == spec_fnv1a32(bytes@),
{
    let mut hash: u32 = FNV32_OFFSET_BASIS;
    let mut index: usize = 0;
    while index < bytes.len()
        invariant
            index <= bytes@.len(),
            hash == spec_fnv1a32(bytes@.take(index as int)),
        decreases bytes@.len() - index,
    {
        assert(bytes@.take(index + 1).drop_last() =~= bytes@.take(index as int));
        hash ^= bytes[index] as u32;
        hash = hash.wrapping_mul(FNV32_PRIME);
        index += 1;
    }
    assert(bytes@.take(bytes@.len() as int) =~= bytes@);
    hash
}

}
