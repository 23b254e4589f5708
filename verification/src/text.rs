use vstd::prelude::*;
use vstd::string::StringSliceAdditionalSpecFns;

use crate::hex::{push_hex8, spec_hex8};

verus! {

/// Append the UTF-8 bytes of `s` to `out`.
pub fn push_str(out: &mut Vec<u8>, s: &str)
    ensures
        final(out)@ == old(out)@ + s.spec_bytes(),
{
    out.extend_from_slice(s.as_bytes());
    assert(final(out)@ =~= old(out)@ + s.spec_bytes());
}

/// The bytes of a `label` followed by the eight hexadecimal digits of `value`.
pub open spec fn hex_field(label: &str, value: u32) -> Seq<u8> {
    label.spec_bytes() + spec_hex8(value)
}

/// Append `label` and then the eight hexadecimal digits of `value`.
pub fn push_hex_field(out: &mut Vec<u8>, label: &str, value: u32)
    ensures
        final(out)@ == old(out)@ + hex_field(label, value),
{
    push_str(out, label);
    push_hex8(out, value);
    assert(final(out)@ =~= old(out)@ + hex_field(label, value));
}

} // verus!
