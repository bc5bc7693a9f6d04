//! The echo transform: ASCII lowercase letters fold to uppercase, every
//! other byte value passes through unchanged.

use vstd::prelude::*;

verus! {

/// What the echo device does to a single byte: an ASCII lowercase letter
/// (0x61..=0x7A) maps to its uppercase form by subtracting 0x20; every other
/// byte value is unchanged.
pub open spec fn spec_transform(b: u8) -> u8 {
    if 0x61 <= b && b <= 0x7a {
        (b - 0x20) as u8
    } else {
        b
    }
}

/// The transform applied to every byte of a sequence.
pub open spec fn spec_transform_seq(s: Seq<u8>) -> Seq<u8> {
    s.map_values(|b: u8| spec_transform(b))
}

/// Transform one byte, clearing the case bit as the hardware loop does.
pub fn transform_byte(b: u8) -> (r: u8)
    ensures
        r == spec_transform(b),
        0x61 <= b && b <= 0x7a ==> r == b - 0x20,
        !(0x61 <= b && b <= 0x7a) ==> r == b,
{
    if 0x61 <= b && b <= 0x7a {
        assert(b & 0xdf == b - 0x20) by (bit_vector)
            requires 0x61 <= b && b <= 0x7a;
        b & 0xdf
    } else {
        b
    }
}

/// Transform the first `count` bytes of `buf` in place; the rest of the
/// buffer is untouched.
pub fn transform_prefix(buf: &mut Vec<u8>, count: usize)
    requires
        count <= old(buf).len(),
    ensures
        final(buf)@.len() == old(buf)@.len(),
        final(buf)@.subrange(0, count as int) == spec_transform_seq(
            old(buf)@.subrange(0, count as int),
        ),
        forall|i: int| 0 <= i < count ==> final(buf)@[i] == spec_transform(old(buf)@[i]),
        forall|i: int| count <= i < old(buf)@.len() ==> final(buf)@[i] == old(buf)@[i],
{
    let mut i: usize = 0;
    while i < count
        invariant
            i <= count,
            count <= buf@.len(),
            buf@.len() == old(buf)@.len(),
            forall|j: int| 0 <= j < i ==> buf@[j] == spec_transform(old(buf)@[j]),
            forall|j: int| i <= j < buf@.len() ==> buf@[j] == old(buf)@[j],
        decreases count - i,
    {
        let b = buf[i];
        let t = transform_byte(b);
        buf.set(i, t);
        i = i + 1;
    }
    proof {
        assert(buf@.subrange(0, count as int) =~= spec_transform_seq(
            old(buf)@.subrange(0, count as int),
        ));
    }
}

/// Idempotence of the byte transform: uppercasing text that is already
/// uppercase changes nothing.
pub proof fn lemma_transform_idempotent(b: u8)
    ensures
        spec_transform(spec_transform(b)) == spec_transform(b),
{
}

/// Idempotence lifted to whole sequences.
pub proof fn lemma_transform_seq_idempotent(s: Seq<u8>)
    ensures
        spec_transform_seq(spec_transform_seq(s)) == spec_transform_seq(s),
{
    assert(spec_transform_seq(spec_transform_seq(s)) =~= spec_transform_seq(s));
}

} // verus!
