use vstd::prelude::*;

verus! {

/// The value that a bit pattern of sign and magnitude stands for: the low
/// 31 bits as a number, negated where the top bit is set. The bit pattern
/// of a single-precision distance read this way orders as the distance
/// does, for every distance that is a number.
pub open spec fn signed_magnitude(bits: u32) -> int {
    if bits < 0x8000_0000 {
        bits as int
    } else {
        -(bits - 0x8000_0000)
    }
}

/// The key of a bit pattern of sign and magnitude: an unsigned number that
/// grows with the value the pattern stands for.
pub open spec fn key(bits: u32) -> u32 {
    if bits < 0x8000_0000 {
        (bits + 0x8000_0000) as u32
    } else {
        (0xFFFF_FFFF - bits) as u32
    }
}

/// Turns the bit pattern of a distance into its key: patterns without the
/// sign bit are moved into the upper half, in their order; patterns with
/// it are moved into the lower half, in reverse order.
pub fn key_of_bits(bits: u32) -> (k: u32)
    ensures
        k == key(bits),
        bits < 0x8000_0000 ==> k == bits + 0x8000_0000,
        bits >= 0x8000_0000 ==> k == 0xFFFF_FFFF - bits,
{
    if bits < 0x8000_0000 {
        bits + 0x8000_0000
    } else {
        0xFFFF_FFFF - bits
    }
}

/// Keys order bit patterns as sign and magnitude do: a smaller value has a
/// smaller key, and different patterns have different keys. The two
/// patterns of zero are the one pair that the keys tell apart though their
/// values are equal; the negative one has the smaller key.
pub proof fn lemma_key_orders_as_sign_and_magnitude(a: u32, b: u32)
    ensures
        signed_magnitude(a) < signed_magnitude(b) ==> key(a) < key(b),
        key(a) < key(b) ==> signed_magnitude(a) <= signed_magnitude(b),
        key(a) == key(b) <==> a == b,
        key(a) < key(b) && signed_magnitude(a) == signed_magnitude(b) ==> a == 0x8000_0000 && b
            == 0,
{
}

/// Every pattern that stands for a value below zero has a key below that
/// of zero, and every pattern that stands for a value above zero a key
/// above it.
pub proof fn lemma_key_of_zero_splits(bits: u32)
    ensures
        key(0) == 0x8000_0000,
        signed_magnitude(bits) < 0 <==> key(bits) < key(0x8000_0000),
        signed_magnitude(bits) > 0 <==> key(bits) > key(0),
{
}

} // verus!
