//! Big-endian integers as they lie in a byte buffer.

use vstd::prelude::*;

verus! {

/// The number that `bytes` spell when read most significant octet first.
pub open spec fn be_value(bytes: Seq<u8>) -> nat
    decreases bytes.len(),
{
    if bytes.len() == 0 {
        0
    } else {
        be_value(bytes.drop_last()) * 256 + bytes.last() as nat
    }
}

/// 256 to the power `n`.
pub open spec fn pow256(n: nat) -> nat
    decreases n,
{
    if n == 0 {
        1
    } else {
        256 * pow256((n - 1) as nat)
    }
}

/// A big-endian number of `n` octets is below 256 to the `n`.
pub proof fn lemma_be_value_bound(bytes: Seq<u8>)
    ensures
        be_value(bytes) < pow256(bytes.len()),
    decreases bytes.len(),
{
    if bytes.len() > 0 {
        lemma_be_value_bound(bytes.drop_last());
    }
}

/// Reads `width` octets of `data`, starting at `at`, as one big-endian number.
pub fn read_be(data: &[u8], at: usize, width: usize) -> (value: u128)
    requires
        width <= 16,
        at + width <= data@.len(),
    ensures
        value == be_value(data@.subrange(at as int, at + width)),
        value < pow256(width as nat),
{
    let mut value: u128 = 0;
    let mut i: usize = 0;
    let available: usize = data.len();
    proof {
        reveal_with_fuel(pow256, 17);
    }
    while i < width
        invariant
            i <= width <= 16,
            at + width <= data@.len() == available,
            value == be_value(data@.subrange(at as int, at + i)),
            value < pow256(i as nat),
            pow256(16) == 0x1_0000_0000_0000_0000_0000_0000_0000_0000,
        decreases width - i,
    {
        let octet: u8 = data[at + i];
        proof {
            let next = data@.subrange(at as int, at + i + 1);
            assert(next.drop_last() =~= data@.subrange(at as int, at + i));
            assert(next.last() == octet);
            lemma_pow256_monotone(i as nat + 1, 16);
        }
        value = value * 256 + octet as u128;
        i = i + 1;
    }
    value
}

/// `pow256` does not decrease with its exponent.
pub proof fn lemma_pow256_monotone(a: nat, b: nat)
    requires
        a <= b,
    ensures
        pow256(a) <= pow256(b),
        pow256(a) > 0,
    decreases b,
{
    if a < b {
        lemma_pow256_monotone(a, (b - 1) as nat);
    } else if a > 0 {
        lemma_pow256_monotone((a - 1) as nat, (b - 1) as nat);
    }
}

/// Reads the two octets at `at` as a big-endian number.
pub fn read_u16(data: &[u8], at: usize) -> (value: u16)
    requires
        at + 2 <= data@.len(),
    ensures
        value == be_value(data@.subrange(at as int, at + 2)),
{
    proof {
        reveal_with_fuel(pow256, 3);
    }
    read_be(data, at, 2) as u16
}

/// Reads the four octets at `at` as a big-endian number.
pub fn read_u32(data: &[u8], at: usize) -> (value: u32)
    requires
        at + 4 <= data@.len(),
    ensures
        value == be_value(data@.subrange(at as int, at + 4)),
{
    proof {
        reveal_with_fuel(pow256, 5);
    }
    read_be(data, at, 4) as u32
}

/// Reads the sixteen octets at `at` as a big-endian number.
pub fn read_u128(data: &[u8], at: usize) -> (value: u128)
    requires
        at + 16 <= data@.len(),
    ensures
        value == be_value(data@.subrange(at as int, at + 16)),
{
    read_be(data, at, 16)
}

} // verus!
