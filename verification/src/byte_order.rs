//! Byte orders and the integers a byte sequence denotes under each of them.

use vstd::prelude::*;

verus! {

/// Which byte of a multi-byte integer is most significant: the order is chosen
/// once by the caller and applied uniformly to every primitive reached while
/// decoding.
#[derive(Clone, Copy, Debug, PartialEq, Eq, Structural)]
pub enum ByteOrder {
    /// Least-significant byte first.
    LittleEndian,
    /// Most-significant byte first.
    BigEndian,
}

/// 256 raised to `n`: the number of distinct values `n` bytes can hold.
pub open spec fn pow256(n: nat) -> nat
    decreases n,
{
    if n == 0 {
        1
    } else {
        256 * pow256((n - 1) as nat)
    }
}

/// The unsigned integer denoted by `bytes` read least-significant byte first.
pub open spec fn le_uint(bytes: Seq<u8>) -> nat
    decreases bytes.len(),
{
    if bytes.len() == 0 {
        0
    } else {
        bytes.first() as nat + 256 * le_uint(bytes.drop_first())
    }
}

/// The unsigned integer denoted by `bytes` read most-significant byte first.
pub open spec fn be_uint(bytes: Seq<u8>) -> nat
    decreases bytes.len(),
{
    if bytes.len() == 0 {
        0
    } else {
        256 * be_uint(bytes.drop_last()) + bytes.last() as nat
    }
}

/// The unsigned integer denoted by `bytes` under `order`.
pub open spec fn uint_of(order: ByteOrder, bytes: Seq<u8>) -> nat {
    match order {
        ByteOrder::LittleEndian => le_uint(bytes),
        ByteOrder::BigEndian => be_uint(bytes),
    }
}

/// The two's-complement reading of the same bytes: values with the top bit set
/// denote `uint_of(..) - 256^len`.
pub open spec fn signed_of(order: ByteOrder, bytes: Seq<u8>) -> int {
    let v = uint_of(order, bytes);
    if 2 * v < pow256(bytes.len()) {
        v as int
    } else {
        v - pow256(bytes.len())
    }
}

/// `pow256` never falls to zero.
pub proof fn lemma_pow256_pos(n: nat)
    ensures
        pow256(n) >= 1,
    decreases n,
{
    if n > 0 {
        lemma_pow256_pos((n - 1) as nat);
    }
}

/// `pow256` grows with its argument.
pub proof fn lemma_pow256_mono(a: nat, b: nat)
    requires
        a <= b,
    ensures
        pow256(a) <= pow256(b),
    decreases b,
{
    if a < b {
        lemma_pow256_mono(a, (b - 1) as nat);
        lemma_pow256_pos((b - 1) as nat);
    }
}

/// A little-endian reading of `bytes` fits in `bytes.len()` bytes.
pub proof fn lemma_le_uint_bound(bytes: Seq<u8>)
    ensures
        le_uint(bytes) < pow256(bytes.len()),
    decreases bytes.len(),
{
    if bytes.len() > 0 {
        lemma_le_uint_bound(bytes.drop_first());
    }
}

/// A big-endian reading of `bytes` fits in `bytes.len()` bytes.
pub proof fn lemma_be_uint_bound(bytes: Seq<u8>)
    ensures
        be_uint(bytes) < pow256(bytes.len()),
    decreases bytes.len(),
{
    if bytes.len() > 0 {
        lemma_be_uint_bound(bytes.drop_last());
    }
}

/// A reading under either order fits in `bytes.len()` bytes.
pub proof fn lemma_uint_of_bound(order: ByteOrder, bytes: Seq<u8>)
    ensures
        uint_of(order, bytes) < pow256(bytes.len()),
{
    match order {
        ByteOrder::LittleEndian => lemma_le_uint_bound(bytes),
        ByteOrder::BigEndian => lemma_be_uint_bound(bytes),
    }
}

} // verus!
