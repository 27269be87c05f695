//! A typed, endianness-aware binary decoder.
//!
//! Every decodable type declares a fixed encoded size, known without reading
//! any input, and a decode procedure that consumes exactly that many bytes
//! from a forward-only stream under a caller-selected byte order. Primitive
//! integers of every width implement the contract directly; fixed-length
//! sequences and records compose it: a record is decoded as the concatenation
//! of its fields' decodings, and its size is the sum of theirs.

pub mod byte_order;
pub mod decode;
pub mod fixed;
pub mod record;
pub mod stream;

pub use crate::byte_order::ByteOrder;
pub use crate::decode::BinaryDeserialize;

use vstd::prelude::*;

use crate::stream::{ByteStream, DecodeError};

verus! {

/// Decodes one value of `T` from `stream` under `order`: the top-level entry
/// point. Succeeds exactly when at least `T::spec_size()` bytes remain; on
/// success the cursor has advanced by exactly that many bytes, the rest of
/// the stream is untouched, and the value is a pure function of the consumed
/// bytes and the order.
pub fn deserialize<T: BinaryDeserialize>(order: ByteOrder, stream: &mut ByteStream) -> (r:
    Result<T, DecodeError>)
    requires
        old(stream).wf(),
    ensures
        final(stream).wf(),
        final(stream).bytes() == old(stream).bytes(),
        old(stream).position() <= final(stream).position(),
        r is Ok <==> T::spec_size() <= old(stream).remaining().len(),
        (r matches Ok(v) ==> {
            &&& final(stream).position() == old(stream).position() + T::spec_size()
            &&& v.deep_view() == T::spec_decode(
                order,
                old(stream).remaining().take(T::spec_size() as int),
            )
        }),
        (r matches Err(e) ==> e == DecodeError::EndOfInput),
{
    T::deserialize(order, stream)
}

/// The encoded size of `T`, computed from the type alone: no stream is
/// touched.
pub fn size_of<T: BinaryDeserialize>() -> (n: usize)
    requires
        T::spec_size() <= usize::MAX,
    ensures
        n == T::spec_size(),
{
    T::size()
}

/// Round-trip determinism: a decoded value is a pure function of the byte
/// order and the bytes consumed, so two decodes of the same buffer under the
/// same order agree bit for bit, as their views show.
pub proof fn lemma_decode_deterministic<T: BinaryDeserialize>(
    order: ByteOrder,
    bytes: Seq<u8>,
    v1: T,
    v2: T,
)
    requires
        v1.deep_view() == T::spec_decode(order, bytes),
        v2.deep_view() == T::spec_decode(order, bytes),
    ensures
        v1.deep_view() == v2.deep_view(),
{
}

} // verus!
