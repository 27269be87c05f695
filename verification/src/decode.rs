//! The decodable-type contract and its implementations for the primitive
//! integer widths.

use vstd::prelude::*;

use crate::byte_order::{
    ByteOrder, be_uint, le_uint, lemma_be_uint_bound, lemma_le_uint_bound, lemma_pow256_mono,
    lemma_uint_of_bound, pow256, signed_of, uint_of,
};
use crate::stream::{ByteStream, DecodeError};

verus! {

/// The capability of being decoded from a byte stream: a fixed encoded size,
/// known without reading any input, and a decode procedure that consumes
/// exactly that many bytes.
///
/// The contract of `deserialize` is uniform over every implementation:
/// decoding succeeds if and only if at least `spec_size()` bytes remain; on
/// success the cursor advances by exactly `spec_size()` and the value is the
/// pure function `spec_decode` of the consumed bytes and the byte order; on
/// failure the error is the end of the input, and bytes already consumed by
/// sub-decodes stay consumed.
pub trait BinaryDeserialize: Sized + DeepView {
    /// The exact number of bytes one value of this type occupies on the wire.
    spec fn spec_size() -> nat;

    /// The value the first `spec_size()` bytes of `bytes` denote under
    /// `order`, as the type's abstract view.
    spec fn spec_decode(order: ByteOrder, bytes: Seq<u8>) -> Self::V;

    /// The encoded size as a machine integer, computed without any input.
    fn size() -> (n: usize)
        requires
            Self::spec_size() <= usize::MAX,
        ensures
            n == Self::spec_size(),
    ;

    /// Decodes one value from `stream` under `order`.
    fn deserialize(order: ByteOrder, stream: &mut ByteStream) -> (r: Result<
        Self,
        DecodeError,
    >)
        requires
            old(stream).wf(),
        ensures
            final(stream).wf(),
            final(stream).bytes() == old(stream).bytes(),
            old(stream).position() <= final(stream).position(),
            r is Ok <==> Self::spec_size() <= old(stream).remaining().len(),
            (r matches Ok(v) ==> {
                &&& final(stream).position() == old(stream).position() + Self::spec_size()
                &&& v.deep_view() == Self::spec_decode(
                    order,
                    old(stream).remaining().take(Self::spec_size() as int),
                )
            }),
            (r matches Err(e) ==> e == DecodeError::EndOfInput),
    ;
}

/// Reassembles at most 16 bytes into the unsigned integer they denote under
/// `order`.
fn uint_from_bytes(order: ByteOrder, bytes: &Vec<u8>) -> (v: u128)
    requires
        bytes@.len() <= 16,
    ensures
        v == uint_of(order, bytes@),
{
    match order {
        ByteOrder::LittleEndian => {
            let mut acc: u128 = 0;
            let mut i: usize = bytes.len();
            while i > 0
                invariant
                    i <= bytes@.len() <= 16,
                    acc == le_uint(bytes@.skip(i as int)),
                decreases i,
            {
                i = i - 1;
                proof {
                    lemma_le_uint_bound(bytes@.skip(i + 1));
                    lemma_pow256_mono((bytes@.len() - i - 1) as nat, 15);
                    reveal_with_fuel(pow256, 17);
                    assert(bytes@.skip(i as int).drop_first() =~= bytes@.skip(i + 1));
                }
                acc = (bytes[i] as u128) + 256 * acc;
            }
            proof {
                assert(bytes@.skip(0) =~= bytes@);
            }
            acc
        },
        ByteOrder::BigEndian => {
            let mut acc: u128 = 0;
            let mut i: usize = 0;
            while i < bytes.len()
                invariant
                    i <= bytes@.len() <= 16,
                    acc == be_uint(bytes@.take(i as int)),
                decreases bytes@.len() - i,
            {
                proof {
                    lemma_be_uint_bound(bytes@.take(i as int));
                    lemma_pow256_mono(i as nat, 15);
                    reveal_with_fuel(pow256, 17);
                    assert(bytes@.take(i + 1).drop_last() =~= bytes@.take(i as int));
                    assert(bytes@.take(i + 1).last() == bytes@[i as int]);
                }
                acc = 256 * acc + (bytes[i] as u128);
                i = i + 1;
            }
            proof {
                assert(bytes@.take(bytes@.len() as int) =~= bytes@);
            }
            acc
        },
    }
}

/// Reads `width` bytes from `stream` and reassembles them under `order`: the
/// one primitive every multi-byte decode reduces to.
fn read_uint(order: ByteOrder, stream: &mut ByteStream, width: usize) -> (r: Result<
    u128,
    DecodeError,
>)
    requires
        old(stream).wf(),
        1 <= width <= 16,
    ensures
        final(stream).wf(),
        final(stream).bytes() == old(stream).bytes(),
        old(stream).position() <= final(stream).position(),
        r is Ok <==> width <= old(stream).remaining().len(),
        (r matches Ok(v) ==> {
            &&& final(stream).position() == old(stream).position() + width
            &&& v == uint_of(order, old(stream).remaining().take(width as int))
            &&& v < pow256(width as nat)
        }),
        (r matches Err(e) ==> {
            &&& e == DecodeError::EndOfInput
            &&& *final(stream) == *old(stream)
        }),
{
    let taken = match stream.take(width) {
        Ok(taken) => taken,
        Err(e) => {
            return Err(e);
        },
    };
    proof {
        lemma_uint_of_bound(order, taken@);
    }
    Ok(uint_from_bytes(order, &taken))
}

/// Reinterprets the bit pattern of a byte as a signed value, two's complement.
fn to_signed_8(v: u8) -> (r: i8)
    ensures
        r == (if v < 0x80 {
            v as int
        } else {
            v - 0x100
        }),
{
    if v < 0x80 {
        v as i8
    } else {
        -((0xffu8 - v) as i8) - 1
    }
}

/// Reinterprets 16 bits as a signed value, two's complement.
fn to_signed_16(v: u16) -> (r: i16)
    ensures
        r == (if v < 0x8000 {
            v as int
        } else {
            v - 0x1_0000
        }),
{
    if v < 0x8000 {
        v as i16
    } else {
        -((0xffffu16 - v) as i16) - 1
    }
}

/// Reinterprets 32 bits as a signed value, two's complement.
fn to_signed_32(v: u32) -> (r: i32)
    ensures
        r == (if v < 0x8000_0000 {
            v as int
        } else {
            v - 0x1_0000_0000
        }),
{
    if v < 0x8000_0000 {
        v as i32
    } else {
        -((0xffff_ffffu32 - v) as i32) - 1
    }
}

/// Reinterprets 64 bits as a signed value, two's complement.
fn to_signed_64(v: u64) -> (r: i64)
    ensures
        r == (if v < 0x8000_0000_0000_0000 {
            v as int
        } else {
            v - 0x1_0000_0000_0000_0000
        }),
{
    if v < 0x8000_0000_0000_0000 {
        v as i64
    } else {
        -((0xffff_ffff_ffff_ffffu64 - v) as i64) - 1
    }
}

/// Reinterprets 128 bits as a signed value, two's complement.
fn to_signed_128(v: u128) -> (r: i128)
    ensures
        r == (if v < 0x8000_0000_0000_0000_0000_0000_0000_0000 {
            v as int
        } else {
            v - 0x1_0000_0000_0000_0000_0000_0000_0000_0000
        }),
{
    if v < 0x8000_0000_0000_0000_0000_0000_0000_0000 {
        v as i128
    } else {
        -((0xffff_ffff_ffff_ffff_ffff_ffff_ffff_ffffu128 - v) as i128) - 1
    }
}

impl BinaryDeserialize for u8 {
    open spec fn spec_size() -> nat {
        1
    }

    open spec fn spec_decode(order: ByteOrder, bytes: Seq<u8>) -> u8 {
        uint_of(order, bytes) as u8
    }

    fn size() -> usize {
        1
    }

    fn deserialize(order: ByteOrder, stream: &mut ByteStream) -> Result<Self, DecodeError> {
        let v = match read_uint(order, stream, 1) {
            Ok(v) => v,
            Err(e) => {
                return Err(e);
            },
        };
        Ok(v as u8)
    }
}

impl BinaryDeserialize for u16 {
    open spec fn spec_size() -> nat {
        2
    }

    open spec fn spec_decode(order: ByteOrder, bytes: Seq<u8>) -> u16 {
        uint_of(order, bytes) as u16
    }

    fn size() -> usize {
        2
    }

    fn deserialize(order: ByteOrder, stream: &mut ByteStream) -> Result<Self, DecodeError> {
        let v = match read_uint(order, stream, 2) {
            Ok(v) => v,
            Err(e) => {
                return Err(e);
            },
        };
        Ok(v as u16)
    }
}

impl BinaryDeserialize for u32 {
    open spec fn spec_size() -> nat {
        4
    }

    open spec fn spec_decode(order: ByteOrder, bytes: Seq<u8>) -> u32 {
        uint_of(order, bytes) as u32
    }

    fn size() -> usize {
        4
    }

    fn deserialize(order: ByteOrder, stream: &mut ByteStream) -> Result<Self, DecodeError> {
        let v = match read_uint(order, stream, 4) {
            Ok(v) => v,
            Err(e) => {
                return Err(e);
            },
        };
        Ok(v as u32)
    }
}

impl BinaryDeserialize for u64 {
    open spec fn spec_size() -> nat {
        8
    }

    open spec fn spec_decode(order: ByteOrder, bytes: Seq<u8>) -> u64 {
        uint_of(order, bytes) as u64
    }

    fn size() -> usize {
        8
    }

    fn deserialize(order: ByteOrder, stream: &mut ByteStream) -> Result<Self, DecodeError> {
        let v = match read_uint(order, stream, 8) {
            Ok(v) => v,
            Err(e) => {
                return Err(e);
            },
        };
        Ok(v as u64)
    }
}

impl BinaryDeserialize for u128 {
    open spec fn spec_size() -> nat {
        16
    }

    open spec fn spec_decode(order: ByteOrder, bytes: Seq<u8>) -> u128 {
        uint_of(order, bytes) as u128
    }

    fn size() -> usize {
        16
    }

    fn deserialize(order: ByteOrder, stream: &mut ByteStream) -> Result<Self, DecodeError> {
        read_uint(order, stream, 16)
    }
}

impl BinaryDeserialize for i8 {
    open spec fn spec_size() -> nat {
        1
    }

    open spec fn spec_decode(order: ByteOrder, bytes: Seq<u8>) -> i8 {
        signed_of(order, bytes) as i8
    }

    fn size() -> usize {
        1
    }

    fn deserialize(order: ByteOrder, stream: &mut ByteStream) -> Result<Self, DecodeError> {
        let v = match read_uint(order, stream, 1) {
            Ok(v) => v,
            Err(e) => {
                return Err(e);
            },
        };
        proof {
            reveal_with_fuel(pow256, 2);
        }
        Ok(to_signed_8(v as u8))
    }
}

impl BinaryDeserialize for i16 {
    open spec fn spec_size() -> nat {
        2
    }

    open spec fn spec_decode(order: ByteOrder, bytes: Seq<u8>) -> i16 {
        signed_of(order, bytes) as i16
    }

    fn size() -> usize {
        2
    }

    fn deserialize(order: ByteOrder, stream: &mut ByteStream) -> Result<Self, DecodeError> {
        let v = match read_uint(order, stream, 2) {
            Ok(v) => v,
            Err(e) => {
                return Err(e);
            },
        };
        proof {
            reveal_with_fuel(pow256, 3);
        }
        Ok(to_signed_16(v as u16))
    }
}

impl BinaryDeserialize for i32 {
    open spec fn spec_size() -> nat {
        4
    }

    open spec fn spec_decode(order: ByteOrder, bytes: Seq<u8>) -> i32 {
        signed_of(order, bytes) as i32
    }

    fn size() -> usize {
        4
    }

    fn deserialize(order: ByteOrder, stream: &mut ByteStream) -> Result<Self, DecodeError> {
        let v = match read_uint(order, stream, 4) {
            Ok(v) => v,
            Err(e) => {
                return Err(e);
            },
        };
        proof {
            reveal_with_fuel(pow256, 5);
        }
        Ok(to_signed_32(v as u32))
    }
}

impl BinaryDeserialize for i64 {
    open spec fn spec_size() -> nat {
        8
    }

    open spec fn spec_decode(order: ByteOrder, bytes: Seq<u8>) -> i64 {
        signed_of(order, bytes) as i64
    }

    fn size() -> usize {
        8
    }

    fn deserialize(order: ByteOrder, stream: &mut ByteStream) -> Result<Self, DecodeError> {
        let v = match read_uint(order, stream, 8) {
            Ok(v) => v,
            Err(e) => {
                return Err(e);
            },
        };
        proof {
            reveal_with_fuel(pow256, 9);
        }
        Ok(to_signed_64(v as u64))
    }
}

impl BinaryDeserialize for i128 {
    open spec fn spec_size() -> nat {
        16
    }

    open spec fn spec_decode(order: ByteOrder, bytes: Seq<u8>) -> i128 {
        signed_of(order, bytes) as i128
    }

    fn size() -> usize {
        16
    }

    fn deserialize(order: ByteOrder, stream: &mut ByteStream) -> Result<Self, DecodeError> {
        let v = match read_uint(order, stream, 16) {
            Ok(v) => v,
            Err(e) => {
                return Err(e);
            },
        };
        proof {
            reveal_with_fuel(pow256, 17);
        }
        Ok(to_signed_128(v))
    }
}

} // verus!
