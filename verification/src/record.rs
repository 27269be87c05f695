//! A record decoded as the concatenation of its fields' decodings.
//!
//! A record type earns the decodable-type contract mechanically from its
//! ordered field list: its size is the sum of its fields' sizes, and its
//! decode reads each field in declared order from the same stream. This
//! module carries one such record, written out by hand exactly as that rule
//! dictates; any other plain aggregate of named decodable fields is composed
//! the same way. Field order is load-bearing: it *is* the wire layout.

use vstd::prelude::*;

use crate::byte_order::ByteOrder;
use crate::decode::BinaryDeserialize;
use crate::stream::{ByteStream, DecodeError};

verus! {

/// A method row of a foreign binary container: five signed 32-bit fields, one
/// unsigned 32-bit field and four unsigned 16-bit fields, in declared order,
/// 32 bytes in all.
#[derive(Clone, Copy, Debug, PartialEq, Eq, Structural)]
pub struct Il2CppMethodDefinition {
    pub name_index: i32,
    pub declaring_type: i32,
    pub return_type: i32,
    pub parameter_start: i32,
    pub generic_container_index: i32,
    pub token: u32,
    pub flags: u16,
    pub iflags: u16,
    pub slot: u16,
    pub parameter_count: u16,
}

impl DeepView for Il2CppMethodDefinition {
    type V = Il2CppMethodDefinition;

    open spec fn deep_view(&self) -> Il2CppMethodDefinition {
        *self
    }
}

impl BinaryDeserialize for Il2CppMethodDefinition {
    open spec fn spec_size() -> nat {
        <i32 as BinaryDeserialize>::spec_size() + <i32 as BinaryDeserialize>::spec_size()
            + <i32 as BinaryDeserialize>::spec_size() + <i32 as BinaryDeserialize>::spec_size()
            + <i32 as BinaryDeserialize>::spec_size() + <u32 as BinaryDeserialize>::spec_size()
            + <u16 as BinaryDeserialize>::spec_size() + <u16 as BinaryDeserialize>::spec_size()
            + <u16 as BinaryDeserialize>::spec_size() + <u16 as BinaryDeserialize>::spec_size()
    }

    open spec fn spec_decode(order: ByteOrder, bytes: Seq<u8>) -> Il2CppMethodDefinition {
        Il2CppMethodDefinition {
            name_index: <i32 as BinaryDeserialize>::spec_decode(order, bytes.subrange(0, 4)),
            declaring_type: <i32 as BinaryDeserialize>::spec_decode(order, bytes.subrange(4, 8)),
            return_type: <i32 as BinaryDeserialize>::spec_decode(order, bytes.subrange(8, 12)),
            parameter_start: <i32 as BinaryDeserialize>::spec_decode(
                order,
                bytes.subrange(12, 16),
            ),
            generic_container_index: <i32 as BinaryDeserialize>::spec_decode(
                order,
                bytes.subrange(16, 20),
            ),
            token: <u32 as BinaryDeserialize>::spec_decode(order, bytes.subrange(20, 24)),
            flags: <u16 as BinaryDeserialize>::spec_decode(order, bytes.subrange(24, 26)),
            iflags: <u16 as BinaryDeserialize>::spec_decode(order, bytes.subrange(26, 28)),
            slot: <u16 as BinaryDeserialize>::spec_decode(order, bytes.subrange(28, 30)),
            parameter_count: <u16 as BinaryDeserialize>::spec_decode(
                order,
                bytes.subrange(30, 32),
            ),
        }
    }

    fn size() -> (n: usize) {
        <i32 as BinaryDeserialize>::size() + <i32 as BinaryDeserialize>::size()
            + <i32 as BinaryDeserialize>::size() + <i32 as BinaryDeserialize>::size()
            + <i32 as BinaryDeserialize>::size() + <u32 as BinaryDeserialize>::size()
            + <u16 as BinaryDeserialize>::size() + <u16 as BinaryDeserialize>::size()
            + <u16 as BinaryDeserialize>::size() + <u16 as BinaryDeserialize>::size()
    }

    fn deserialize(order: ByteOrder, stream: &mut ByteStream) -> Result<Self, DecodeError> {
        let ghost rem0 = old(stream).remaining();
        proof {
            assert(stream.remaining() =~= rem0.skip(0));
        }
        let name_index = match <i32 as BinaryDeserialize>::deserialize(order, stream) {
            Ok(v) => v,
            Err(e) => {
                return Err(e);
            },
        };
        proof {
            assert(stream.remaining() =~= rem0.skip(4));
        }
        let declaring_type = match <i32 as BinaryDeserialize>::deserialize(order, stream) {
            Ok(v) => v,
            Err(e) => {
                return Err(e);
            },
        };
        proof {
            assert(stream.remaining() =~= rem0.skip(8));
        }
        let return_type = match <i32 as BinaryDeserialize>::deserialize(order, stream) {
            Ok(v) => v,
            Err(e) => {
                return Err(e);
            },
        };
        proof {
            assert(stream.remaining() =~= rem0.skip(12));
        }
        let parameter_start = match <i32 as BinaryDeserialize>::deserialize(order, stream) {
            Ok(v) => v,
            Err(e) => {
                return Err(e);
            },
        };
        proof {
            assert(stream.remaining() =~= rem0.skip(16));
        }
        let generic_container_index = match <i32 as BinaryDeserialize>::deserialize(
            order,
            stream,
        ) {
            Ok(v) => v,
            Err(e) => {
                return Err(e);
            },
        };
        proof {
            assert(stream.remaining() =~= rem0.skip(20));
        }
        let token = match <u32 as BinaryDeserialize>::deserialize(order, stream) {
            Ok(v) => v,
            Err(e) => {
                return Err(e);
            },
        };
        proof {
            assert(stream.remaining() =~= rem0.skip(24));
        }
        let flags = match <u16 as BinaryDeserialize>::deserialize(order, stream) {
            Ok(v) => v,
            Err(e) => {
                return Err(e);
            },
        };
        proof {
            assert(stream.remaining() =~= rem0.skip(26));
        }
        let iflags = match <u16 as BinaryDeserialize>::deserialize(order, stream) {
            Ok(v) => v,
            Err(e) => {
                return Err(e);
            },
        };
        proof {
            assert(stream.remaining() =~= rem0.skip(28));
        }
        let slot = match <u16 as BinaryDeserialize>::deserialize(order, stream) {
            Ok(v) => v,
            Err(e) => {
                return Err(e);
            },
        };
        proof {
            assert(stream.remaining() =~= rem0.skip(30));
        }
        let parameter_count = match <u16 as BinaryDeserialize>::deserialize(order, stream) {
            Ok(v) => v,
            Err(e) => {
                return Err(e);
            },
        };
        proof {
            assert(rem0.skip(0).take(4) =~= rem0.take(32).subrange(0, 4));
            assert(rem0.skip(4).take(4) =~= rem0.take(32).subrange(4, 8));
            assert(rem0.skip(8).take(4) =~= rem0.take(32).subrange(8, 12));
            assert(rem0.skip(12).take(4) =~= rem0.take(32).subrange(12, 16));
            assert(rem0.skip(16).take(4) =~= rem0.take(32).subrange(16, 20));
            assert(rem0.skip(20).take(4) =~= rem0.take(32).subrange(20, 24));
            assert(rem0.skip(24).take(2) =~= rem0.take(32).subrange(24, 26));
            assert(rem0.skip(26).take(2) =~= rem0.take(32).subrange(26, 28));
            assert(rem0.skip(28).take(2) =~= rem0.take(32).subrange(28, 30));
            assert(rem0.skip(30).take(2) =~= rem0.take(32).subrange(30, 32));
        }
        Ok(
            Il2CppMethodDefinition {
                name_index,
                declaring_type,
                return_type,
                parameter_start,
                generic_container_index,
                token,
                flags,
                iflags,
                slot,
                parameter_count,
            },
        )
    }
}

/// Size additivity: the record's size is exactly the sum of its fields'
/// sizes, in declared order, with no padding in between, whatever the field
/// values are.
pub proof fn lemma_record_size_additive()
    ensures
        Il2CppMethodDefinition::spec_size() == <i32 as BinaryDeserialize>::spec_size() * 5
            + <u32 as BinaryDeserialize>::spec_size() * 1
            + <u16 as BinaryDeserialize>::spec_size() * 4,
        Il2CppMethodDefinition::spec_size() == 32,
{
}

} // verus!
