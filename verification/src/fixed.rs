//! Fixed-length homogeneous sequences: `N` values of one decodable element
//! type, stored back to back with no padding.

use vstd::prelude::*;

use crate::byte_order::ByteOrder;
use crate::decode::BinaryDeserialize;
use crate::stream::{ByteStream, DecodeError};

verus! {

/// `N` decoded values of `T`, in wire order. The length is part of the type,
/// never read from the stream.
pub struct FixedSeq<T, const N: usize> {
    elems: Vec<T>,
}

impl<T: DeepView, const N: usize> DeepView for FixedSeq<T, N> {
    type V = Seq<T::V>;

    closed spec fn deep_view(&self) -> Seq<T::V> {
        self.elems.deep_view()
    }
}

impl<T: DeepView, const N: usize> FixedSeq<T, N> {
    /// How many elements the sequence holds: always `N` for a decoded value.
    pub fn len(&self) -> (n: usize)
        ensures
            n == self.deep_view().len(),
    {
        self.elems.len()
    }

    /// The element at index `i`.
    pub fn get(&self, i: usize) -> (e: &T)
        requires
            i < self.deep_view().len(),
        ensures
            e.deep_view() == self.deep_view()[i as int],
    {
        &self.elems[i]
    }

    /// Wraps `elems`, which must hold exactly `N` values.
    pub fn from_vec(elems: Vec<T>) -> (s: FixedSeq<T, N>)
        requires
            elems@.len() == N,
        ensures
            s.deep_view() == elems.deep_view(),
    {
        FixedSeq { elems }
    }

    /// Hands the elements back out as a plain vector.
    pub fn into_vec(self) -> (elems: Vec<T>)
        ensures
            elems.deep_view() == self.deep_view(),
    {
        self.elems
    }
}

impl<T: BinaryDeserialize, const N: usize> BinaryDeserialize for FixedSeq<T, N> {
    open spec fn spec_size() -> nat {
        (N * T::spec_size()) as nat
    }

    open spec fn spec_decode(order: ByteOrder, bytes: Seq<u8>) -> Seq<T::V> {
        Seq::new(
            N as nat,
            |i: int|
                T::spec_decode(
                    order,
                    bytes.subrange(i * T::spec_size() as int, (i + 1) * T::spec_size() as int),
                ),
        )
    }

    fn size() -> (n: usize) {
        if N == 0 {
            0
        } else {
            proof {
                assert(T::spec_size() <= N * T::spec_size()) by (nonlinear_arith)
                    requires
                        N >= 1,
                ;
            }
            let per_elem: usize = T::size();
            N * per_elem
        }
    }

    fn deserialize(order: ByteOrder, stream: &mut ByteStream) -> Result<Self, DecodeError> {
        let ghost s = T::spec_size() as int;
        let ghost rem0 = old(stream).remaining();
        let mut elems: Vec<T> = Vec::new();
        let mut i: usize = 0;
        while i < N
            invariant
                i <= N,
                stream.wf(),
                stream.bytes() == old(stream).bytes(),
                s == T::spec_size() as int,
                rem0 == old(stream).remaining(),
                stream.position() == old(stream).position() + i * s,
                elems.deep_view().len() == i,
                forall|j: int|
                    0 <= j < i ==> #[trigger] elems.deep_view()[j] == T::spec_decode(
                        order,
                        rem0.subrange(j * s, (j + 1) * s),
                    ),
            decreases N - i,
        {
            proof {
                assert(stream.remaining() =~= rem0.skip(i * s));
            }
            let e = match T::deserialize(order, stream) {
                Ok(e) => e,
                Err(err) => {
                    proof {
                        // The failed element saw fewer than `s` bytes, so the
                        // whole sequence had fewer than `N * s` to begin with.
                        assert(rem0.len() < i * s + s);
                        assert((i + 1) * s == i * s + s) by (nonlinear_arith);
                        vstd::arithmetic::mul::lemma_mul_inequality(
                            i + 1,
                            N as int,
                            s,
                        );
                    }
                    return Err(err);
                },
            };
            proof {
                assert(rem0.skip(i * s).take(s) =~= rem0.subrange(i * s, i * s + s));
                assert((i + 1) * s == i * s + s) by (nonlinear_arith);
            }
            let ghost prior = elems.deep_view();
            elems.push(e);
            proof {
                assert(elems.deep_view() =~= prior.push(e.deep_view()));
            }
            i = i + 1;
        }
        proof {
            // Exactly `N * s` bytes were consumed, and each element saw its
            // own `s`-byte slice of the first `N * s` bytes.
            assert(rem0.len() >= N * s);
            assert forall|j: int| 0 <= j < N implies #[trigger] Self::spec_decode(
                order,
                rem0.take(N * s),
            )[j] == elems.deep_view()[j] by {
                vstd::arithmetic::mul::lemma_mul_inequality(j + 1, N as int, s);
                assert(j * s >= 0) by (nonlinear_arith)
                    requires
                        j >= 0,
                        s >= 0,
                ;
                assert((j + 1) * s == j * s + s) by (nonlinear_arith);
                assert(rem0.take(N * s).subrange(j * s, (j + 1) * s) =~= rem0.subrange(
                    j * s,
                    (j + 1) * s,
                ));
            }
            assert(elems.deep_view() =~= Self::spec_decode(order, rem0.take(N * s)));
        }
        Ok(FixedSeq { elems })
    }
}

/// Size additivity for sequences: a fixed-length sequence occupies its
/// element size times its length — the sum of its elements' sizes —
/// whatever the element values are.
pub proof fn lemma_fixed_seq_size_additive<T: BinaryDeserialize, const N: usize>()
    ensures
        FixedSeq::<T, N>::spec_size() == N * T::spec_size(),
{
}

} // verus!
