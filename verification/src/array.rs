//! The conversions of fixed-size arrays: element by element.

use vstd::prelude::*;
use vstd::array::spec_array_update;
use crate::convert::{convert, from_be_spec, from_le_spec, to_be_spec, to_le_spec, Conforming, Endify};
use crate::order::{native_order, ByteOrder};

verus! {

/// `<[T; N]>::map` of the standard library, which applies `f` to each element
/// in turn and gives the array of the results. The contract claims that the
/// call is in order where `f` accepts every element, and that element `i` of
/// the result is then something that `f` returns for element `i`.
pub assume_specification<E, const N: usize, F, R>[ <[E; N]>::map::<F, R> ](a: [E; N], f: F) -> (r:
    [R; N]) where F: FnMut(E) -> R
    requires
        forall|i: int| 0 <= i < N ==> call_requires(f, (#[trigger] a[i],)),
    ensures
        forall|i: int| 0 <= i < N ==> call_ensures(f, (a[i],), #[trigger] r[i]),
;

/// `a` with each of its first `n` elements byte-reversed.
pub open spec fn swapped_prefix<T: Endify, const N: usize>(a: [T; N], n: int) -> [T; N]
    decreases n,
{
    if n <= 0 {
        a
    } else {
        spec_array_update(swapped_prefix(a, n - 1), n - 1, a[n - 1].swapped())
    }
}

/// The elements of `swapped_prefix(a, n)`, one by one.
pub proof fn lemma_swapped_prefix<T: Endify, const N: usize>(a: [T; N], n: int)
    requires
        0 <= n <= N,
    ensures
        forall|i: int|
            0 <= i < N ==> #[trigger] swapped_prefix(a, n)[i] == (if i < n {
                a[i].swapped()
            } else {
                a[i]
            }),
    decreases n,
{
    if n > 0 {
        lemma_swapped_prefix(a, n - 1);
        let before = swapped_prefix(a, n - 1);
        assert(swapped_prefix(a, n)@ == before@.update(n - 1, a[n - 1].swapped()));
        assert forall|i: int| 0 <= i < N implies #[trigger] swapped_prefix(a, n)[i] == (if i < n {
            a[i].swapped()
        } else {
            a[i]
        }) by {
            assert(before[i] == before@[i]);
        }
    }
}

impl<T: Endify, const N: usize> Endify for [T; N] {
    /// The array of the byte-reversed elements.
    open spec fn swapped(self) -> Self {
        swapped_prefix(self, N as int)
    }

    fn to_le(self) -> (r: Self) {
        let ghost a = self;
        let r = self.map(Endify::to_le);
        proof {
            lemma_swapped_prefix(a, N as int);
            if native_order() == ByteOrder::Little {
                assert(r =~= a);
            } else {
                assert(r =~= swapped_prefix(a, N as int));
            }
        }
        r
    }

    fn to_be(self) -> (r: Self) {
        let ghost a = self;
        let r = self.map(Endify::to_be);
        proof {
            lemma_swapped_prefix(a, N as int);
            if native_order() == ByteOrder::Big {
                assert(r =~= a);
            } else {
                assert(r =~= swapped_prefix(a, N as int));
            }
        }
        r
    }

    fn from_le(self) -> (r: Self) {
        let ghost a = self;
        let r = self.map(Endify::from_le);
        proof {
            lemma_swapped_prefix(a, N as int);
            if native_order() == ByteOrder::Little {
                assert(r =~= a);
            } else {
                assert(r =~= swapped_prefix(a, N as int));
            }
        }
        r
    }

    fn from_be(self) -> (r: Self) {
        let ghost a = self;
        let r = self.map(Endify::from_be);
        proof {
            lemma_swapped_prefix(a, N as int);
            if native_order() == ByteOrder::Big {
                assert(r =~= a);
            } else {
                assert(r =~= swapped_prefix(a, N as int));
            }
        }
        r
    }
}

impl<T: Conforming, const N: usize> Conforming for [T; N] {
    proof fn swapped_twice(self) {
        lemma_swapped_prefix(self, N as int);
        lemma_swapped_prefix(self.swapped(), N as int);
        assert forall|i: int| 0 <= i < N implies self.swapped().swapped()[i] == self[i] by {
            self[i].swapped_twice();
        }
        assert(self.swapped().swapped() =~= self);
    }
}

/// Element `i` of a converted array is element `i` of the array, converted
/// the same way.
pub proof fn lemma_array_elementwise<T: Endify, const N: usize>(
    a: [T; N],
    i: int,
    from: ByteOrder,
    to: ByteOrder,
)
    requires
        0 <= i < N,
    ensures
        convert(a, from, to)[i] == convert(a[i], from, to),
        to_le_spec(a)[i] == to_le_spec(a[i]),
        to_be_spec(a)[i] == to_be_spec(a[i]),
        from_le_spec(a)[i] == from_le_spec(a[i]),
        from_be_spec(a)[i] == from_be_spec(a[i]),
{
    lemma_swapped_prefix(a, N as int);
}

} // verus!
