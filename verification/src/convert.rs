//! The conversion trait and what holds of every type that has it.

use vstd::prelude::*;
use crate::order::{native_order, ByteOrder};

verus! {

/// Conversion of a value between the byte order of the machine and
/// little-endian or big-endian format.
///
/// A conversion changes the order of the bytes inside each integer of the
/// value and nothing else. Converting *to* a format takes a value in the
/// machine's order; converting *from* a format gives a value in the machine's
/// order. Where the machine's order is the format's own, the value stays as it
/// is; where it is the other one, every integer in it has its bytes reversed.
pub trait Endify: Sized {
    /// This value with the bytes of every integer in it in reverse order.
    ///
    /// A type without multi-byte integers keeps this definition; every other
    /// type gives its own.
    open spec fn swapped(self) -> Self {
        self
    }

    /// Converts a value to little-endian format.
    fn to_le(self) -> (r: Self)
        ensures
            r == (if native_order() == ByteOrder::Little { self } else { self.swapped() }),
    ;

    /// Converts a value to big-endian format.
    fn to_be(self) -> (r: Self)
        ensures
            r == (if native_order() == ByteOrder::Big { self } else { self.swapped() }),
    ;

    /// Converts a value stored in little-endian format to the machine's format.
    fn from_le(self) -> (r: Self)
        ensures
            r == (if native_order() == ByteOrder::Little { self } else { self.swapped() }),
    ;

    /// Converts a value stored in big-endian format to the machine's format.
    fn from_be(self) -> (r: Self)
        ensures
            r == (if native_order() == ByteOrder::Big { self } else { self.swapped() }),
    ;
}

/// A convertible type whose byte reversal undoes itself.
pub trait Conforming: Endify {
    /// Reversing the bytes twice gives the value back.
    proof fn swapped_twice(self)
        ensures
            self.swapped().swapped() == self,
    ;
}

/// `v`, held in byte order `from`, as it reads in byte order `to`.
pub open spec fn convert<T: Endify>(v: T, from: ByteOrder, to: ByteOrder) -> T {
    if from == to {
        v
    } else {
        v.swapped()
    }
}

/// What `to_le` returns for `v`.
pub open spec fn to_le_spec<T: Endify>(v: T) -> T {
    convert(v, native_order(), ByteOrder::Little)
}

/// What `to_be` returns for `v`.
pub open spec fn to_be_spec<T: Endify>(v: T) -> T {
    convert(v, native_order(), ByteOrder::Big)
}

/// What `from_le` returns for `v`.
pub open spec fn from_le_spec<T: Endify>(v: T) -> T {
    convert(v, ByteOrder::Little, native_order())
}

/// What `from_be` returns for `v`.
pub open spec fn from_be_spec<T: Endify>(v: T) -> T {
    convert(v, ByteOrder::Big, native_order())
}

/// Converting from one order to another and back gives the value back.
pub proof fn lemma_convert_back<T: Conforming>(v: T, from: ByteOrder, to: ByteOrder)
    ensures
        convert(convert(v, from, to), to, from) == v,
{
    v.swapped_twice();
}

/// Round trip: reading a value from the format it was converted to gives the
/// value back, for little-endian and for big-endian alike.
pub proof fn lemma_round_trip<T: Conforming>(v: T)
    ensures
        from_le_spec(to_le_spec(v)) == v,
        from_be_spec(to_be_spec(v)) == v,
{
    lemma_convert_back(v, native_order(), ByteOrder::Little);
    lemma_convert_back(v, native_order(), ByteOrder::Big);
}

/// On a machine whose order is that of the format, converting to the format
/// and from it changes nothing; the other format reverses the bytes.
pub proof fn lemma_native_order_is_noop<T: Endify>(v: T)
    ensures
        native_order() == ByteOrder::Little ==> to_le_spec(v) == v && from_le_spec(v) == v,
        native_order() == ByteOrder::Big ==> to_be_spec(v) == v && from_be_spec(v) == v,
        native_order() == ByteOrder::Little ==> to_be_spec(v) == v.swapped() && from_be_spec(v)
            == v.swapped(),
        native_order() == ByteOrder::Big ==> to_le_spec(v) == v.swapped() && from_le_spec(v)
            == v.swapped(),
{
}

/// A record is converted field by field. Let `field` read one field of the
/// records of type `C`. Where reversing the bytes of the record `c` reverses
/// that field, as it does for every record whose operations convert each field
/// by the operation of the same name, the field of the converted record is the
/// converted field.
pub proof fn lemma_field_of_converted<C: Endify, F: Endify>(
    c: C,
    field: spec_fn(C) -> F,
    from: ByteOrder,
    to: ByteOrder,
)
    requires
        field(c.swapped()) == field(c).swapped(),
    ensures
        field(convert(c, from, to)) == convert(field(c), from, to),
        field(to_le_spec(c)) == to_le_spec(field(c)),
        field(to_be_spec(c)) == to_be_spec(field(c)),
        field(from_le_spec(c)) == from_le_spec(field(c)),
        field(from_be_spec(c)) == from_be_spec(field(c)),
{
}

} // verus!
