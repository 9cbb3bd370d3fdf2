//! Byte orders, and the byte order of the machine.

use vstd::prelude::*;
use crate::swap::swap16;

verus! {

/// The order in which the bytes of a multi-byte integer are laid out.
#[derive(Clone, Copy, PartialEq, Eq, Structural, Debug)]
pub enum ByteOrder {
    /// Least-significant byte first.
    Little,
    /// Most-significant byte first.
    Big,
}

/// What `u16::to_le` returns for `x`.
///
/// The standard library chooses between its two behaviours when it is compiled
/// for a target, so within one build of this crate the result depends on `x`
/// alone, as the size of a type does. Nothing is said here of which of the two
/// it is: what is proved with it holds on a machine of either order.
pub uninterp spec fn u16_to_le(x: u16) -> u16;

/// The byte order of the machine: little-endian exactly when `u16::to_le`
/// leaves 1 as it is.
pub open spec fn native_order() -> ByteOrder {
    if u16_to_le(1) == 1 {
        ByteOrder::Little
    } else {
        ByteOrder::Big
    }
}

/// Calls `u16::to_le`. Its documentation says that the call does nothing on a
/// little-endian target and swaps the two bytes on a big-endian one; the
/// contract says the same, with `native_order` for the target's order.
#[verifier::external_body]
fn u16_native_to_le(x: u16) -> (r: u16)
    ensures
        r == u16_to_le(x),
        r == (if native_order() == ByteOrder::Little { x } else { swap16(x) }),
{
    u16::to_le(x)
}

/// The order that `probe` shows, `probe` being what `u16::to_le` made of 1.
pub fn order_of_probe(probe: u16) -> (r: ByteOrder)
    ensures
        r == (if probe == 1 { ByteOrder::Little } else { ByteOrder::Big }),
{
    if probe == 1 {
        ByteOrder::Little
    } else {
        ByteOrder::Big
    }
}

impl ByteOrder {
    /// The byte order of the machine.
    pub fn native() -> (r: ByteOrder)
        ensures
            r == native_order(),
    {
        order_of_probe(u16_native_to_le(1))
    }
}

} // verus!
