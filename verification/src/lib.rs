//! Conversion of fixed-layout values between little-endian, big-endian and the
//! byte order of the machine, with the conversions stated and proved.
//!
//! `Endify` has the four conversions `to_le`, `to_be`, `from_le` and `from_be`.
//! The integers, `bool` and fixed-size arrays have them here; for a record,
//! `endify_derive` generates them from the shape of the record.

pub mod swap;
pub mod order;
pub mod convert;
pub mod primitive;
pub mod array;
pub mod shape;
pub mod generate;

pub use convert::Endify;
pub use generate::endify_derive;
