//! Marshalling between a fixed-layout, dynamically tagged wire value and a
//! statically typed [`variant::Variant`].
//!
//! The wire side is modelled platform-agnostically by [`wire::WireVariant`]:
//! a 16-bit tag field (with an orthogonal by-reference bit) next to a payload
//! slot.  All layout-dependent access to the native tagged union belongs to
//! the unverified platform boundary, which converts between the native struct
//! and [`wire::WireVariant`] field by field.
//!
//! [`convert::decode`] and [`convert::encode`] are the two entry points; the
//! codecs for currency, decimal, date and text values live under
//! [`com_types`].

pub mod com_types;
pub mod convert;
pub mod dispatch;
pub mod variant;
pub mod wire;

pub use crate::variant::Variant;
pub use crate::variant::VariantType;
pub use crate::variant::TagClass;
pub use crate::variant::ToVariant;
pub use crate::variant::VT_BYREF;
pub use crate::convert::VariantConversionError;
