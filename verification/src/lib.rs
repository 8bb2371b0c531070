//! Optionally-constant values.
//!
//! A value of some domain type `T` can be held in two ways: as an ordinary
//! run-time value, or as a dedicated zero-size marker type that is bound at
//! compile time to exactly one value of `T`. The [`OptionallyConst`] trait is
//! the shared interface over both representations, and the [`Const`] trait is
//! the narrower contract of the marker types. [`ConstTypeBool`] is a minimal
//! reference instantiation of the two traits over `bool`, and the `generator`
//! module models the mechanical derivation of a marker-type family from a
//! fieldless enumeration.

pub mod bool_marker;
pub mod capability;
pub mod fieldless;
pub mod generator;
pub mod my_enum;

pub use bool_marker::ConstTypeBool;
pub use fieldless::ConstTypeName;
pub use fieldless::FieldlessEnum;
pub use capability::Const;
pub use capability::OptionallyConst;
pub use capability::try_from_another;
