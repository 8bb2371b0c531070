//! The reference instantiation of the two interfaces over `bool`: one
//! zero-size marker type per boolean value.

use vstd::prelude::*;

use crate::capability::Const;
use crate::capability::OptionallyConst;

verus! {

/// A zero-size type that stands for the constant boolean `VAL`.
///
/// Ideally this would be a partial parametrization of a fully generic
/// `ConstType<T, VAL>`, but a const parameter cannot range over a generic
/// domain type, so the boolean family is written out on its own.
#[derive(Debug, Clone, Copy, PartialEq)]
pub struct ConstTypeBool<const VAL: bool>;

impl<const VAL: bool> Const<bool> for ConstTypeBool<VAL> {
    open spec fn const_value() -> bool {
        VAL
    }

    fn value() -> (r: bool) {
        VAL
    }
}

impl<const VAL: bool> OptionallyConst<bool> for ConstTypeBool<VAL> {
    /// A marker type is the static representation: its constant is `VAL`.
    open spec fn maybe_const_spec() -> Option<bool> {
        Option::Some(VAL)
    }

    open spec fn value_spec(self) -> bool {
        VAL
    }

    proof fn const_value_agrees(self) {
    }

    fn maybe_const() -> (r: Option<bool>) {
        Option::Some(VAL)
    }

    fn into_value(self) -> (r: bool) {
        VAL
    }

    fn try_from_value(value: bool) -> (r: Result<Self, bool>) {
        if value == VAL {
            Result::Ok(ConstTypeBool::<VAL>)
        } else {
            Result::Err(value)
        }
    }
}

/// The two implementations of a boolean marker agree: the constant of its
/// `Const` implementation is `VAL` itself, and that same constant is what
/// its `OptionallyConst` implementation reports.
pub proof fn lemma_bool_marker_constant<const VAL: bool>()
    ensures
        <ConstTypeBool<VAL> as Const<bool>>::const_value() == VAL,
        <ConstTypeBool<VAL> as OptionallyConst<bool>>::maybe_const_spec() == Option::<bool>::Some(
            <ConstTypeBool<VAL> as Const<bool>>::const_value(),
        ),
{
}

} // verus!
