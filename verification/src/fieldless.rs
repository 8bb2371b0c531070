//! A fieldless enumeration together with the marker-type family that the
//! generator derives for it: one zero-size specialization per variant,
//! indexed by the variant's ordinal, plus the tagged conversion back from
//! the enumeration.
//!
//! This module is the concrete expansion of the output that
//! `generator::derive_fieldless_enum_const_type` describes for an
//! enumeration with three variants and the family name `ConstTypeName`.
//!
//! A marker's `try_from_value` tests the value by a structural match on the
//! variant, not through the domain's general equality operation: for a
//! closed enumeration the two agree, and the match is decided by the
//! variant alone.

use vstd::prelude::*;

use crate::capability::Const;
use crate::capability::OptionallyConst;

verus! {

/// A closed enumeration of data-less variants, the input shape the
/// marker-type generator works on.
#[derive(Debug, Clone, Copy, PartialEq, Eq, Structural)]
pub enum FieldlessEnum {
    A,
    B,
    C,
}

/// The marker-type family derived for [`FieldlessEnum`]: `ConstTypeName<d>`
/// stands for the variant at ordinal `d`. Only the tags `0`, `1` and `2`
/// correspond to a variant and implement the two interfaces; any other tag
/// names a family member with no implementation at all.
#[derive(Debug, Clone, Copy, PartialEq)]
pub struct ConstTypeName<const DISCRIMINANT: usize>;

impl FieldlessEnum {
    /// A variant's ordinal: its position in declaration order.
    pub open spec fn ordinal_spec(self) -> usize {
        match self {
            FieldlessEnum::A => 0,
            FieldlessEnum::B => 1,
            FieldlessEnum::C => 2,
        }
    }

    /// Returns the variant's ordinal in declaration order.
    pub fn ordinal(self) -> (r: usize)
        ensures
            r == self.ordinal_spec(),
    {
        match self {
            FieldlessEnum::A => 0,
            FieldlessEnum::B => 1,
            FieldlessEnum::C => 2,
        }
    }

    /// Converts the enumeration value into the marker instance at tag
    /// `DISCRIMINANT`, which must be the tag of a real variant.
    ///
    /// Succeeds exactly when the value's own ordinal equals the tag; on a
    /// mismatch the original value is returned unchanged.
    pub fn try_into_const_type_instance<const DISCRIMINANT: usize>(self) -> (r: Result<
        ConstTypeName<DISCRIMINANT>,
        FieldlessEnum,
    >) where ConstTypeName<DISCRIMINANT>: Const<FieldlessEnum>
        ensures
            self.ordinal_spec() == DISCRIMINANT ==> r == Result::<
                ConstTypeName<DISCRIMINANT>,
                FieldlessEnum,
            >::Ok(ConstTypeName::<DISCRIMINANT>),
            self.ordinal_spec() != DISCRIMINANT ==> r == Result::<
                ConstTypeName<DISCRIMINANT>,
                FieldlessEnum,
            >::Err(self),
    {
        if self.ordinal() == DISCRIMINANT {
            Result::Ok(ConstTypeName::<DISCRIMINANT>)
        } else {
            Result::Err(self)
        }
    }
}

impl Const<FieldlessEnum> for ConstTypeName<0> {
    open spec fn const_value() -> FieldlessEnum {
        FieldlessEnum::A
    }

    fn value() -> (r: FieldlessEnum) {
        FieldlessEnum::A
    }
}

impl Const<FieldlessEnum> for ConstTypeName<1> {
    open spec fn const_value() -> FieldlessEnum {
        FieldlessEnum::B
    }

    fn value() -> (r: FieldlessEnum) {
        FieldlessEnum::B
    }
}

impl Const<FieldlessEnum> for ConstTypeName<2> {
    open spec fn const_value() -> FieldlessEnum {
        FieldlessEnum::C
    }

    fn value() -> (r: FieldlessEnum) {
        FieldlessEnum::C
    }
}

impl OptionallyConst<FieldlessEnum> for ConstTypeName<0> {
    open spec fn maybe_const_spec() -> Option<FieldlessEnum> {
        Option::Some(FieldlessEnum::A)
    }

    open spec fn value_spec(self) -> FieldlessEnum {
        FieldlessEnum::A
    }

    proof fn const_value_agrees(self) {
    }

    fn maybe_const() -> (r: Option<FieldlessEnum>) {
        Option::Some(FieldlessEnum::A)
    }

    fn into_value(self) -> (r: FieldlessEnum) {
        FieldlessEnum::A
    }

    fn try_from_value(value: FieldlessEnum) -> (r: Result<Self, FieldlessEnum>) {
        if matches!(value, FieldlessEnum::A) {
            Result::Ok(ConstTypeName::<0>)
        } else {
            Result::Err(value)
        }
    }
}

impl OptionallyConst<FieldlessEnum> for ConstTypeName<1> {
    open spec fn maybe_const_spec() -> Option<FieldlessEnum> {
        Option::Some(FieldlessEnum::B)
    }

    open spec fn value_spec(self) -> FieldlessEnum {
        FieldlessEnum::B
    }

    proof fn const_value_agrees(self) {
    }

    fn maybe_const() -> (r: Option<FieldlessEnum>) {
        Option::Some(FieldlessEnum::B)
    }

    fn into_value(self) -> (r: FieldlessEnum) {
        FieldlessEnum::B
    }

    fn try_from_value(value: FieldlessEnum) -> (r: Result<Self, FieldlessEnum>) {
        if matches!(value, FieldlessEnum::B) {
            Result::Ok(ConstTypeName::<1>)
        } else {
            Result::Err(value)
        }
    }
}

impl OptionallyConst<FieldlessEnum> for ConstTypeName<2> {
    open spec fn maybe_const_spec() -> Option<FieldlessEnum> {
        Option::Some(FieldlessEnum::C)
    }

    open spec fn value_spec(self) -> FieldlessEnum {
        FieldlessEnum::C
    }

    proof fn const_value_agrees(self) {
    }

    fn maybe_const() -> (r: Option<FieldlessEnum>) {
        Option::Some(FieldlessEnum::C)
    }

    fn into_value(self) -> (r: FieldlessEnum) {
        FieldlessEnum::C
    }

    fn try_from_value(value: FieldlessEnum) -> (r: Result<Self, FieldlessEnum>) {
        if matches!(value, FieldlessEnum::C) {
            Result::Ok(ConstTypeName::<2>)
        } else {
            Result::Err(value)
        }
    }
}

/// Each generated specialization is wired consistently: the constant of its
/// `Const` implementation is the variant at its own tag, that same constant
/// is what its `OptionallyConst` implementation reports, and the constant's
/// ordinal equals the tag.
pub proof fn lemma_generated_family_consistent()
    ensures
        <ConstTypeName<0> as Const<FieldlessEnum>>::const_value() == FieldlessEnum::A,
        <ConstTypeName<1> as Const<FieldlessEnum>>::const_value() == FieldlessEnum::B,
        <ConstTypeName<2> as Const<FieldlessEnum>>::const_value() == FieldlessEnum::C,
        <ConstTypeName<0> as OptionallyConst<FieldlessEnum>>::maybe_const_spec()
            == Option::Some(<ConstTypeName<0> as Const<FieldlessEnum>>::const_value()),
        <ConstTypeName<1> as OptionallyConst<FieldlessEnum>>::maybe_const_spec()
            == Option::Some(<ConstTypeName<1> as Const<FieldlessEnum>>::const_value()),
        <ConstTypeName<2> as OptionallyConst<FieldlessEnum>>::maybe_const_spec()
            == Option::Some(<ConstTypeName<2> as Const<FieldlessEnum>>::const_value()),
        <ConstTypeName<0> as Const<FieldlessEnum>>::const_value().ordinal_spec() == 0,
        <ConstTypeName<1> as Const<FieldlessEnum>>::const_value().ordinal_spec() == 1,
        <ConstTypeName<2> as Const<FieldlessEnum>>::const_value().ordinal_spec() == 2,
{
}

} // verus!
