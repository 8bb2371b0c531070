//! Tests for the generated marker-type family of `FieldlessEnum`: the
//! per-variant constants, the tagged conversion, and bridging between the
//! enumeration and its markers.

use optionally_const::Const;
use optionally_const::ConstTypeName;
use optionally_const::FieldlessEnum;
use optionally_const::OptionallyConst;
use optionally_const::try_from_another;

#[test]
fn family_constants_match_variants() {
    assert_eq!(
        <ConstTypeName<0> as Const<FieldlessEnum>>::value(),
        FieldlessEnum::A
    );
    assert_eq!(
        <ConstTypeName<1> as Const<FieldlessEnum>>::value(),
        FieldlessEnum::B
    );
    assert_eq!(
        <ConstTypeName<2> as Const<FieldlessEnum>>::value(),
        FieldlessEnum::C
    );
}

#[test]
fn family_markers_report_their_constants() {
    assert_eq!(
        <ConstTypeName<0> as OptionallyConst<FieldlessEnum>>::maybe_const(),
        Some(FieldlessEnum::A)
    );
    assert_eq!(
        <ConstTypeName<1> as OptionallyConst<FieldlessEnum>>::maybe_const(),
        Some(FieldlessEnum::B)
    );
    assert_eq!(
        <ConstTypeName<2> as OptionallyConst<FieldlessEnum>>::maybe_const(),
        Some(FieldlessEnum::C)
    );
    assert_eq!(
        <FieldlessEnum as OptionallyConst<FieldlessEnum>>::maybe_const(),
        None
    );
}

#[test]
fn tagged_conversion_succeeds_at_own_ordinal() {
    assert_eq!(
        FieldlessEnum::A.try_into_const_type_instance::<0>(),
        Ok(ConstTypeName::<0>)
    );
    assert_eq!(
        FieldlessEnum::B.try_into_const_type_instance::<1>(),
        Ok(ConstTypeName::<1>)
    );
    assert_eq!(
        FieldlessEnum::C.try_into_const_type_instance::<2>(),
        Ok(ConstTypeName::<2>)
    );
}

#[test]
fn tagged_conversion_fails_at_other_ordinals() {
    assert_eq!(
        FieldlessEnum::A.try_into_const_type_instance::<1>(),
        Err(FieldlessEnum::A)
    );
    assert_eq!(
        FieldlessEnum::A.try_into_const_type_instance::<2>(),
        Err(FieldlessEnum::A)
    );
    assert_eq!(
        FieldlessEnum::B.try_into_const_type_instance::<0>(),
        Err(FieldlessEnum::B)
    );
    assert_eq!(
        FieldlessEnum::B.try_into_const_type_instance::<2>(),
        Err(FieldlessEnum::B)
    );
    assert_eq!(
        FieldlessEnum::C.try_into_const_type_instance::<0>(),
        Err(FieldlessEnum::C)
    );
    assert_eq!(
        FieldlessEnum::C.try_into_const_type_instance::<1>(),
        Err(FieldlessEnum::C)
    );
}

#[test]
fn variant_ordinals_follow_declaration_order() {
    assert_eq!(FieldlessEnum::A.ordinal(), 0);
    assert_eq!(FieldlessEnum::B.ordinal(), 1);
    assert_eq!(FieldlessEnum::C.ordinal(), 2);
}

#[test]
fn bridging_between_enum_representations() {
    // marker(A) into marker(A) succeeds
    assert_eq!(
        try_from_another::<FieldlessEnum, ConstTypeName<0>, ConstTypeName<0>>(ConstTypeName::<0>),
        Ok(ConstTypeName::<0>)
    );
    // marker(A) into marker(B) fails, returning marker(A) unchanged
    assert_eq!(
        try_from_another::<FieldlessEnum, ConstTypeName<1>, ConstTypeName<0>>(ConstTypeName::<0>),
        Err(ConstTypeName::<0>)
    );
    // marker(A) into the enumeration succeeds as the A variant
    assert_eq!(
        try_from_another::<FieldlessEnum, FieldlessEnum, ConstTypeName<0>>(ConstTypeName::<0>),
        Ok(FieldlessEnum::A)
    );
    // the A variant into marker(A) succeeds
    assert_eq!(
        try_from_another::<FieldlessEnum, ConstTypeName<0>, FieldlessEnum>(FieldlessEnum::A),
        Ok(ConstTypeName::<0>)
    );
    // the B variant into marker(A) fails, returning the B variant unchanged
    assert_eq!(
        try_from_another::<FieldlessEnum, ConstTypeName<0>, FieldlessEnum>(FieldlessEnum::B),
        Err(FieldlessEnum::B)
    );
}
