//! A manually authored enum instantiation of the two interfaces: one
//! dedicated marker type per variant, written out by hand the way the
//! generator would derive them. This is the pattern the generator
//! mechanizes.

use vstd::prelude::*;

use crate::capability::Const;
use crate::capability::OptionallyConst;

verus! {

/// A small enumeration whose variants each get a hand-written marker type.
#[derive(Debug, Clone, Copy, PartialEq, Eq, Structural)]
pub enum MyEnum {
    A,
    B,
    C,
}

impl MyEnum {
    /// The variant's name.
    pub open spec fn label_spec(self) -> Seq<char> {
        match self {
            MyEnum::A => "A"@,
            MyEnum::B => "B"@,
            MyEnum::C => "C"@,
        }
    }

    /// Returns the variant's name.
    pub fn to_string(&self) -> (r: String)
        ensures
            r@ == self.label_spec(),
    {
        match self {
            MyEnum::A => "A".to_string(),
            MyEnum::B => "B".to_string(),
            MyEnum::C => "C".to_string(),
        }
    }
}

/// The marker type bound to `MyEnum::A`.
#[derive(Debug, Clone, Copy, PartialEq)]
pub struct MyEnumAConstType;

/// The marker type bound to `MyEnum::B`.
#[derive(Debug, Clone, Copy, PartialEq)]
pub struct MyEnumBConstType;

/// The marker type bound to `MyEnum::C`.
#[derive(Debug, Clone, Copy, PartialEq)]
pub struct MyEnumCConstType;

impl Const<MyEnum> for MyEnumAConstType {
    open spec fn const_value() -> MyEnum {
        MyEnum::A
    }

    fn value() -> (r: MyEnum) {
        MyEnum::A
    }
}

impl OptionallyConst<MyEnum> for MyEnumAConstType {
    open spec fn maybe_const_spec() -> Option<MyEnum> {
        Option::Some(MyEnum::A)
    }

    open spec fn value_spec(self) -> MyEnum {
        MyEnum::A
    }

    proof fn const_value_agrees(self) {
    }

    fn maybe_const() -> (r: Option<MyEnum>) {
        Option::Some(MyEnum::A)
    }

    fn into_value(self) -> (r: MyEnum) {
        MyEnum::A
    }

    fn try_from_value(value: MyEnum) -> (r: Result<Self, MyEnum>) {
        if matches!(value, MyEnum::A) {
            Result::Ok(MyEnumAConstType)
        } else {
            Result::Err(value)
        }
    }
}

impl Const<MyEnum> for MyEnumBConstType {
    open spec fn const_value() -> MyEnum {
        MyEnum::B
    }

    fn value() -> (r: MyEnum) {
        MyEnum::B
    }
}

impl OptionallyConst<MyEnum> for MyEnumBConstType {
    open spec fn maybe_const_spec() -> Option<MyEnum> {
        Option::Some(MyEnum::B)
    }

    open spec fn value_spec(self) -> MyEnum {
        MyEnum::B
    }

    proof fn const_value_agrees(self) {
    }

    fn maybe_const() -> (r: Option<MyEnum>) {
        Option::Some(MyEnum::B)
    }

    fn into_value(self) -> (r: MyEnum) {
        MyEnum::B
    }

    fn try_from_value(value: MyEnum) -> (r: Result<Self, MyEnum>) {
        if matches!(value, MyEnum::B) {
            Result::Ok(MyEnumBConstType)
        } else {
            Result::Err(value)
        }
    }
}

impl Const<MyEnum> for MyEnumCConstType {
    open spec fn const_value() -> MyEnum {
        MyEnum::C
    }

    fn value() -> (r: MyEnum) {
        MyEnum::C
    }
}

impl OptionallyConst<MyEnum> for MyEnumCConstType {
    open spec fn maybe_const_spec() -> Option<MyEnum> {
        Option::Some(MyEnum::C)
    }

    open spec fn value_spec(self) -> MyEnum {
        MyEnum::C
    }

    proof fn const_value_agrees(self) {
    }

    fn maybe_const() -> (r: Option<MyEnum>) {
        Option::Some(MyEnum::C)
    }

    fn into_value(self) -> (r: MyEnum) {
        MyEnum::C
    }

    fn try_from_value(value: MyEnum) -> (r: Result<Self, MyEnum>) {
        if matches!(value, MyEnum::C) {
            Result::Ok(MyEnumCConstType)
        } else {
            Result::Err(value)
        }
    }
}

} // verus!
