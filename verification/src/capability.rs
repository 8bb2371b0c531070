//! The two interfaces of the crate: [`OptionallyConst`], the shared contract
//! of "an optionally constant value of domain `T`", and [`Const`], the
//! narrower contract of a type that stands for exactly one value of `T`.

use vstd::prelude::*;

verus! {

/// Holds when `S::try_from_value(value)` is required to succeed: always for a
/// dynamic implementor (no associated constant), and exactly on the constant
/// itself for a static marker.
pub open spec fn accepts_value<T, S: OptionallyConst<T>>(value: T) -> bool {
    match S::maybe_const_spec() {
        Option::None => true,
        Option::Some(c) => c == value,
    }
}

/// The full behaviour of `S::try_from_value(value)`: on an accepted value the
/// result is an instance carrying that value, and on a rejected value it is
/// exactly `Err(value)`, the input unchanged.
///
/// This is the same condition that `try_from_value` itself ensures, stated
/// as one predicate for the laws below. (The trait spells the condition out
/// in its own `ensures`: a trait contract cannot call a function that is
/// bounded by that same trait.)
pub open spec fn try_from_value_post<T, S: OptionallyConst<T>>(
    value: T,
    r: Result<S, T>,
) -> bool {
    if accepts_value::<T, S>(value) {
        r matches Result::Ok(x) && x.value_spec() == value
    } else {
        r == Result::<S, T>::Err(value)
    }
}

/// A type that is either a plain run-time value of domain `T` or a zero-size
/// marker bound at compile time to one fixed value of `T`.
///
/// Every implementor is exactly one of the two: dynamic, with
/// `maybe_const_spec()` equal to `None`, or static, with `maybe_const_spec()`
/// equal to `Some(c)` for its one constant `c`.
pub trait OptionallyConst<T>: Clone + Copy + PartialEq + Sized {
    /// The optional constant this type is bound to: `None` for a dynamic
    /// implementor, `Some(c)` for a static marker with constant `c`.
    spec fn maybe_const_spec() -> Option<T>;

    /// The domain value an instance stands for.
    spec fn value_spec(self) -> T;

    /// All instances of a static marker stand for its one constant.
    proof fn const_value_agrees(self)
        ensures
            Self::maybe_const_spec() matches Option::Some(c) ==> self.value_spec() == c,
    ;

    /// The optional constant, as a run-time value.
    fn maybe_const() -> (r: Option<T>)
        ensures
            r == Self::maybe_const_spec(),
    ;

    /// Consumes the instance and returns the value it stands for.
    fn into_value(self) -> (r: T)
        ensures
            r == self.value_spec(),
    ;

    /// Converts a run-time value into an instance of this type.
    ///
    /// Succeeds for every value on a dynamic implementor, and exactly on the
    /// marker's constant on a static one; on a mismatch the rejected value is
    /// returned unchanged.
    fn try_from_value(value: T) -> (r: Result<Self, T>)
        ensures
            match Self::maybe_const_spec() {
                Option::None => r matches Result::Ok(x) && x.value_spec() == value,
                Option::Some(c) => if c == value {
                    r matches Result::Ok(x) && x.value_spec() == value
                } else {
                    r == Result::<Self, T>::Err(value)
                },
            },
    ;

}

/// Bridges two implementors of the same domain `T`: extracts `another`'s
/// value and attempts `S::try_from_value` on it; on failure the original
/// typed instance `another` is returned unchanged, not the raw value.
///
/// This is a free function rather than a method of [`OptionallyConst`]
/// because a trait method cannot be bounded by its own trait here.
pub fn try_from_another<T, S, U>(another: U) -> (r: Result<S, U>) where
    S: OptionallyConst<T>,
    U: OptionallyConst<T>,

    ensures
        accepts_value::<T, S>(another.value_spec()) ==> (r matches Result::Ok(x)
            && x.value_spec() == another.value_spec()),
        !accepts_value::<T, S>(another.value_spec()) ==> r == Result::<S, U>::Err(another),
{
    match S::try_from_value(another.into_value()) {
        Result::Ok(x) => Result::Ok(x),
        Result::Err(_) => Result::Err(another),
    }
}

/// A type that stands for exactly one compile-time-known value of domain `T`.
pub trait Const<T> {
    /// The one value the implementing type stands for.
    spec fn const_value() -> T;

    /// The constant, as a run-time value.
    fn value() -> (r: T)
        ensures
            r == Self::const_value(),
    ;
}

/// A dynamic instance has no associated constant, stands for itself, and is
/// accepted back by `try_from_value` unchanged: the result of
/// `T::try_from_value(v)` is exactly `Ok(v)`.
pub proof fn lemma_dynamic_representation<T: Clone + Copy + PartialEq>(v: T, r: Result<T, T>)
    requires
        try_from_value_post::<T, T>(v, r),
    ensures
        <T as OptionallyConst<T>>::maybe_const_spec() is None,
        v.value_spec() == v,
        r == Result::<T, T>::Ok(v),
{
}

/// A static marker with constant `c` accepts exactly `c`: `try_from_value`
/// succeeds on `c` with an instance standing for `c`, and on any other value
/// `v` fails with exactly `Err(v)`, the rejected value unchanged.
pub proof fn lemma_static_marker<T, S: OptionallyConst<T>>(c: T, v: T, r: Result<S, T>)
    requires
        S::maybe_const_spec() == Option::<T>::Some(c),
        try_from_value_post::<T, S>(v, r),
    ensures
        v == c ==> (r matches Result::Ok(x) && x.value_spec() == c),
        v != c ==> r == Result::<S, T>::Err(v),
{
}

/// The round-trip law: for any instance `x` of any implementor,
/// `try_from_value(into_value(x))` succeeds and yields an instance standing
/// for the same value as `x`.
pub proof fn lemma_round_trip<T, S: OptionallyConst<T>>(x: S, r: Result<S, T>)
    requires
        try_from_value_post::<T, S>(x.value_spec(), r),
    ensures
        r matches Result::Ok(y) && y.value_spec() == x.value_spec(),
{
    x.const_value_agrees();
}

impl<T: Clone + Copy + PartialEq> OptionallyConst<T> for T {
    /// A plain value is the dynamic representation: it has no constant.
    open spec fn maybe_const_spec() -> Option<T> {
        Option::None
    }

    open spec fn value_spec(self) -> T {
        self
    }

    proof fn const_value_agrees(self) {
    }

    fn maybe_const() -> (r: Option<T>) {
        Option::None
    }

    fn into_value(self) -> (r: T) {
        self
    }

    fn try_from_value(value: T) -> (r: Result<Self, T>) {
        Result::Ok(value)
    }
}

} // verus!
