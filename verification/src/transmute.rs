//! The transmutation capability consumed by the pointer contract.
//!
//! A `TransmuteInto<U>` implementation for a type `T` is a claim that a value
//! of `T` may be reinterpreted, in place, as a value of `U`: every value of
//! `T` reads back as a definite value of `U`, with no layout or alignment
//! mismatch. The pointer contract in [`crate::ptr`] only consumes this
//! capability; it does not decide for which type pairs it should exist.

use vstd::prelude::*;

verus! {

/// Capability: a value of `Self` may be reinterpreted in place as a value
/// of `U`.
///
/// Implementing this trait for a pair of types is a claim about their
/// layouts; an implementation must make sure that every value of `Self` is
/// also a valid value of `U`. The spec function [`TransmuteInto::transmuted`]
/// names the value that a given `Self` value reads as after the
/// reinterpretation, and [`TransmuteInto::transmute`] produces exactly that
/// value.
pub trait TransmuteInto<U>: Sized {
    /// The value that `self` denotes when its representation is read as `U`.
    spec fn transmuted(self) -> U;

    /// Reinterpret `self` as a value of `U`.
    fn transmute(self) -> (u: U)
        ensures
            u == self.transmuted(),
    ;
}

/// Every type reinterprets as itself, and reads back unchanged.
impl<T> TransmuteInto<T> for T {
    open spec fn transmuted(self) -> T {
        self
    }

    fn transmute(self) -> (u: T) {
        self
    }
}

/// A zero-sized marker type that reads as [`MarkB`].
///
/// `MarkA` and `MarkB` have no data at all, so each trivially reinterprets
/// as the other; they are the smallest pair of distinct types the capability
/// can hold between, and adapters can be exercised on them.
#[derive(Debug, PartialEq, Eq, Structural)]
pub struct MarkA;

/// A zero-sized marker type that reads as [`MarkA`].
#[derive(Debug, PartialEq, Eq, Structural)]
pub struct MarkB;

impl TransmuteInto<MarkB> for MarkA {
    open spec fn transmuted(self) -> MarkB {
        MarkB
    }

    fn transmute(self) -> (u: MarkB) {
        MarkB
    }
}

impl TransmuteInto<MarkA> for MarkB {
    open spec fn transmuted(self) -> MarkA {
        MarkA
    }

    fn transmute(self) -> (u: MarkA) {
        MarkA
    }
}

} // verus!
