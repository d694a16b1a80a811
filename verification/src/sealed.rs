//! Private home of the sealing token.
//!
//! No other crate can name [`Sealed`], so no other crate can write an
//! implementation of a trait method that takes it as an argument; a trait
//! whose only method demands a `Sealed` is implementable in this crate
//! alone.

use vstd::prelude::*;

verus! {

/// Marker argument for sealed trait methods, nameable only inside this
/// crate.
pub struct Sealed {
    _private: (),
}

} // verus!
