//! Owned, unique, dereferenceable pointer kinds, and a contract for changing
//! the type of their pointee while the pointer stays pinned in place.
//!
//! The heart of the crate is the [`ptr::OwnedUniquePtr`] contract together
//! with the [`ptr::Reparam`] re-parameterization relation: a pointer kind
//! that exclusively owns its pointee may, given a [`transmute::TransmuteInto`]
//! capability for the pointee types, exchange the static type of its pointee
//! without moving, mutating or reallocating the owned memory.

pub mod ptr;
mod sealed;
pub mod transmute;
