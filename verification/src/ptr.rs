//! The owned-unique-pointer contract and its heap-owning adapter.
//!
//! Pointer kinds that want to support pinned pointee transmutation implement
//! [`OwnedUniquePtr`] for their current pointee type and [`Reparam`] for each
//! pointee pair they can be re-parameterized over. The type system enforces
//! as much of the contract as it can; implementers remain responsible for
//! the ownership obligations spelled out on [`OwnedUniquePtr`].

use crate::sealed::Sealed;
use crate::transmute::TransmuteInto;
use vstd::prelude::*;

verus! {

/// Witness that `Self` and `T` are one and the same type.
///
/// The only implementation is the reflexive one below; the [`Sealed`]
/// argument of the method, which no other crate can so much as name, keeps
/// every other crate from adding another. A bound
/// `A: TypesEq<B>` therefore holds exactly when `A` and `B` are the same
/// type, and the pointer contract uses it to force the identity closure of
/// its re-parameterization.
pub trait TypesEq<T> {
    fn __no_impls_outside_this_crate(_token: Sealed);
}

impl<T> TypesEq<T> for T {
    fn __no_impls_outside_this_crate(_token: Sealed) {
    }
}

/// A pointer value whose pointee stays at a fixed address for the wrapper's
/// lifetime.
pub struct Pinned<P> {
    inner: P,
}

impl<P> Pinned<P> {
    /// The wrapped pointer value.
    pub closed spec fn ptr(self) -> P {
        self.inner
    }

    /// Pin a pointer value.
    pub fn new(p: P) -> (r: Pinned<P>)
        ensures
            r.ptr() == p,
    {
        Pinned { inner: p }
    }

    /// Shared access to the wrapped pointer value.
    pub fn borrow(&self) -> (p: &P)
        ensures
            *p == self.ptr(),
    {
        &self.inner
    }

    /// Unwrap the pinned value.
    ///
    /// The pinning promise outlives this call only if the caller neither
    /// moves nor mutates the pointee before re-wrapping the pointer; an
    /// adapter that unwraps as part of a pointee transmutation must re-pin
    /// the resulting pointer at once.
    pub fn into_inner(self) -> (p: P)
        ensures
            p == self.ptr(),
    {
        self.inner
    }
}

/// A (smart) unique pointer kind which owns its data, here over the pointee
/// type `T`.
///
/// Implementers declare that
/// - they own the data they point to,
/// - they are the only way to access that data, and
/// - [`OwnedUniquePtr::addr`] models the fixed address of the owned
///   allocation: no operation of theirs relocates the pointee.
pub trait OwnedUniquePtr<T>: Sized {
    /// The value the pointer currently owns.
    spec fn pointee(self) -> T;

    /// The address of the owned allocation.
    spec fn addr(self) -> int;

    /// Shared access to the pointee of a pinned pointer.
    fn borrow_pinned(this: &Pinned<Self>) -> (r: &T)
        ensures
            *r == this.ptr().pointee(),
    ;

    /// Overwrite the pointee of a pinned pointer in place; the owned
    /// allocation does not move.
    fn set_pinned(this: &mut Pinned<Self>, t: T)
        ensures
            final(this).ptr().addr() == old(this).ptr().addr(),
            final(this).ptr().pointee() == t,
    ;
}

/// Re-parameterization of a pointer kind: `Self` is a pointer kind over the
/// pointee type `T`, and [`Reparam::Ptr`] is the same pointer kind over the
/// pointee type `U`.
///
/// Generic code reaches the operation through [`transmute_pointee_pinned`],
/// whose bounds add the identity closure of the contract: the implementer
/// must also relate `T` to `T` itself, and the pointer type it names there
/// must be `Self` — not merely an isomorphic type — which the sealed
/// [`TypesEq`] witness checks at every such call site.
pub trait Reparam<T, U>: OwnedUniquePtr<T> {
    /// The same pointer kind as `Self`, over the pointee type `U`.
    type Ptr: OwnedUniquePtr<U>;

    /// Transmute the type behind this pointer while it is pinned.
    ///
    /// The capability bound on the pointee types is the whole precondition:
    /// the operation is total, consumes the input pinned pointer, and hands
    /// every right to the allocation to the returned pinned pointer. The
    /// allocation itself stays where it was, and its content is only
    /// reinterpreted, never changed: the new pointee is exactly the old one
    /// read as a value of `U`.
    fn transmute_pointee_pinned(this: Pinned<Self>) -> (r: Pinned<<Self as Reparam<T, U>>::Ptr>) where
        T: TransmuteInto<U>,

        ensures
            r.ptr().addr() == this.ptr().addr(),
            r.ptr().pointee() == this.ptr().pointee().transmuted(),
    ;
}

/// Transmute the type behind a pinned pointer of any owned-unique kind.
///
/// This is the entry point for generic callers. Beyond the capability bound
/// on the pointee types, its bounds state the identity closure the contract
/// demands of `P`: re-parameterizing the pointer kind over its own current
/// pointee type must give back exactly `P`, which only the sealed reflexive
/// [`TypesEq`] witness can attest.
pub fn transmute_pointee_pinned<T, U, P>(this: Pinned<P>) -> (r: Pinned<
    <P as Reparam<T, U>>::Ptr,
>) where
    T: TransmuteInto<U>,
    P: Reparam<T, U>,
    P: Reparam<T, T>,
    P: TypesEq<<P as Reparam<T, T>>::Ptr>,

    ensures
        r.ptr().addr() == this.ptr().addr(),
        r.ptr().pointee() == this.ptr().pointee().transmuted(),
{
    <P as Reparam<T, U>>::transmute_pointee_pinned(this)
}

/// The heap-owning pointer kind: a pinned-transmutation adapter around a
/// heap allocation that holds exactly one value of `T` and is owned by
/// exactly one `HeapPtr<T>` at a time.
///
/// The address of the allocation is part of the pointer's model, so that the
/// contracts can state that no operation — in particular not the pointee
/// transmutation — relocates the owned memory.
pub struct HeapPtr<T> {
    value: Box<T>,
    addr: Ghost<int>,
}

impl<T> HeapPtr<T> {
    /// Allocate a new heap cell holding `t` and take ownership of it.
    pub fn new(t: T) -> (r: HeapPtr<T>)
        ensures
            r.pointee() == t,
    {
        HeapPtr { value: Box::new(t), addr: Ghost(arbitrary()) }
    }

    /// Give up the allocation and take its value out.
    pub fn into_inner(self) -> (t: T)
        ensures
            t == self.pointee(),
    {
        *self.value
    }
}

impl<T> OwnedUniquePtr<T> for HeapPtr<T> {
    closed spec fn pointee(self) -> T {
        *self.value
    }

    closed spec fn addr(self) -> int {
        self.addr@
    }

    fn borrow_pinned(this: &Pinned<HeapPtr<T>>) -> (r: &T) {
        &*this.inner.value
    }

    fn set_pinned(this: &mut Pinned<HeapPtr<T>>, t: T) {
        this.inner.value = Box::new(t);
    }
}

impl<T, U> Reparam<T, U> for HeapPtr<T> {
    type Ptr = HeapPtr<U>;

    fn transmute_pointee_pinned(this: Pinned<HeapPtr<T>>) -> (r: Pinned<HeapPtr<U>>) where
        T: TransmuteInto<U>,
    {
        let hp = this.into_inner();
        let ghost a: int = hp.addr@;
        let u: U = (*hp.value).transmute();
        Pinned::new(HeapPtr { value: Box::new(u), addr: Ghost(a) })
    }
}

/// Identity closure, witnessed for the heap-owning kind: re-parameterizing
/// `HeapPtr<T>` over its own current pointee type gives back not merely an
/// isomorphic pointer type but `HeapPtr<T>` itself — the body hands the
/// pointer through unchanged, which only type-checks because the two types
/// are one.
pub fn heap_reparam_identity<T>(p: HeapPtr<T>) -> (r: <HeapPtr<T> as Reparam<T, T>>::Ptr)
    ensures
        r == p,
{
    p
}

/// Round-trip law for the heap-owning kind: transmuting a pinned pointer
/// from `T` to `U` and back again under mutually inverse capabilities yields
/// a pointer to the original address holding the original value.
///
/// `q` and `r` stand for the results of the two transmutations: the first
/// two requirements on each are exactly what
/// [`Reparam::transmute_pointee_pinned`] ensures of them, and the last
/// requirement says that the two capabilities undo one another.
pub proof fn lemma_transmute_round_trip<T, U>(
    p: Pinned<HeapPtr<T>>,
    q: Pinned<HeapPtr<U>>,
    r: Pinned<HeapPtr<T>>,
) where
    T: TransmuteInto<U>,
    U: TransmuteInto<T>,

    requires
        q.ptr().addr() == p.ptr().addr(),
        q.ptr().pointee() == p.ptr().pointee().transmuted(),
        r.ptr().addr() == q.ptr().addr(),
        r.ptr().pointee() == q.ptr().pointee().transmuted(),
        forall|t: T| (#[trigger] t.transmuted()).transmuted() == t,

    ensures
        r.ptr().addr() == p.ptr().addr(),
        r.ptr().pointee() == p.ptr().pointee(),
{
}

} // verus!
