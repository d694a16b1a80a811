use owned_ptr::ptr::{
    heap_reparam_identity, transmute_pointee_pinned, HeapPtr, OwnedUniquePtr, Pinned, Reparam,
};
use owned_ptr::transmute::{MarkA, MarkB, TransmuteInto};

#[test]
fn reparam_over_own_pointee_is_the_same_type() {
    // The annotation compiles only because re-parameterizing the heap-owning
    // kind over its own pointee type is HeapPtr<u32> itself.
    let p: <HeapPtr<u32> as Reparam<u32, u32>>::Ptr = HeapPtr::new(7u32);
    let q: HeapPtr<u32> = heap_reparam_identity(p);
    assert_eq!(q.into_inner(), 7u32);
}

#[test]
fn transmute_marker_yields_other_marker_at_same_kind() {
    let p = Pinned::new(HeapPtr::new(MarkA));
    let q = transmute_pointee_pinned::<MarkA, MarkB, HeapPtr<MarkA>>(p);
    let b: &MarkB = HeapPtr::borrow_pinned(&q);
    assert_eq!(*b, MarkB);
}

#[test]
fn transmute_through_trait_method() {
    let p = Pinned::new(HeapPtr::new(MarkB));
    let q = <HeapPtr<MarkB> as Reparam<MarkB, MarkA>>::transmute_pointee_pinned(p);
    assert_eq!(*HeapPtr::borrow_pinned(&q), MarkA);
}

#[test]
fn round_trip_restores_the_marker() {
    let p = Pinned::new(HeapPtr::new(MarkA));
    let q = transmute_pointee_pinned::<MarkA, MarkB, HeapPtr<MarkA>>(p);
    let r = transmute_pointee_pinned::<MarkB, MarkA, HeapPtr<MarkB>>(q);
    assert_eq!(*HeapPtr::borrow_pinned(&r), MarkA);
}

#[test]
fn round_trip_restores_the_value() {
    let p = Pinned::new(HeapPtr::new(41u32));
    let q = transmute_pointee_pinned::<u32, u32, HeapPtr<u32>>(p);
    let r = transmute_pointee_pinned::<u32, u32, HeapPtr<u32>>(q);
    assert_eq!(*HeapPtr::borrow_pinned(&r), 41u32);
}

#[test]
fn set_pinned_overwrites_the_pointee() {
    let mut p = Pinned::new(HeapPtr::new(1u8));
    HeapPtr::set_pinned(&mut p, 9u8);
    assert_eq!(*HeapPtr::borrow_pinned(&p), 9u8);
}

#[test]
fn borrow_pinned_sees_the_current_pointee() {
    let p = Pinned::new(HeapPtr::new(250u64));
    assert_eq!(*HeapPtr::borrow_pinned(&p), 250u64);
}

#[test]
fn pinned_borrow_then_unpin() {
    let p = Pinned::new(HeapPtr::new(2u16));
    let _view: &HeapPtr<u16> = p.borrow();
    assert_eq!(p.into_inner().into_inner(), 2u16);
}

#[test]
fn heap_ptr_owns_its_value() {
    let p = HeapPtr::new(5i64);
    assert_eq!(p.into_inner(), 5i64);
}

#[test]
fn capability_between_markers() {
    let b: MarkB = <MarkA as TransmuteInto<MarkB>>::transmute(MarkA);
    assert_eq!(b, MarkB);
    let a: MarkA = <MarkB as TransmuteInto<MarkA>>::transmute(b);
    assert_eq!(a, MarkA);
}

#[test]
fn reflexive_capability_returns_value_unchanged() {
    let v: u64 = <u64 as TransmuteInto<u64>>::transmute(123u64);
    assert_eq!(v, 123u64);
}
