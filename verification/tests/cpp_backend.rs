use std::marker::PhantomData;

use pb_runtime::cpp::{
    copy_bytes_in_arena_if_needed_by_runtime, Arena, MessageInner, MutatorMessageRef,
    RawRepeatedField, RepeatedField, RepeatedFieldInner, RepeatedScalarOps, SerializedData,
};
use pb_runtime::internal::{Private, RawMessage};

#[test]
fn cpp_test_serialized_data_roundtrip() {
    let serialized_data = SerializedData::from_raw_parts(b"Hello world".to_vec());
    assert_eq!(serialized_data.as_ptr(), b"Hello world".as_slice());
}

#[test]
fn repeated_field() {
    let mut r = RepeatedField::<i32>::new();
    assert_eq!(r.len(), 0);
    r.push(32);
    assert_eq!(r.get(0), Some(32));

    let mut r = RepeatedField::<u32>::new();
    assert_eq!(r.len(), 0);
    r.push(32);
    assert_eq!(r.get(0), Some(32));

    let mut r = RepeatedField::<bool>::new();
    assert_eq!(r.len(), 0);
    r.push(true);
    assert_eq!(r.get(0), Some(true));
}

#[test]
fn cpp_arena_is_a_placeholder() {
    let arena = Arena::new();
    assert!(arena.raw().is_none());
    assert!(arena.allocate(16, 8).is_none());
    assert!(arena.resize(0, 16, 32).is_none());
}

#[test]
fn cpp_mutator_message_ref_reaches_message() {
    let mut msg = MessageInner { msg: RawMessage { id: 3 } };
    let m = MutatorMessageRef::new(Private, &mut msg);
    assert_eq!(m.msg(), RawMessage { id: 3 });

    let m2 = MutatorMessageRef::new_raw(Private, RawMessage { id: 9 });
    assert_eq!(m2.msg(), RawMessage { id: 9 });
}

#[test]
fn cpp_copy_bytes_is_a_passthrough() {
    let mut msg = MessageInner { msg: RawMessage { id: 1 } };
    let m = MutatorMessageRef::new(Private, &mut msg);
    let out = copy_bytes_in_arena_if_needed_by_runtime(m, b"payload");
    assert_eq!(out, b"payload".as_slice());
}

#[test]
fn cpp_repeated_set_in_and_out_of_range() {
    let mut r = RepeatedField::<i64>::new();
    r.push(5);
    r.push(6);
    r.set(1, 60);
    assert_eq!(r.get(1), Some(60));
    r.set(2, 999);
    assert_eq!(r.len(), 2);
    assert_eq!(r.get(2), None);
}

#[test]
fn cpp_repeated_copy_from_replaces_contents() {
    let mut src = RepeatedField::<u64>::new();
    src.push(1);
    src.push(2);
    src.push(3);
    let mut dst = RepeatedField::<u64>::new();
    dst.push(42);
    dst.copy_from(&src);
    assert_eq!(dst.len(), src.len());
    for i in 0..src.len() {
        assert_eq!(dst.get(i), src.get(i));
    }
}

#[test]
fn cpp_repeated_from_inner_and_accessors() {
    let inner = RepeatedFieldInner {
        raw: RawRepeatedField { vals: vec![5i32, 6] },
        _phantom: PhantomData,
    };
    let r = RepeatedField::from_inner(Private, inner);
    assert!(!r.is_empty());
    assert_eq!(r.len(), 2);
    assert_eq!(r.get(1), Some(6));
    assert_eq!(r.raw().vals, vec![5, 6]);
    assert_eq!(r.inner().raw.vals, vec![5, 6]);
}

#[test]
fn cpp_repeated_scalar_ops_surface() {
    let mut f = <u32 as RepeatedScalarOps>::new_repeated_field();
    assert_eq!(<u32 as RepeatedScalarOps>::len(&f), 0);
    <u32 as RepeatedScalarOps>::push(&mut f, 7);
    <u32 as RepeatedScalarOps>::push(&mut f, 8);
    assert_eq!(<u32 as RepeatedScalarOps>::get(&f, 1), 8);
    <u32 as RepeatedScalarOps>::set(&mut f, 0, 70);
    assert_eq!(<u32 as RepeatedScalarOps>::get(&f, 0), 70);
    let mut g = <u32 as RepeatedScalarOps>::new_repeated_field();
    <u32 as RepeatedScalarOps>::copy_from(&f, &mut g);
    assert_eq!(g.vals, vec![70, 8]);
}
