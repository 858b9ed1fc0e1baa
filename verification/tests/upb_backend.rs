use pb_runtime::internal::{Private, RawMessage};
use pb_runtime::upb::{
    copy_bytes_in_arena_if_needed_by_runtime, Arena, MapHandle, MapInner, MapType, MessageInner,
    MessageValue, MutatorMessageRef, RepeatedField, RepeatedFieldInner, ScratchSpace,
    SerializedData, UpbCType, UPB_SCRATCH_SPACE_BYTES,
};

#[test]
fn test_arena_new_and_free() {
    let arena = Arena::new();
    drop(arena);
}

#[test]
fn upb_test_serialized_data_roundtrip() {
    let mut arena = Arena::new();
    let original_data = b"Hello world";
    let block = arena.alloc_bytes(original_data);

    let serialized_data = SerializedData::from_raw_parts(arena, block);
    assert_eq!(serialized_data.as_ptr(), b"Hello world".as_slice());
}

#[test]
fn i32_array() {
    let arena = Arena::new();
    let mut arr = RepeatedField::<i32>::new(&arena);
    assert_eq!(arr.len(), 0);
    arr.push(1);
    assert_eq!(arr.get(0), Some(1));
    assert_eq!(arr.len(), 1);
    arr.set(0, 3);
    assert_eq!(arr.get(0), Some(3));
    for i in 0..2048 {
        arr.push(i);
        assert_eq!(arr.get(arr.len() - 1), Some(i));
    }
}

#[test]
fn u32_array() {
    let arena = Arena::new();
    let mut arr = RepeatedField::<u32>::new(&arena);
    assert_eq!(arr.len(), 0);
    arr.push(1);
    assert_eq!(arr.get(0), Some(1));
    assert_eq!(arr.len(), 1);
    arr.set(0, 3);
    assert_eq!(arr.get(0), Some(3));
    for i in 0..2048 {
        arr.push(i);
        assert_eq!(arr.get(arr.len() - 1), Some(i));
    }
}

#[test]
fn i32_i32_map() {
    let arena = Arena::new();
    let mut map = MapHandle::<i32, i32>::new(&arena);
    assert_eq!(map.len(), 0);

    assert_eq!(map.insert(1, 2), true);
    assert_eq!(map.get(1), Some(2));
    assert_eq!(map.get(3), None);
    assert_eq!(map.len(), 1);

    assert_eq!(map.remove(1), Some(2));
    assert_eq!(map.len(), 0);
    assert_eq!(map.remove(1), None);

    assert_eq!(map.insert(4, 5), true);
    assert_eq!(map.insert(6, 7), true);
    map.clear();
    assert_eq!(map.len(), 0);
}

#[test]
fn upb_arena_alloc_distinct_regions() {
    let mut arena = Arena::new();
    let a = arena.allocate(4, 8);
    let b = arena.allocate(3, 1);
    assert_eq!(arena.block_len(a), 4);
    assert_eq!(arena.block_len(b), 3);
    for i in 0..4 {
        arena.set_byte(a, i, 10 + i as u8);
    }
    for i in 0..3 {
        arena.set_byte(b, i, 77);
    }
    for i in 0..4 {
        assert_eq!(arena.get_byte(a, i), 10 + i as u8);
    }
    for i in 0..3 {
        assert_eq!(arena.get_byte(b, i), 77);
    }
}

#[test]
fn upb_arena_resize_preserves_prefix() {
    let mut arena = Arena::new();
    let block = arena.allocate(4, 8);
    for i in 0..4 {
        arena.set_byte(block, i, i as u8 + 1);
    }
    arena.resize(block, 4, 8, 8);
    assert_eq!(arena.block_len(block), 8);
    for i in 0..4 {
        assert_eq!(arena.get_byte(block, i), i as u8 + 1);
    }
    arena.resize(block, 8, 2, 1);
    assert_eq!(arena.block_len(block), 2);
    for i in 0..2 {
        assert_eq!(arena.get_byte(block, i), i as u8 + 1);
    }
}

#[test]
fn upb_scratch_block_is_zeroed() {
    let b1 = ScratchSpace::zeroed_block(Private);
    assert_eq!(b1.len(), UPB_SCRATCH_SPACE_BYTES);
    assert!(b1.iter().all(|b| *b == 0));
    let b2 = ScratchSpace::zeroed_block(Private);
    assert_eq!(b1, b2);
}

#[test]
fn upb_mutator_message_ref_reaches_message() {
    let arena = Arena::new();
    let mut msg = MessageInner { msg: RawMessage { id: 3 }, arena };
    let m = MutatorMessageRef::new(Private, &mut msg);
    assert_eq!(m.msg(), RawMessage { id: 3 });
}

#[test]
fn upb_copy_bytes_materializes_into_arena() {
    let arena = Arena::new();
    let mut msg = MessageInner { msg: RawMessage { id: 7 }, arena };
    let block = copy_bytes_in_arena_if_needed_by_runtime(&mut msg, b"abc");
    assert_eq!(msg.msg, RawMessage { id: 7 });
    assert_eq!(msg.arena.block_len(block), 3);
    assert_eq!(msg.arena.get_byte(block, 0), b'a');
    assert_eq!(msg.arena.get_byte(block, 1), b'b');
    assert_eq!(msg.arena.get_byte(block, 2), b'c');
}

#[test]
fn upb_repeated_copy_from_replaces_contents() {
    let arena = Arena::new();
    let mut src = RepeatedField::<u64>::new(&arena);
    src.push(1);
    src.push(2);
    src.push(3);
    let mut dst = RepeatedField::<u64>::new(&arena);
    dst.push(42);
    dst.copy_from(&src);
    assert_eq!(dst.len(), src.len());
    for i in 0..src.len() {
        assert_eq!(dst.get(i), src.get(i));
    }
}

#[test]
fn upb_repeated_from_inner() {
    let arena = Arena::new();
    let inner = RepeatedFieldInner {
        raw: vec![MessageValue::Int32(7), MessageValue::Int32(8)],
        arena: &arena,
    };
    let arr: RepeatedField<i32> = RepeatedField::from_inner(Private, inner);
    assert!(!arr.is_empty());
    assert_eq!(arr.len(), 2);
    assert_eq!(arr.get(0), Some(7));
    assert_eq!(arr.get(1), Some(8));
}

#[test]
fn upb_map_from_inner() {
    let arena = Arena::new();
    let inner = MapInner {
        raw: vec![(MessageValue::Int32(1), MessageValue::Int32(10))],
        arena: &arena,
    };
    let map: MapHandle<i32, i32> = MapHandle::from_inner(Private, inner);
    assert!(!map.is_empty());
    assert_eq!(map.len(), 1);
    assert_eq!(map.get(1), Some(10));
}

#[test]
fn upb_map_other_scalar_types() {
    let arena = Arena::new();
    let mut m = MapHandle::<bool, u64>::new(&arena);
    assert!(m.is_empty());
    assert!(m.insert(true, 10));
    assert_eq!(m.get(true), Some(10));
    assert_eq!(m.get(false), None);

    let mut m2 = MapHandle::<u32, i64>::new(&arena);
    assert!(m2.insert(9, -5));
    assert_eq!(m2.remove(9), Some(-5));

    let mut m3 = MapHandle::<u64, bool>::new(&arena);
    assert!(m3.insert(1u64 << 40, true));
    assert_eq!(m3.get(1u64 << 40), Some(true));

    let mut m4 = MapHandle::<i64, u32>::new(&arena);
    assert!(m4.insert(-1, 4));
    assert_eq!(m4.get(-1), Some(4));
}

#[test]
fn upb_type_descriptors() {
    assert_eq!(<i32 as MapType>::upb_ctype(Private), UpbCType::Int32);
    assert_eq!(<u32 as MapType>::upb_ctype(Private), UpbCType::UInt32);
    assert_eq!(<i64 as MapType>::upb_ctype(Private), UpbCType::Int64);
    assert_eq!(<u64 as MapType>::upb_ctype(Private), UpbCType::UInt64);
    assert_eq!(<bool as MapType>::upb_ctype(Private), UpbCType::Bool);

    assert_eq!(<i32 as MapType>::zero_value(Private), 0);
    assert_eq!(<bool as MapType>::zero_value(Private), false);

    let mv = <u32 as MapType>::pack_message_value(Private, 77);
    assert_eq!(mv, MessageValue::UInt32(77));
    assert_eq!(<u32 as MapType>::unpack_message_value(Private, mv), 77);
}

#[test]
fn upb_arena_raw_is_the_arena_itself() {
    let mut arena = Arena::new();
    let block = arena.alloc_bytes(b"z");
    assert_eq!(arena.raw().block_len(block), 1);
}
