//! Arena-first backend: all message memory is carved from an arena.
//!
//! The arena hands out blocks that stay valid until the arena itself is
//! dropped; growth of repeated fields and maps, and every byte sequence
//! assigned to a message field, consume arena memory.  The handle types over
//! repeated fields and scalar maps carry a borrow of the arena they are
//! bound to, so no handle can outlive its arena.

use vstd::prelude::*;

use crate::internal::{Private, RawMessage};

verus! {

/// Allocation alignment ceiling of this backend: a caller may not ask for an
/// alignment coarser than this.
pub const UPB_MALLOC_ALIGN: usize = 8;

/// Exclusive-owning allocator over a growing set of memory blocks.
///
/// Every block it hands out keeps its identity until the arena itself is
/// dropped; nothing is ever freed one allocation at a time.  Dropping the
/// arena releases all of its blocks in one bulk operation.
#[derive(Debug)]
pub struct Arena {
    blocks: Vec<Vec<u8>>,
}

impl View for Arena {
    type V = Seq<Seq<u8>>;

    closed spec fn view(&self) -> Seq<Seq<u8>> {
        self.blocks@.map_values(|b: Vec<u8>| b@)
    }
}

impl Arena {
    /// Allocates a fresh arena holding no blocks.
    pub fn new() -> (r: Self)
        ensures
            r@ == Seq::<Seq<u8>>::empty(),
    {
        let r = Arena { blocks: Vec::new() };
        proof {
            assert(r@ =~= Seq::<Seq<u8>>::empty());
        }
        r
    }

    /// The engine-level arena object itself; the verified model keeps the
    /// storage inside this value, so the value stands in for the raw handle.
    pub fn raw(&self) -> (r: &Arena)
        ensures
            r == self,
    {
        self
    }

    /// Carves a fresh block of exactly `size` bytes out of the arena and
    /// returns its handle.  The block's contents start out unspecified, as
    /// freshly allocated memory does; existing blocks are untouched.
    pub fn allocate(&mut self, size: usize, align: usize) -> (r: usize)
        requires
            1 <= align <= UPB_MALLOC_ALIGN,
        ensures
            r == old(self)@.len(),
            final(self)@.len() == old(self)@.len() + 1,
            final(self)@[r as int].len() == size,
            forall|j: int| 0 <= j < old(self)@.len() ==> final(self)@[j] == old(self)@[j],
    {
        let handle = self.blocks.len();
        let block = byte_block(size);
        self.blocks.push(block);
        proof {
            assert(forall|j: int|
                0 <= j < old(self)@.len() ==> final(self)@[j] == old(self)@[j]);
        }
        handle
    }

    /// Grows or shrinks the block `block`, which must currently be
    /// `old_size` bytes long.  The bytes in the overlapping prefix of the
    /// old and new sizes are preserved; bytes beyond it are unspecified, and
    /// all other blocks are untouched.
    pub fn resize(&mut self, block: usize, old_size: usize, new_size: usize, align: usize)
        requires
            block < old(self)@.len(),
            old_size == old(self)@[block as int].len(),
            1 <= align <= UPB_MALLOC_ALIGN,
        ensures
            final(self)@.len() == old(self)@.len(),
            final(self)@[block as int].len() == new_size,
            forall|i: int|
                0 <= i < old_size && i < new_size
                    ==> final(self)@[block as int][i] == old(self)@[block as int][i],
            forall|j: int|
                0 <= j < old(self)@.len() && j != block ==> final(self)@[j] == old(self)@[j],
    {
        let b: &mut Vec<u8> = &mut self.blocks[block];
        if new_size <= old_size {
            b.truncate(new_size);
        } else {
            let mut i: usize = old_size;
            while i < new_size
                invariant
                    old_size <= i <= new_size,
                    b@.len() == i,
                    b@.subrange(0, old_size as int) == old(self)@[block as int],
                decreases new_size - i,
            {
                proof {
                    assert(b@.push(0u8).subrange(0, old_size as int) =~= b@.subrange(
                        0,
                        old_size as int,
                    ));
                }
                b.push(0u8);
                i += 1;
            }
        }
    }

    /// The length in bytes of the block `block`.
    pub fn block_len(&self, block: usize) -> (r: usize)
        requires
            block < self@.len(),
        ensures
            r == self@[block as int].len(),
    {
        self.blocks[block].len()
    }

    /// Reads the byte at offset `i` of the block `block`.
    pub fn get_byte(&self, block: usize, i: usize) -> (r: u8)
        requires
            block < self@.len(),
            i < self@[block as int].len(),
        ensures
            r == self@[block as int][i as int],
    {
        self.blocks[block][i]
    }

    /// Writes the byte at offset `i` of the block `block`; no byte of any
    /// other block, and no other byte of this block, changes.
    pub fn set_byte(&mut self, block: usize, i: usize, v: u8)
        requires
            block < old(self)@.len(),
            i < old(self)@[block as int].len(),
        ensures
            final(self)@ == old(self)@.update(
                block as int,
                old(self)@[block as int].update(i as int, v),
            ),
    {
        self.blocks[block][i] = v;
        proof {
            assert(final(self)@ =~= old(self)@.update(
                block as int,
                old(self)@[block as int].update(i as int, v),
            ));
        }
    }

    /// Carves a fresh block holding a byte-for-byte copy of `bytes` and
    /// returns its handle; existing blocks are untouched.
    pub fn alloc_bytes(&mut self, bytes: &[u8]) -> (r: usize)
        ensures
            r == old(self)@.len(),
            final(self)@ == old(self)@.push(bytes@),
    {
        let handle = self.blocks.len();
        let block = copy_bytes_to_vec(bytes);
        self.blocks.push(block);
        proof {
            assert(final(self)@ =~= old(self)@.push(bytes@));
        }
        handle
    }
}

/// A fresh byte block of length `n`; the model fills it with zeroes, but no
/// caller may rely on the contents of fresh memory.
fn byte_block(n: usize) -> (r: Vec<u8>)
    ensures
        r@.len() == n,
{
    let mut r: Vec<u8> = Vec::new();
    let mut i: usize = 0;
    while i < n
        invariant
            i <= n,
            r@.len() == i,
        decreases n - i,
    {
        r.push(0u8);
        i += 1;
    }
    r
}

/// Copies a byte slice into a fresh vector.
fn copy_bytes_to_vec(bytes: &[u8]) -> (r: Vec<u8>)
    ensures
        r@ == bytes@,
{
    let mut r: Vec<u8> = Vec::new();
    let mut i: usize = 0;
    while i < bytes.len()
        invariant
            i <= bytes@.len(),
            r@ == bytes@.subrange(0, i as int),
        decreases bytes@.len() - i,
    {
        let b = bytes[i];
        proof {
            assert(bytes@.subrange(0, i as int).push(bytes@[i as int]) =~= bytes@.subrange(
                0,
                i + 1 as int,
            ));
        }
        r.push(b);
        i += 1;
    }
    proof {
        assert(r@ =~= bytes@);
    }
    r
}

/// Size in bytes of the shared scratch block.
pub const UPB_SCRATCH_SPACE_BYTES: usize = 64000;

/// Provider of the zero-filled block that stands for "no message present".
///
/// A contiguous block of zeroed memory is, under this backend's
/// representation, indistinguishable from a legitimately empty message, so
/// read access to an unset nested-message field can be answered from such a
/// block without any null check.  Every block produced here has the same
/// fixed size and all-zero contents, so all requesters observe the same
/// value; keeping one process-wide copy of it is left to the embedding
/// program, since the block is read-only forever after initialization.
pub struct ScratchSpace;

impl ScratchSpace {
    /// The canonical absent-message block: `UPB_SCRATCH_SPACE_BYTES` bytes,
    /// every one of them zero.
    pub fn zeroed_block(_private: Private) -> (r: Vec<u8>)
        ensures
            r@.len() == UPB_SCRATCH_SPACE_BYTES,
            forall|i: int| 0 <= i < r@.len() ==> r@[i] == 0u8,
    {
        let mut r: Vec<u8> = Vec::new();
        let mut i: usize = 0;
        while i < UPB_SCRATCH_SPACE_BYTES
            invariant
                i <= UPB_SCRATCH_SPACE_BYTES,
                r@.len() == i,
                forall|j: int| 0 <= j < r@.len() ==> r@[j] == 0u8,
            decreases UPB_SCRATCH_SPACE_BYTES - i,
        {
            r.push(0u8);
            i += 1;
        }
        r
    }
}

/// Serialized wire-format output of this backend.
///
/// The bytes live in a block of the arena that produced them; the value
/// keeps that arena alive for as long as it itself lives, and releases it
/// exactly once when dropped.
#[derive(Debug)]
pub struct SerializedData {
    arena: Arena,
    block: usize,
}

impl View for SerializedData {
    type V = Seq<u8>;

    closed spec fn view(&self) -> Seq<u8> {
        self.arena@[self.block as int]
    }
}

impl SerializedData {
    /// Whether the held block handle names a block of the held arena.
    pub closed spec fn wf(&self) -> bool {
        self.block < self.arena@.len()
    }

    /// Takes ownership of the arena together with the handle of the block,
    /// carved from that same arena, that holds the serialized bytes.
    pub fn from_raw_parts(arena: Arena, block: usize) -> (r: Self)
        requires
            block < arena@.len(),
        ensures
            r.wf(),
            r@ == arena@[block as int],
    {
        SerializedData { arena, block }
    }

    /// Immutable view of the serialized bytes.
    pub fn as_ptr(&self) -> (r: &[u8])
        requires
            self.wf(),
        ensures
            r@ == self@,
    {
        self.arena.blocks[self.block].as_slice()
    }
}

/// The raw contents of every generated message on this backend: the message
/// handle together with the arena its memory is carved from.
#[derive(Debug)]
pub struct MessageInner {
    pub msg: RawMessage,
    pub arena: Arena,
}

/// Capability token that field mutators use to reach their message.
///
/// This backend needs explicit allocation for by-value field mutation, so
/// the token records, besides the message handle, which arena the message's
/// memory comes from.  Mutable access to the message is demanded on
/// construction, so no two tokens over the same message are live at once.
#[derive(Clone, Copy, Debug)]
pub struct MutatorMessageRef<'msg> {
    msg: RawMessage,
    arena: &'msg Arena,
}

impl<'msg> MutatorMessageRef<'msg> {
    /// The message handle this token is bound to.
    pub closed spec fn msg_spec(&self) -> RawMessage {
        self.msg
    }

    /// The contents of the arena this token's message lives in.
    pub closed spec fn arena_spec(&self) -> Seq<Seq<u8>> {
        self.arena@
    }

    /// Builds the token from a message.
    pub fn new(_private: Private, msg: &'msg mut MessageInner) -> (r: Self)
        ensures
            r.msg_spec() == old(msg).msg,
            r.arena_spec() == old(msg).arena@,
            *final(msg) == *old(msg),
    {
        MutatorMessageRef { msg: msg.msg, arena: &msg.arena }
    }

    /// The raw handle of the message this token reaches.
    pub fn msg(&self) -> (r: RawMessage)
        ensures
            r == self.msg_spec(),
    {
        self.msg
    }
}

/// Copy-in hook for variable-length field values.
///
/// This backend keeps no per-field string bookkeeping, so every assigned
/// byte sequence is materialised into arena-owned memory at once: a fresh
/// block of exactly `val.len()` bytes is carved from the message's arena and
/// filled with a copy of `val`; the returned handle names that new block.
pub fn copy_bytes_in_arena_if_needed_by_runtime(msg: &mut MessageInner, val: &[u8]) -> (r: usize)
    ensures
        final(msg).msg == old(msg).msg,
        final(msg).arena@ == old(msg).arena@.push(val@),
        r == old(msg).arena@.len(),
{
    msg.arena.alloc_bytes(val)
}

/// The tagged union value representation the engine moves scalar values in.
///
/// Each supported key/value type packs itself into one variant and unpacks
/// itself back out; the variant set is the closed scalar subset this layer
/// supports.
#[derive(Clone, Copy, PartialEq, Eq, Structural, Debug)]
pub enum MessageValue {
    Bool(bool),
    Int32(i32),
    UInt32(u32),
    Int64(i64),
    UInt64(u64),
}

/// The engine's tag set for element, key and value types.
#[derive(Clone, Copy, PartialEq, Eq, Structural, Debug)]
pub enum UpbCType {
    Bool,
    Float,
    Int32,
    UInt32,
    Enum,
    Message,
    Double,
    Int64,
    UInt64,
    String,
    Bytes,
}

/// Primitive type descriptor: how one supported scalar type is packed into
/// and unpacked from the tagged union representation, which tag names it,
/// and what its designated zero value is.
///
/// One generic implementation of the repeated-field and map machinery is
/// parameterized over this descriptor; the closed set of concrete scalar
/// types supplies it.
pub trait MapType: Sized + Copy {
    /// The union variant carrying `self`.
    spec fn pack_spec(self) -> MessageValue;

    /// The value carried by `mv`, when `mv` carries this type's variant;
    /// this type's zero value otherwise.
    spec fn unpack_spec(mv: MessageValue) -> Self;

    /// Whether `mv` carries this type's variant.
    spec fn matches_spec(mv: MessageValue) -> bool;

    /// The tag naming this type.
    spec fn ctype_spec() -> UpbCType;

    /// The designated zero value of this type.
    spec fn zero_spec() -> Self;

    /// Packing is left-inverted by unpacking, and always yields this type's
    /// own variant.
    proof fn lemma_pack_unpack(self)
        ensures
            Self::unpack_spec(self.pack_spec()) == self,
            Self::matches_spec(self.pack_spec()),
    ;

    /// Unpacks a union value.
    fn unpack_message_value(_private: Private, outer: MessageValue) -> (r: Self)
        ensures
            r == Self::unpack_spec(outer),
    ;

    /// Packs a value into the union.
    fn pack_message_value(_private: Private, inner: Self) -> (r: MessageValue)
        ensures
            r == inner.pack_spec(),
    ;

    /// The tag naming this type.
    fn upb_ctype(_private: Private) -> (r: UpbCType)
        ensures
            r == Self::ctype_spec(),
    ;

    /// The designated zero value.
    fn zero_value(_private: Private) -> (r: Self)
        ensures
            r == Self::zero_spec(),
    ;
}

/// Types usable as map keys.
pub trait MapKeyType: MapType {

}

/// Types usable as map values.
pub trait MapValueType: MapType {

}

impl MapType for bool {
    open spec fn pack_spec(self) -> MessageValue {
        MessageValue::Bool(self)
    }

    open spec fn unpack_spec(mv: MessageValue) -> bool {
        match mv {
            MessageValue::Bool(v) => v,
            _ => false,
        }
    }

    open spec fn matches_spec(mv: MessageValue) -> bool {
        mv is Bool
    }

    open spec fn ctype_spec() -> UpbCType {
        UpbCType::Bool
    }

    open spec fn zero_spec() -> bool {
        false
    }

    proof fn lemma_pack_unpack(self) {
    }

    fn unpack_message_value(_private: Private, outer: MessageValue) -> (r: bool) {
        match outer {
            MessageValue::Bool(v) => v,
            _ => false,
        }
    }

    fn pack_message_value(_private: Private, inner: bool) -> (r: MessageValue) {
        MessageValue::Bool(inner)
    }

    fn upb_ctype(_private: Private) -> (r: UpbCType) {
        UpbCType::Bool
    }

    fn zero_value(_private: Private) -> (r: bool) {
        false
    }
}

impl MapType for i32 {
    open spec fn pack_spec(self) -> MessageValue {
        MessageValue::Int32(self)
    }

    open spec fn unpack_spec(mv: MessageValue) -> i32 {
        match mv {
            MessageValue::Int32(v) => v,
            _ => 0,
        }
    }

    open spec fn matches_spec(mv: MessageValue) -> bool {
        mv is Int32
    }

    open spec fn ctype_spec() -> UpbCType {
        UpbCType::Int32
    }

    open spec fn zero_spec() -> i32 {
        0
    }

    proof fn lemma_pack_unpack(self) {
    }

    fn unpack_message_value(_private: Private, outer: MessageValue) -> (r: i32) {
        match outer {
            MessageValue::Int32(v) => v,
            _ => 0,
        }
    }

    fn pack_message_value(_private: Private, inner: i32) -> (r: MessageValue) {
        MessageValue::Int32(inner)
    }

    fn upb_ctype(_private: Private) -> (r: UpbCType) {
        UpbCType::Int32
    }

    fn zero_value(_private: Private) -> (r: i32) {
        0
    }
}

impl MapType for u32 {
    open spec fn pack_spec(self) -> MessageValue {
        MessageValue::UInt32(self)
    }

    open spec fn unpack_spec(mv: MessageValue) -> u32 {
        match mv {
            MessageValue::UInt32(v) => v,
            _ => 0,
        }
    }

    open spec fn matches_spec(mv: MessageValue) -> bool {
        mv is UInt32
    }

    open spec fn ctype_spec() -> UpbCType {
        UpbCType::UInt32
    }

    open spec fn zero_spec() -> u32 {
        0
    }

    proof fn lemma_pack_unpack(self) {
    }

    fn unpack_message_value(_private: Private, outer: MessageValue) -> (r: u32) {
        match outer {
            MessageValue::UInt32(v) => v,
            _ => 0,
        }
    }

    fn pack_message_value(_private: Private, inner: u32) -> (r: MessageValue) {
        MessageValue::UInt32(inner)
    }

    fn upb_ctype(_private: Private) -> (r: UpbCType) {
        UpbCType::UInt32
    }

    fn zero_value(_private: Private) -> (r: u32) {
        0
    }
}

impl MapType for i64 {
    open spec fn pack_spec(self) -> MessageValue {
        MessageValue::Int64(self)
    }

    open spec fn unpack_spec(mv: MessageValue) -> i64 {
        match mv {
            MessageValue::Int64(v) => v,
            _ => 0,
        }
    }

    open spec fn matches_spec(mv: MessageValue) -> bool {
        mv is Int64
    }

    open spec fn ctype_spec() -> UpbCType {
        UpbCType::Int64
    }

    open spec fn zero_spec() -> i64 {
        0
    }

    proof fn lemma_pack_unpack(self) {
    }

    fn unpack_message_value(_private: Private, outer: MessageValue) -> (r: i64) {
        match outer {
            MessageValue::Int64(v) => v,
            _ => 0,
        }
    }

    fn pack_message_value(_private: Private, inner: i64) -> (r: MessageValue) {
        MessageValue::Int64(inner)
    }

    fn upb_ctype(_private: Private) -> (r: UpbCType) {
        UpbCType::Int64
    }

    fn zero_value(_private: Private) -> (r: i64) {
        0
    }
}

impl MapType for u64 {
    open spec fn pack_spec(self) -> MessageValue {
        MessageValue::UInt64(self)
    }

    open spec fn unpack_spec(mv: MessageValue) -> u64 {
        match mv {
            MessageValue::UInt64(v) => v,
            _ => 0,
        }
    }

    open spec fn matches_spec(mv: MessageValue) -> bool {
        mv is UInt64
    }

    open spec fn ctype_spec() -> UpbCType {
        UpbCType::UInt64
    }

    open spec fn zero_spec() -> u64 {
        0
    }

    proof fn lemma_pack_unpack(self) {
    }

    fn unpack_message_value(_private: Private, outer: MessageValue) -> (r: u64) {
        match outer {
            MessageValue::UInt64(v) => v,
            _ => 0,
        }
    }

    fn pack_message_value(_private: Private, inner: u64) -> (r: MessageValue) {
        MessageValue::UInt64(inner)
    }

    fn upb_ctype(_private: Private) -> (r: UpbCType) {
        UpbCType::UInt64
    }

    fn zero_value(_private: Private) -> (r: u64) {
        0
    }
}

impl MapKeyType for bool {

}

impl MapKeyType for i32 {

}

impl MapKeyType for u32 {

}

impl MapKeyType for i64 {

}

impl MapKeyType for u64 {

}

impl MapValueType for bool {

}

impl MapValueType for i32 {

}

impl MapValueType for u32 {

}

impl MapValueType for i64 {

}

impl MapValueType for u64 {

}

/// Whether every union value of `s` carries `T`'s variant.
pub open spec fn all_match<T: MapType>(s: Seq<MessageValue>) -> bool {
    forall|i: int| 0 <= i < s.len() ==> #[trigger] T::matches_spec(s[i])
}

/// The typed sequence read out of a sequence of union values.
pub open spec fn unpacked<T: MapType>(s: Seq<MessageValue>) -> Seq<T> {
    s.map_values(|mv: MessageValue| T::unpack_spec(mv))
}

/// Backend-specific constructor arguments of a repeated-field handle: the
/// engine's array object, modelled as the union values it holds, together
/// with the arena that growth operations draw from — most likely that of the
/// containing message.
#[derive(Debug)]
pub struct RepeatedFieldInner<'msg> {
    pub raw: Vec<MessageValue>,
    pub arena: &'msg Arena,
}

/// Typed handle over one repeated scalar field of one message.
///
/// The handle is the exclusive mutator of its field slot: it cannot be
/// copied while live, so no two mutators over the same slot can coexist, and
/// it cannot outlive the arena it is bound to.
#[derive(Debug)]
pub struct RepeatedField<'msg, T> {
    inner: RepeatedFieldInner<'msg>,
    _phantom: core::marker::PhantomData<&'msg mut T>,
}

impl<'msg, T: MapType> View for RepeatedField<'msg, T> {
    type V = Seq<T>;

    closed spec fn view(&self) -> Seq<T> {
        unpacked::<T>(self.inner.raw@)
    }
}

impl<'msg, T: MapType> RepeatedField<'msg, T> {
    /// Whether every stored union value carries `T`'s variant.
    pub closed spec fn wf(&self) -> bool {
        all_match::<T>(self.inner.raw@)
    }

    /// A fresh handle over a fresh, empty array object bound to `arena`.
    ///
    /// Ordinarily handles are retrieved from a containing message; a
    /// free-standing array object serves callers that need one on its own.
    pub fn new(arena: &'msg Arena) -> (r: Self)
        ensures
            r.wf(),
            r@ == Seq::<T>::empty(),
    {
        let r = RepeatedField {
            inner: RepeatedFieldInner { raw: Vec::new(), arena },
            _phantom: core::marker::PhantomData,
        };
        proof {
            assert(r@ =~= Seq::<T>::empty());
        }
        r
    }

    /// Wraps backend constructor arguments into a handle; every union value
    /// of the array object must already carry `T`'s variant.
    pub fn from_inner(_private: Private, inner: RepeatedFieldInner<'msg>) -> (r: Self)
        requires
            all_match::<T>(inner.raw@),
        ensures
            r.wf(),
            r@ == unpacked::<T>(inner.raw@),
    {
        RepeatedField { inner, _phantom: core::marker::PhantomData }
    }

    /// Current element count.
    pub fn len(&self) -> (r: usize)
        ensures
            r == self@.len(),
    {
        self.inner.raw.len()
    }

    /// Whether the field holds no elements.
    pub fn is_empty(&self) -> (r: bool)
        ensures
            r == (self@.len() == 0),
    {
        self.len() == 0
    }

    /// Appends `val` at the end of the field, consuming arena memory for
    /// growth as needed.
    pub fn push(&mut self, val: T)
        requires
            old(self).wf(),
        ensures
            final(self).wf(),
            final(self)@ == old(self)@.push(val),
    {
        let mv = T::pack_message_value(Private, val);
        self.inner.raw.push(mv);
        proof {
            val.lemma_pack_unpack();
            assert(final(self)@ =~= old(self)@.push(val));
        }
    }

    /// The element at `i`, or nothing when the index is out of range; an
    /// out-of-range read is an expected silent no-result, not a fault.
    pub fn get(&self, i: usize) -> (r: Option<T>)
        requires
            self.wf(),
        ensures
            i < self@.len() ==> r == Some(self@[i as int]),
            i >= self@.len() ==> r is None,
    {
        if i >= self.len() {
            None
        } else {
            Some(T::unpack_message_value(Private, self.inner.raw[i]))
        }
    }

    /// Overwrites the element at `i` in place, silently doing nothing when
    /// the index is out of range, mirroring [`RepeatedField::get`].
    pub fn set(&mut self, i: usize, val: T)
        requires
            old(self).wf(),
        ensures
            final(self).wf(),
            i < old(self)@.len() ==> final(self)@ == old(self)@.update(i as int, val),
            i >= old(self)@.len() ==> final(self)@ == old(self)@,
    {
        if i >= self.len() {
            return ;
        }
        let mv = T::pack_message_value(Private, val);
        self.inner.raw[i] = mv;
        proof {
            val.lemma_pack_unpack();
            assert(final(self)@ =~= old(self)@.update(i as int, val));
        }
    }

    /// Replaces this field's whole contents with a copy of `src`'s contents:
    /// the backing store is resized to `src`'s length, then the element
    /// storage is copied over wholesale.
    pub fn copy_from(&mut self, src: &RepeatedField<'_, T>)
        requires
            old(self).wf(),
            src.wf(),
        ensures
            final(self).wf(),
            final(self)@ == src@,
    {
        self.inner.raw.clear();
        let mut i: usize = 0;
        while i < src.inner.raw.len()
            invariant
                i <= src.inner.raw@.len(),
                self.inner.raw@ == src.inner.raw@.subrange(0, i as int),
            decreases src.inner.raw@.len() - i,
        {
            let mv = src.inner.raw[i];
            proof {
                assert(src.inner.raw@.subrange(0, i as int).push(src.inner.raw@[i as int])
                    =~= src.inner.raw@.subrange(0, i + 1 as int));
            }
            self.inner.raw.push(mv);
            i += 1;
        }
        proof {
            assert(self.inner.raw@ =~= src.inner.raw@);
            assert(final(self)@ =~= src@);
        }
    }
}

/// Backend-specific constructor arguments of a map handle: the engine's map
/// object, modelled as the key/value pairs it holds, together with the arena
/// that growth operations draw from.
#[derive(Debug)]
pub struct MapInner<'msg> {
    pub raw: Vec<(MessageValue, MessageValue)>,
    pub arena: &'msg Arena,
}

/// Typed handle over one scalar map field of one message.
///
/// The handle is the exclusive mutator of its field slot: it cannot be
/// copied while live, so no two mutators over the same slot can coexist, and
/// it cannot outlive the arena it is bound to.
#[derive(Debug)]
pub struct MapHandle<'msg, K, V> {
    inner: MapInner<'msg>,
    _phantom_key: core::marker::PhantomData<&'msg mut K>,
    _phantom_value: core::marker::PhantomData<&'msg mut V>,
}

impl<'msg, K, V> View for MapHandle<'msg, K, V> {
    type V = Map<MessageValue, MessageValue>;

    closed spec fn view(&self) -> Map<MessageValue, MessageValue> {
        crate::assoc::as_map(self.inner.raw@)
    }
}

/// Finds the entry carrying the key `k`, if any.
fn find_entry(raw: &Vec<(MessageValue, MessageValue)>, k: MessageValue) -> (r: Option<usize>)
    ensures
        match r {
            Some(i) => i < raw@.len() && raw@[i as int].0 == k,
            None => !crate::assoc::assoc_has_key(raw@, k),
        },
{
    let mut i: usize = 0;
    while i < raw.len()
        invariant
            i <= raw@.len(),
            forall|x: int| 0 <= x < i ==> (#[trigger] raw@[x]).0 != k,
        decreases raw@.len() - i,
    {
        if raw[i].0 == k {
            return Some(i);
        }
        i += 1;
    }
    None
}

impl<'msg, K: MapKeyType, V: MapValueType> MapHandle<'msg, K, V> {
    /// Whether the stored pairs carry pairwise distinct keys, so that the
    /// handle holds exactly one entry per bound key.
    pub closed spec fn wf(&self) -> bool {
        crate::assoc::uniq_keys(self.inner.raw@)
    }

    /// A fresh handle over a fresh, empty map object bound to `arena`.
    pub fn new(arena: &'msg Arena) -> (r: Self)
        ensures
            r.wf(),
            r@ == Map::<MessageValue, MessageValue>::empty(),
    {
        MapHandle {
            inner: MapInner { raw: Vec::new(), arena },
            _phantom_key: core::marker::PhantomData,
            _phantom_value: core::marker::PhantomData,
        }
    }

    /// Wraps backend constructor arguments into a handle; the map object
    /// must hold one entry per key.
    pub fn from_inner(_private: Private, inner: MapInner<'msg>) -> (r: Self)
        requires
            crate::assoc::uniq_keys(inner.raw@),
        ensures
            r.wf(),
            r@ == crate::assoc::as_map(inner.raw@),
    {
        MapHandle {
            inner,
            _phantom_key: core::marker::PhantomData,
            _phantom_value: core::marker::PhantomData,
        }
    }

    /// Number of entries held.
    pub fn len(&self) -> (r: usize)
        requires
            self.wf(),
        ensures
            r == self@.dom().len(),
    {
        proof {
            crate::assoc::lemma_as_map_len(self.inner.raw@);
        }
        self.inner.raw.len()
    }

    /// Whether the map holds no entries.
    pub fn is_empty(&self) -> (r: bool)
        requires
            self.wf(),
        ensures
            r == (self@.dom().len() == 0),
    {
        self.len() == 0
    }

    /// Drops every entry at once.
    pub fn clear(&mut self)
        ensures
            final(self).wf(),
            final(self)@ == Map::<MessageValue, MessageValue>::empty(),
    {
        self.inner.raw.clear();
    }

    /// The value bound to `key`, or nothing when `key` is absent; the
    /// lookup never allocates.
    pub fn get(&self, key: K) -> (r: Option<V>)
        requires
            self.wf(),
        ensures
            self@.contains_key(key.pack_spec()) ==> r == Some(
                V::unpack_spec(self@[key.pack_spec()]),
            ),
            !self@.contains_key(key.pack_spec()) ==> r is None,
    {
        let kv = K::pack_message_value(Private, key);
        match find_entry(&self.inner.raw, kv) {
            Some(i) => {
                proof {
                    crate::assoc::lemma_as_map_index(self.inner.raw@, i as int);
                }
                Some(V::unpack_message_value(Private, self.inner.raw[i].1))
            },
            None => {
                proof {
                    crate::assoc::lemma_as_map_contains(self.inner.raw@, key.pack_spec());
                }
                None
            },
        }
    }

    /// Binds `key` to `value`, overwriting any prior binding, and reports
    /// success; growth of the map object consumes arena memory.
    pub fn insert(&mut self, key: K, value: V) -> (r: bool)
        requires
            old(self).wf(),
        ensures
            final(self).wf(),
            final(self)@ == old(self)@.insert(key.pack_spec(), value.pack_spec()),
            r == true,
    {
        let kv = K::pack_message_value(Private, key);
        let vv = V::pack_message_value(Private, value);
        match find_entry(&self.inner.raw, kv) {
            Some(i) => {
                self.inner.raw[i] = (kv, vv);
                proof {
                    crate::assoc::lemma_as_map_update(
                        old(self).inner.raw@,
                        i as int,
                        value.pack_spec(),
                    );
                }
                true
            },
            None => {
                self.inner.raw.push((kv, vv));
                proof {
                    crate::assoc::lemma_uniq_push(
                        old(self).inner.raw@,
                        key.pack_spec(),
                        value.pack_spec(),
                    );
                    crate::assoc::lemma_as_map_push(
                        old(self).inner.raw@,
                        key.pack_spec(),
                        value.pack_spec(),
                    );
                }
                true
            },
        }
    }

    /// Unbinds `key` and hands back the value it was bound to, or nothing
    /// when `key` is absent; a second removal of the same key finds nothing.
    /// The removal never allocates.
    pub fn remove(&mut self, key: K) -> (r: Option<V>)
        requires
            old(self).wf(),
        ensures
            final(self).wf(),
            final(self)@ == old(self)@.remove(key.pack_spec()),
            old(self)@.contains_key(key.pack_spec()) ==> r == Some(
                V::unpack_spec(old(self)@[key.pack_spec()]),
            ),
            !old(self)@.contains_key(key.pack_spec()) ==> r is None,
    {
        let kv = K::pack_message_value(Private, key);
        match find_entry(&self.inner.raw, kv) {
            Some(i) => {
                proof {
                    crate::assoc::lemma_as_map_index(self.inner.raw@, i as int);
                    crate::assoc::lemma_uniq_remove(self.inner.raw@, i as int);
                    crate::assoc::lemma_as_map_remove(self.inner.raw@, i as int);
                }
                let pair = self.inner.raw.remove(i);
                Some(V::unpack_message_value(Private, pair.1))
            },
            None => {
                proof {
                    crate::assoc::lemma_as_map_contains(self.inner.raw@, key.pack_spec());
                    assert(old(self)@.remove(key.pack_spec()) =~= old(self)@);
                }
                None
            },
        }
    }
}

/// The bindings a scalar map hands back, stated over its map view: binding a
/// key makes exactly that typed value visible under it; unbinding a key
/// leaves it absent, so that a repeated removal finds nothing.
pub proof fn lemma_map_bindings<K: MapKeyType, V: MapValueType>(
    m: Map<MessageValue, MessageValue>,
    k: K,
    v: V,
)
    ensures
        m.insert(k.pack_spec(), v.pack_spec()).contains_key(k.pack_spec()),
        V::unpack_spec(m.insert(k.pack_spec(), v.pack_spec())[k.pack_spec()]) == v,
        !m.remove(k.pack_spec()).contains_key(k.pack_spec()),
        m.remove(k.pack_spec()).remove(k.pack_spec()) == m.remove(k.pack_spec()),
{
    v.lemma_pack_unpack();
    assert(m.remove(k.pack_spec()).remove(k.pack_spec()) =~= m.remove(k.pack_spec()));
}

} // verus!
