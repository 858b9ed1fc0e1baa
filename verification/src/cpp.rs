//! Engine-owned backend: the serialization engine allocates and frees all
//! message memory itself.
//!
//! The arena type on this side is a deliberate placeholder that exists only
//! to keep the two backends API-symmetric; repeated-field storage is modelled
//! by a typed container owned by the handle, and byte copy-in is an identity
//! pass-through because the engine manages its own string memory.

use core::marker::PhantomData;
use vstd::prelude::*;

use crate::internal::{Private, RawArena, RawMessage};

verus! {

/// Placeholder arena for the engine-owned backend.
///
/// Messages of this backend are allocated and freed by the engine, never
/// through this type, so every allocation entry point answers that it has
/// nothing to give.
#[derive(Debug)]
pub struct Arena {
    _not_engine_allocating: (),
}

impl Arena {
    /// Produces the placeholder.  No engine resource is acquired.
    pub fn new() -> Arena {
        Arena { _not_engine_allocating: () }
    }

    /// There is no separately reachable arena object on this backend: the
    /// engine keeps the real allocator inside its own message objects, so the
    /// request always comes back empty.
    pub fn raw(&self) -> (r: Option<RawArena>)
        ensures
            r is None,
    {
        None
    }

    /// Explicit allocation is a programming error on this backend; rather
    /// than hand out memory it does not own, the placeholder always refuses.
    pub fn allocate(&self, _size: usize, _align: usize) -> (r: Option<usize>)
        ensures
            r is None,
    {
        None
    }

    /// As with [`Arena::allocate`], resizing through the placeholder is refused:
    /// no allocation of this arena can exist to be resized.
    pub fn resize(
        &self,
        _block: usize,
        _old_size: usize,
        _new_size: usize,
    ) -> (r: Option<usize>)
        ensures
            r is None,
    {
        None
    }
}

/// Serialized wire-format output owned by this backend.
///
/// The bytes come from the process-global allocator and are released exactly
/// once, when the value is dropped; they are never mutated after
/// construction.
#[derive(Debug)]
pub struct SerializedData {
    data: Vec<u8>,
}

impl View for SerializedData {
    type V = Seq<u8>;

    closed spec fn view(&self) -> Seq<u8> {
        self.data@
    }
}

impl SerializedData {
    /// Takes ownership of serialized bytes produced by the engine.
    pub fn from_raw_parts(data: Vec<u8>) -> (r: Self)
        ensures
            r@ == data@,
    {
        SerializedData { data }
    }

    /// Immutable view of the serialized bytes.
    pub fn as_ptr(&self) -> (r: &[u8])
        ensures
            r@ == self@,
    {
        self.data.as_slice()
    }
}

/// The raw contents of every generated message on this backend.
#[derive(Debug)]
pub struct MessageInner {
    pub msg: RawMessage,
}

/// Capability token that field mutators use to reach their message.
///
/// The engine manages message memory itself, so the token only needs the
/// message handle; no arena reference is threaded through.
#[derive(Clone, Copy, Debug)]
pub struct MutatorMessageRef<'msg> {
    msg: RawMessage,
    _phantom: PhantomData<&'msg mut ()>,
}

impl<'msg> MutatorMessageRef<'msg> {
    /// The message handle this token is bound to.
    pub closed spec fn msg_spec(&self) -> RawMessage {
        self.msg
    }

    /// Builds the token from a message; mutable access to the message is
    /// demanded so that no two tokens over the same message are live at once.
    pub fn new(_private: Private, msg: &'msg mut MessageInner) -> (r: Self)
        ensures
            r.msg_spec() == old(msg).msg,
            *final(msg) == *old(msg),
    {
        MutatorMessageRef { msg: msg.msg, _phantom: PhantomData }
    }

    /// Builds the token directly from a raw message handle.
    pub fn new_raw(_private: Private, msg: RawMessage) -> (r: Self)
        ensures
            r.msg_spec() == msg,
    {
        MutatorMessageRef { msg, _phantom: PhantomData }
    }

    /// The raw handle of the message this token reaches.
    pub fn msg(&self) -> (r: RawMessage)
        ensures
            r == self.msg_spec(),
    {
        self.msg
    }
}

/// Copy-in hook for variable-length field values.
///
/// The engine already owns the string storage of its messages, so on this
/// backend the value passes through unchanged.
pub fn copy_bytes_in_arena_if_needed_by_runtime<'a>(
    _msg_ref: MutatorMessageRef<'a>,
    val: &'a [u8],
) -> (r: &'a [u8])
    ensures
        r@ == val@,
{
    val
}

/// Backend-side storage of one repeated scalar field: the engine's typed
/// repeated container, modelled as the sequence of element values it holds.
#[derive(Debug)]
pub struct RawRepeatedField<T> {
    pub vals: Vec<T>,
}

/// The operations the engine exposes per supported scalar element type.
///
/// Every fixed-width scalar of the supported set supplies the same surface;
/// the repeated-field handle is generic over it, which keeps one
/// implementation for the whole closed set of element types.
pub trait RepeatedScalarOps: Sized + Copy {
    /// A fresh, empty repeated container for this element type.
    fn new_repeated_field() -> (r: RawRepeatedField<Self>)
        ensures
            r.vals@ == Seq::<Self>::empty();

    /// Appends one element.
    fn push(f: &mut RawRepeatedField<Self>, v: Self)
        ensures
            final(f).vals@ == old(f).vals@.push(v);

    /// Number of elements held.
    fn len(f: &RawRepeatedField<Self>) -> (r: usize)
        ensures
            r == f.vals@.len();

    /// The element at `i`; the index must be in range.
    fn get(f: &RawRepeatedField<Self>, i: usize) -> (r: Self)
        requires
            i < f.vals@.len(),
        ensures
            r == f.vals@[i as int];

    /// Overwrites the element at `i`; the index must be in range.
    fn set(f: &mut RawRepeatedField<Self>, i: usize, v: Self)
        requires
            i < old(f).vals@.len(),
        ensures
            final(f).vals@ == old(f).vals@.update(i as int, v);

    /// Replaces `dst`'s whole contents with a copy of `src`'s.
    fn copy_from(src: &RawRepeatedField<Self>, dst: &mut RawRepeatedField<Self>)
        ensures
            final(dst).vals@ == src.vals@;
}

/// Copies a vector of scalar values element by element.
fn clone_scalar_vec<T: Copy>(v: &Vec<T>) -> (r: Vec<T>)
    ensures
        r@ == v@,
{
    let mut r: Vec<T> = Vec::new();
    let mut i: usize = 0;
    while i < v.len()
        invariant
            i <= v@.len(),
            r@ == v@.subrange(0, i as int),
        decreases v@.len() - i,
    {
        r.push(v[i]);
        proof {
            assert(v@.subrange(0, i as int).push(v@[i as int])
                =~= v@.subrange(0, i + 1 as int));
        }
        i += 1;
    }
    proof {
        assert(r@ =~= v@);
    }
    r
}

impl RepeatedScalarOps for i32 {
    fn new_repeated_field() -> (r: RawRepeatedField<i32>) {
        RawRepeatedField { vals: Vec::new() }
    }

    fn push(f: &mut RawRepeatedField<i32>, v: i32) {
        f.vals.push(v);
    }

    fn len(f: &RawRepeatedField<i32>) -> (r: usize) {
        f.vals.len()
    }

    fn get(f: &RawRepeatedField<i32>, i: usize) -> (r: i32) {
        f.vals[i]
    }

    fn set(f: &mut RawRepeatedField<i32>, i: usize, v: i32) {
        f.vals[i] = v;
    }

    fn copy_from(src: &RawRepeatedField<i32>, dst: &mut RawRepeatedField<i32>) {
        dst.vals = clone_scalar_vec(&src.vals);
    }
}

impl RepeatedScalarOps for u32 {
    fn new_repeated_field() -> (r: RawRepeatedField<u32>) {
        RawRepeatedField { vals: Vec::new() }
    }

    fn push(f: &mut RawRepeatedField<u32>, v: u32) {
        f.vals.push(v);
    }

    fn len(f: &RawRepeatedField<u32>) -> (r: usize) {
        f.vals.len()
    }

    fn get(f: &RawRepeatedField<u32>, i: usize) -> (r: u32) {
        f.vals[i]
    }

    fn set(f: &mut RawRepeatedField<u32>, i: usize, v: u32) {
        f.vals[i] = v;
    }

    fn copy_from(src: &RawRepeatedField<u32>, dst: &mut RawRepeatedField<u32>) {
        dst.vals = clone_scalar_vec(&src.vals);
    }
}

impl RepeatedScalarOps for i64 {
    fn new_repeated_field() -> (r: RawRepeatedField<i64>) {
        RawRepeatedField { vals: Vec::new() }
    }

    fn push(f: &mut RawRepeatedField<i64>, v: i64) {
        f.vals.push(v);
    }

    fn len(f: &RawRepeatedField<i64>) -> (r: usize) {
        f.vals.len()
    }

    fn get(f: &RawRepeatedField<i64>, i: usize) -> (r: i64) {
        f.vals[i]
    }

    fn set(f: &mut RawRepeatedField<i64>, i: usize, v: i64) {
        f.vals[i] = v;
    }

    fn copy_from(src: &RawRepeatedField<i64>, dst: &mut RawRepeatedField<i64>) {
        dst.vals = clone_scalar_vec(&src.vals);
    }
}

impl RepeatedScalarOps for u64 {
    fn new_repeated_field() -> (r: RawRepeatedField<u64>) {
        RawRepeatedField { vals: Vec::new() }
    }

    fn push(f: &mut RawRepeatedField<u64>, v: u64) {
        f.vals.push(v);
    }

    fn len(f: &RawRepeatedField<u64>) -> (r: usize) {
        f.vals.len()
    }

    fn get(f: &RawRepeatedField<u64>, i: usize) -> (r: u64) {
        f.vals[i]
    }

    fn set(f: &mut RawRepeatedField<u64>, i: usize, v: u64) {
        f.vals[i] = v;
    }

    fn copy_from(src: &RawRepeatedField<u64>, dst: &mut RawRepeatedField<u64>) {
        dst.vals = clone_scalar_vec(&src.vals);
    }
}

impl RepeatedScalarOps for bool {
    fn new_repeated_field() -> (r: RawRepeatedField<bool>) {
        RawRepeatedField { vals: Vec::new() }
    }

    fn push(f: &mut RawRepeatedField<bool>, v: bool) {
        f.vals.push(v);
    }

    fn len(f: &RawRepeatedField<bool>) -> (r: usize) {
        f.vals.len()
    }

    fn get(f: &RawRepeatedField<bool>, i: usize) -> (r: bool) {
        f.vals[i]
    }

    fn set(f: &mut RawRepeatedField<bool>, i: usize, v: bool) {
        f.vals[i] = v;
    }

    fn copy_from(src: &RawRepeatedField<bool>, dst: &mut RawRepeatedField<bool>) {
        dst.vals = clone_scalar_vec(&src.vals);
    }
}

/// Backend-specific constructor arguments of a repeated-field handle.
#[derive(Debug)]
pub struct RepeatedFieldInner<'msg, T> {
    pub raw: RawRepeatedField<T>,
    pub _phantom: PhantomData<&'msg ()>,
}

/// Typed handle over one repeated scalar field of one message.
///
/// The handle is the exclusive mutator of its field slot: it cannot be
/// copied while live, so no two mutators over the same slot can coexist.
#[derive(Debug)]
pub struct RepeatedField<'msg, T> {
    inner: RepeatedFieldInner<'msg, T>,
    _phantom: PhantomData<&'msg mut T>,
}

impl<'msg, T> View for RepeatedField<'msg, T> {
    type V = Seq<T>;

    closed spec fn view(&self) -> Seq<T> {
        self.inner.raw.vals@
    }
}

impl<'msg, T> RepeatedField<'msg, T> {
    /// Wraps backend constructor arguments into a handle.
    pub fn from_inner(_private: Private, inner: RepeatedFieldInner<'msg, T>) -> (r: Self)
        ensures
            r@ == inner.raw.vals@,
    {
        RepeatedField { inner, _phantom: PhantomData }
    }

    /// The backend container held by this handle.
    pub fn raw(&self) -> (r: &RawRepeatedField<T>)
        ensures
            r.vals@ == self@,
    {
        &self.inner.raw
    }

    /// The backend constructor arguments held by this handle.
    pub fn inner(&self) -> (r: &RepeatedFieldInner<'msg, T>)
        ensures
            r.raw.vals@ == self@,
    {
        &self.inner
    }
}

impl<'msg, T: RepeatedScalarOps> RepeatedField<'msg, T> {
    /// A fresh handle over a fresh, empty container.
    ///
    /// Ordinarily handles are retrieved from a containing message; a
    /// free-standing container serves callers that need one on its own.
    pub fn new() -> (r: Self)
        ensures
            r@ == Seq::<T>::empty(),
    {
        Self::from_inner(
            Private,
            RepeatedFieldInner::<'msg, T> { raw: T::new_repeated_field(), _phantom: PhantomData },
        )
    }

    /// Appends `val` at the end of the field.
    pub fn push(&mut self, val: T)
        ensures
            final(self)@ == old(self)@.push(val),
    {
        T::push(&mut self.inner.raw, val)
    }

    /// Current element count.
    pub fn len(&self) -> (r: usize)
        ensures
            r == self@.len(),
    {
        T::len(&self.inner.raw)
    }

    /// Whether the field holds no elements.
    pub fn is_empty(&self) -> (r: bool)
        ensures
            r == (self@.len() == 0),
    {
        self.len() == 0
    }

    /// The element at `index`, or nothing when the index is out of range;
    /// an out-of-range read is an expected silent no-result, not a fault.
    pub fn get(&self, index: usize) -> (r: Option<T>)
        ensures
            index < self@.len() ==> r == Some(self@[index as int]),
            index >= self@.len() ==> r is None,
    {
        if index >= self.len() {
            return None;
        }
        Some(T::get(&self.inner.raw, index))
    }

    /// Overwrites the element at `index` in place, silently doing nothing
    /// when the index is out of range, mirroring [`RepeatedField::get`].
    pub fn set(&mut self, index: usize, val: T)
        ensures
            index < old(self)@.len() ==> final(self)@ == old(self)@.update(index as int, val),
            index >= old(self)@.len() ==> final(self)@ == old(self)@,
    {
        if index >= self.len() {
            return;
        }
        T::set(&mut self.inner.raw, index, val)
    }

    /// Replaces this field's whole contents with a copy of `src`'s contents.
    pub fn copy_from(&mut self, src: &RepeatedField<'_, T>)
        ensures
            final(self)@ == src@,
    {
        T::copy_from(&src.inner.raw, &mut self.inner.raw)
    }
}

} // verus!
