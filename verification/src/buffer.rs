//! Typed buffer objects with compile-time target tagging, scoped
//! write-mapped views over their stores, and vertex array objects.
//!
//! A [`Buffer`] owns one buffer handle and is tagged at the type level with
//! the target it binds to, so a buffer created for vertex data can never be
//! bound to the index target or the other way round. Its device-side store
//! is modeled element by element, with `None` standing for bytes never
//! written: an upload replaces the whole store, an allocation without data
//! leaves every element unwritten, and a write-mapped view stages writes
//! that reach the store when the view is handed back. A buffer can carry at
//! most one view at a time: asking for a second while one is out fails
//! deterministically with `None`.

use crate::device::{Bindings, BufferTarget, Device};
use core::marker::PhantomData;
use vstd::prelude::*;

verus! {

/// Compile-time tag selecting the device target a buffer binds to.
pub trait BufferType {
    /// The target this tag stands for.
    spec fn spec_target() -> BufferTarget;

    /// The target value; agrees with the spec-level tag.
    fn target() -> (t: BufferTarget)
        ensures
            t == Self::spec_target(),
    ;
}

/// Tag for buffers holding vertex attribute data.
pub struct BufferTypeArray;

impl BufferType for BufferTypeArray {
    open spec fn spec_target() -> BufferTarget {
        BufferTarget::Array
    }

    fn target() -> (t: BufferTarget) {
        BufferTarget::Array
    }
}

/// Tag for buffers holding index data.
pub struct BufferTypeElementArray;

impl BufferType for BufferTypeElementArray {
    open spec fn spec_target() -> BufferTarget {
        BufferTarget::ElementArray
    }

    fn target() -> (t: BufferTarget) {
        BufferTarget::ElementArray
    }
}

/// The usage hint handed to the device with a store allocation. It steers
/// performance only, never contents.
pub enum UsageHint {
    StaticDraw,
    DynamicDraw,
}

/// A buffer's store after uploading `data`: every element written.
pub open spec fn uploaded_store<T>(data: Seq<T>) -> Seq<Option<T>> {
    data.map_values(|t: T| Some(t))
}

/// A buffer object owning one buffer handle, tagged with its bind target
/// `B` and holding elements of type `T`. The store models the device-side
/// memory: `Some` for written elements, `None` for never-written ones.
pub struct Buffer<B: BufferType, T> {
    /// The buffer handle, as the device returned it.
    pub vbo: u32,
    /// The modeled device-side store.
    pub store: Vec<Option<T>>,
    /// Whether a mapped view over this buffer is currently out.
    pub mapped: bool,
    /// Start of the mapped range while a view is out.
    pub mapped_off: Ghost<usize>,
    /// Element count of the mapped range while a view is out.
    pub mapped_count: Ghost<usize>,
    /// The usage hint of the last allocation, if any.
    pub usage: Ghost<Option<UsageHint>>,
    /// Carries the target tag.
    pub marker: PhantomData<B>,
}

impl<B: BufferType, T: Copy> Buffer<B, T> {
    /// While a view is out, the mapped range lies within the store.
    pub open spec fn wf(self) -> bool {
        self.mapped ==> self.mapped_off@ + self.mapped_count@ <= self.store@.len()
    }

    /// Generate one buffer object. Its store is empty until the first
    /// upload or allocation.
    pub fn new(dev: &mut Device) -> (b: Buffer<B, T>)
        requires
            old(dev).wf(),
            old(dev).can_alloc(1),
        ensures
            final(dev).wf(),
            final(dev).lives_extended_by(*old(dev), b.vbo),
            final(dev).spec_bindings() == old(dev).spec_bindings(),
            forall|p: u32| final(dev).spec_attached(p) == old(dev).spec_attached(p),
            final(dev).can_alloc_shifted(*old(dev)),
            b.wf(),
            !b.mapped,
            b.store@.len() == 0,
            b.usage@ is None,
    {
        let vbo = dev.gen_handle();
        Buffer {
            vbo,
            store: Vec::new(),
            mapped: false,
            mapped_off: Ghost(0),
            mapped_count: Ghost(0),
            usage: Ghost(None),
            marker: PhantomData,
        }
    }

    /// Bind this buffer to its target, making it the one the device's
    /// store and mapping operations act on.
    pub fn bind(&self, dev: &mut Device)
        requires
            old(dev).wf(),
            old(dev).live(self.vbo),
        ensures
            final(dev).wf(),
            final(dev).bound_buffer(B::spec_target()) == self.vbo,
            final(dev).spec_bindings() == match B::spec_target() {
                BufferTarget::Array => Bindings {
                    array_buffer: self.vbo,
                    ..old(dev).spec_bindings()
                },
                BufferTarget::ElementArray => Bindings {
                    element_array_buffer: self.vbo,
                    ..old(dev).spec_bindings()
                },
            },
            final(dev).non_binding_state_eq(*old(dev)),
    {
        dev.bind_buffer(B::target(), self.vbo);
    }

    /// Clear this target's binding.
    pub fn unbind(&self, dev: &mut Device)
        requires
            old(dev).wf(),
        ensures
            final(dev).wf(),
            final(dev).bound_buffer(B::spec_target()) == 0,
            final(dev).spec_bindings() == match B::spec_target() {
                BufferTarget::Array => Bindings { array_buffer: 0, ..old(dev).spec_bindings() },
                BufferTarget::ElementArray => Bindings {
                    element_array_buffer: 0,
                    ..old(dev).spec_bindings()
                },
            },
            final(dev).non_binding_state_eq(*old(dev)),
    {
        dev.bind_buffer(B::target(), 0);
    }

    /// Replace the whole store with `data`, hinted as rarely updated.
    /// The buffer must be bound to its target.
    pub fn static_draw_data(&mut self, dev: &Device, data: &[T])
        requires
            old(self).wf(),
            !old(self).mapped,
            dev.bound_buffer(B::spec_target()) == old(self).vbo,
        ensures
            final(self).wf(),
            final(self).vbo == old(self).vbo,
            !final(self).mapped,
            final(self).store@ == uploaded_store(data@),
            final(self).usage@ == Some(UsageHint::StaticDraw),
    {
        self.store = copy_in(data);
        self.usage = Ghost(Some(UsageHint::StaticDraw));
    }

    /// Replace the whole store with `data`, hinted as frequently updated.
    /// The buffer must be bound to its target.
    pub fn dynamic_draw_data(&mut self, dev: &Device, data: &[T])
        requires
            old(self).wf(),
            !old(self).mapped,
            dev.bound_buffer(B::spec_target()) == old(self).vbo,
        ensures
            final(self).wf(),
            final(self).vbo == old(self).vbo,
            !final(self).mapped,
            final(self).store@ == uploaded_store(data@),
            final(self).usage@ == Some(UsageHint::DynamicDraw),
    {
        self.store = copy_in(data);
        self.usage = Ghost(Some(UsageHint::DynamicDraw));
    }

    /// Reserve storage for `size` elements without writing them: every
    /// element of the new store is unwritten, its contents unspecified
    /// until something writes them. The buffer must be bound to its target.
    pub fn dynamic_draw_data_null(&mut self, dev: &Device, size: usize)
        requires
            old(self).wf(),
            !old(self).mapped,
            dev.bound_buffer(B::spec_target()) == old(self).vbo,
        ensures
            final(self).wf(),
            final(self).vbo == old(self).vbo,
            !final(self).mapped,
            final(self).store@.len() == size,
            forall|j: int| 0 <= j < size ==> final(self).store@[j] is None,
            final(self).usage@ == Some(UsageHint::DynamicDraw),
    {
        let mut v: Vec<Option<T>> = Vec::new();
        let mut i: usize = 0;
        while i < size
            invariant
                0 <= i <= size,
                v@.len() == i,
                forall|j: int| 0 <= j < i ==> v@[j] is None,
            decreases size - i,
        {
            v.push(None);
            i += 1;
        }
        self.store = v;
        self.usage = Ghost(Some(UsageHint::DynamicDraw));
    }

    /// Ask for an exclusive write-only view over `[offset, offset + size)`,
    /// telling the device the range's prior contents may be discarded.
    /// Whether the device grants the mapping arrives as `accept`. The call
    /// yields a view exactly when the device accepted and no view is
    /// already out; a second request while one is out fails with `None`,
    /// as does a refusal by the device, and the caller must not assume a
    /// refusal is retryable. The buffer must be bound to its target.
    pub fn map_buffer_range_write_invalidate(
        &mut self,
        dev: &Device,
        offset: usize,
        size: usize,
        accept: bool,
    ) -> (r: Option<MappedBuffer<B, T>>)
        requires
            old(self).wf(),
            dev.bound_buffer(B::spec_target()) == old(self).vbo,
            offset + size <= old(self).store@.len(),
        ensures
            final(self).wf(),
            final(self).vbo == old(self).vbo,
            final(self).store@ == old(self).store@,
            final(self).usage@ == old(self).usage@,
            (r is Some) <==> (accept && !old(self).mapped),
            r matches Some(m) ==> {
                &&& final(self).mapped
                &&& final(self).mapped_off@ == offset
                &&& final(self).mapped_count@ == size
                &&& m.spec_parent() == old(self).vbo
                &&& m.spec_offset() == offset
                &&& m.spec_staged().len() == size
                &&& forall|j: int| 0 <= j < size ==> m.spec_staged()[j] is None
            },
            r is None ==> *final(self) == *old(self),
    {
        if !accept || self.mapped {
            return None;
        }
        self.mapped = true;
        self.mapped_off = Ghost(offset);
        self.mapped_count = Ghost(size);
        let mut staged: Vec<Option<T>> = Vec::new();
        let mut i: usize = 0;
        while i < size
            invariant
                0 <= i <= size,
                staged@.len() == i,
                forall|j: int| 0 <= j < i ==> staged@[j] is None,
            decreases size - i,
        {
            staged.push(None);
            i += 1;
        }
        Some(MappedBuffer { staged, offset, parent: Ghost(self.vbo), marker: PhantomData })
    }

    /// Hand a view back, releasing the mapping. The staged writes replace
    /// the mapped range: elements the caller wrote arrive in the store,
    /// elements never written stay discarded, as the mapping's invalidate
    /// semantics allow. Exactly one release of the mapping happens per
    /// view, since the view is consumed here. The buffer must still be
    /// bound to its target, as on creation of the view.
    pub fn unmap(&mut self, dev: &Device, view: MappedBuffer<B, T>)
        requires
            old(self).wf(),
            old(self).mapped,
            dev.bound_buffer(B::spec_target()) == old(self).vbo,
            view.spec_parent() == old(self).vbo,
            view.spec_offset() == old(self).mapped_off@,
            view.spec_staged().len() == old(self).mapped_count@,
        ensures
            final(self).wf(),
            final(self).vbo == old(self).vbo,
            !final(self).mapped,
            final(self).usage@ == old(self).usage@,
            final(self).store@.len() == old(self).store@.len(),
            forall|j: int|
                0 <= j < old(self).mapped_off@ ==> final(self).store@[j] == old(self).store@[j],
            forall|j: int|
                old(self).mapped_off@ <= j < old(self).mapped_off@ + old(self).mapped_count@
                    ==> final(self).store@[j] == view.spec_staged()[j - old(self).mapped_off@],
            forall|j: int|
                old(self).mapped_off@ + old(self).mapped_count@ <= j < old(self).store@.len()
                    ==> final(self).store@[j] == old(self).store@[j],
    {
        let MappedBuffer { staged, offset, parent: _, marker: _ } = view;
        let n = staged.len();
        let cap = self.store.len();
        let mut i: usize = 0;
        while i < n
            invariant
                0 <= i <= n,
                n == staged@.len(),
                cap == self.store@.len(),
                self.wf(),
                self.mapped,
                self.vbo == old(self).vbo,
                self.usage@ == old(self).usage@,
                self.mapped_off@ == offset,
                self.mapped_count@ == n,
                offset + n <= self.store@.len(),
                self.store@.len() == old(self).store@.len(),
                forall|j: int| 0 <= j < offset ==> self.store@[j] == old(self).store@[j],
                forall|j: int| offset <= j < offset + i ==> self.store@[j] == staged@[j - offset],
                forall|j: int|
                    offset + i <= j < self.store@.len() ==> self.store@[j] == old(self).store@[j],
            decreases n - i,
        {
            self.store.set(offset + i, staged[i]);
            i += 1;
        }
        self.mapped = false;
    }

    /// The element count of the modeled store.
    pub fn len(&self) -> (n: usize)
        ensures
            n == self.store@.len(),
    {
        self.store.len()
    }

    /// Read one element back from the modeled store: `Some` with the value
    /// last written there, or `None` for an element never written. Not
    /// available while a view is out, as the device forbids touching a
    /// mapped store.
    pub fn read(&self, i: usize) -> (r: Option<T>)
        requires
            !self.mapped,
            i < self.store@.len(),
        ensures
            r == self.store@[i as int],
    {
        self.store[i]
    }

    /// Release the buffer's handle. Consuming `self` makes a second
    /// release of the same handle inexpressible.
    pub fn delete(self, dev: &mut Device)
        requires
            old(dev).wf(),
            old(dev).live(self.vbo),
            !self.mapped,
        ensures
            final(dev).wf(),
            final(dev).lives_removed(*old(dev), self.vbo),
            final(dev).spec_released() == old(dev).spec_released().push(self.vbo),
            final(dev).spec_bindings() == old(dev).spec_bindings(),
            forall|n: int| old(dev).can_alloc(n) <==> final(dev).can_alloc(n),
    {
        dev.release_handle(self.vbo);
    }
}

/// Copy a slice into a store of written elements.
fn copy_in<T: Copy>(data: &[T]) -> (v: Vec<Option<T>>)
    ensures
        v@ == uploaded_store(data@),
{
    let n = data.len();
    let mut v: Vec<Option<T>> = Vec::new();
    let mut i: usize = 0;
    while i < n
        invariant
            0 <= i <= n,
            n == data@.len(),
            v@.len() == i,
            forall|j: int| 0 <= j < i ==> v@[j] == Some(data@[j]),
        decreases n - i,
    {
        v.push(Some(data[i]));
        i += 1;
    }
    proof {
        assert(v@ =~= uploaded_store(data@));
    }
    v
}

/// An exclusively held, write-only view over a mapped range of a buffer's
/// store. Writes are staged in the view and reach the buffer when the view
/// is handed back to [`Buffer::unmap`]; the range's prior contents count
/// as discarded, so reading through the view is not offered.
pub struct MappedBuffer<B: BufferType, T> {
    /// The staged writes, one slot per mapped element.
    pub staged: Vec<Option<T>>,
    /// Start of the mapped range within the buffer's store.
    pub offset: usize,
    /// The handle of the buffer this view came from.
    pub parent: Ghost<u32>,
    /// Carries the target tag of the originating buffer.
    pub marker: PhantomData<B>,
}

impl<B: BufferType, T: Copy> MappedBuffer<B, T> {
    /// The staged contents of the view.
    pub open spec fn spec_staged(self) -> Seq<Option<T>> {
        self.staged@
    }

    /// Start of the mapped range within the buffer's store.
    pub open spec fn spec_offset(self) -> usize {
        self.offset
    }

    /// The handle of the buffer this view came from.
    pub open spec fn spec_parent(self) -> u32 {
        self.parent@
    }

    /// The element count of the mapped range.
    pub fn len(&self) -> (n: usize)
        ensures
            n == self.spec_staged().len(),
    {
        self.staged.len()
    }

    /// Stage a write of `value` at index `i` of the mapped range.
    pub fn set(&mut self, i: usize, value: T)
        requires
            i < old(self).spec_staged().len(),
        ensures
            final(self).spec_staged() == old(self).spec_staged().update(i as int, Some(value)),
            final(self).spec_offset() == old(self).spec_offset(),
            final(self).spec_parent() == old(self).spec_parent(),
    {
        self.staged.set(i, Some(value));
    }
}

/// A buffer tagged for vertex attribute data.
pub type ArrayBuffer<T> = Buffer<BufferTypeArray, T>;

/// A buffer tagged for index data.
pub type ElementArrayBuffer<T> = Buffer<BufferTypeElementArray, T>;

/// Uploading a store and reading it back yields exactly the uploaded
/// elements: the store after an upload holds `Some` of every element of
/// `data`, at its position, and nothing else.
pub proof fn lemma_upload_read_back<T>(data: Seq<T>)
    ensures
        uploaded_store(data).len() == data.len(),
        forall|i: int| 0 <= i < data.len() ==> uploaded_store(data)[i] == Some(data[i]),
{
}

/// A vertex array object owning one vertex-array handle; a pure bind and
/// unbind wrapper. Attribute layout setup is its caller's business.
pub struct VertexArray {
    vao: u32,
}

impl VertexArray {
    /// The vertex-array handle this wrapper owns.
    pub closed spec fn spec_id(self) -> u32 {
        self.vao
    }

    /// Generate one vertex array object.
    pub fn new(dev: &mut Device) -> (va: VertexArray)
        requires
            old(dev).wf(),
            old(dev).can_alloc(1),
        ensures
            final(dev).wf(),
            final(dev).lives_extended_by(*old(dev), va.spec_id()),
            final(dev).spec_bindings() == old(dev).spec_bindings(),
            forall|p: u32| final(dev).spec_attached(p) == old(dev).spec_attached(p),
            final(dev).can_alloc_shifted(*old(dev)),
    {
        let vao = dev.gen_handle();
        VertexArray { vao }
    }

    /// Make this the device's current vertex array.
    pub fn bind(&self, dev: &mut Device)
        requires
            old(dev).wf(),
            old(dev).live(self.spec_id()),
        ensures
            final(dev).wf(),
            final(dev).spec_bindings() == (Bindings {
                vertex_array: self.spec_id(),
                ..old(dev).spec_bindings()
            }),
            final(dev).non_binding_state_eq(*old(dev)),
    {
        dev.bind_vertex_array(self.vao);
    }

    /// Clear the device's current vertex array.
    pub fn unbind(&self, dev: &mut Device)
        requires
            old(dev).wf(),
        ensures
            final(dev).wf(),
            final(dev).spec_bindings() == (Bindings { vertex_array: 0, ..old(dev).spec_bindings() }),
            final(dev).non_binding_state_eq(*old(dev)),
    {
        dev.bind_vertex_array(0);
    }

    /// Release the vertex array's handle. Consuming `self` makes a second
    /// release of the same handle inexpressible.
    pub fn delete(self, dev: &mut Device)
        requires
            old(dev).wf(),
            old(dev).live(self.spec_id()),
        ensures
            final(dev).wf(),
            final(dev).lives_removed(*old(dev), self.spec_id()),
            final(dev).spec_released() == old(dev).spec_released().push(self.spec_id()),
            final(dev).spec_bindings() == old(dev).spec_bindings(),
            forall|n: int| old(dev).can_alloc(n) <==> final(dev).can_alloc(n),
    {
        dev.release_handle(self.vao);
    }
}

} // verus!
