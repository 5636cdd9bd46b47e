//! Model of the stateful graphics context the wrapper types drive.
//!
//! The device hands out opaque integer handles, one per created object, and
//! keeps a single "currently bound" slot per bind target. [`Device`] models
//! exactly that: a fresh-handle counter, the record of released handles, the
//! binding slots, and which shader stages are attached to which program.
//! Handles are never reused, and a well-formed device has released each
//! handle at most once — the foundation for the exactly-once release
//! guarantee of every wrapper type.

use vstd::prelude::*;
use vstd::seq_lib::*;
use vstd::set_lib::*;

verus! {

/// The buffer bind targets the library distinguishes: one for vertex
/// attribute stores, one for index stores. Fixed per buffer at construction.
#[derive(Clone, Copy, Debug, PartialEq, Eq, Structural)]
pub enum BufferTarget {
    /// Vertex attribute data.
    Array,
    /// Index (element) data.
    ElementArray,
}

/// The "currently bound" slots of the device, one per kind of object, plus
/// the viewport rectangle. Handle 0 means "nothing bound" throughout, as it
/// does on the device itself.
#[derive(Clone, Copy, Debug, PartialEq, Eq)]
pub struct Bindings {
    /// Buffer bound to the vertex attribute target.
    pub array_buffer: u32,
    /// Buffer bound to the index target.
    pub element_array_buffer: u32,
    /// Currently bound vertex array object.
    pub vertex_array: u32,
    /// Texture bound to the two-dimensional texture target.
    pub texture: u32,
    /// Currently selected texture unit.
    pub texture_unit: u32,
    /// Program selected for drawing.
    pub program: u32,
    /// Viewport rectangle as (x, y, width, height).
    pub viewport_rect: (i32, i32, i32, i32),
}

/// Model of the graphics context: handle lifecycle and global binding state.
pub struct Device {
    /// Next handle to hand out; handles 1 through `next - 1` were generated.
    next: u32,
    /// Number of generated handles not yet released.
    live_handles: u32,
    /// The binding slots.
    bindings: Bindings,
    /// The release calls issued so far, in order, one entry per call.
    released: Ghost<Seq<u32>>,
    /// Which shader stages are attached to which program handle.
    attached: Ghost<Map<u32, Set<u32>>>,
    /// Integer uniform writes issued so far, in order, as
    /// (program handle, location, value).
    uniform_int_writes: Vec<(u32, i32, i32)>,
}

impl Device {
    /// The sequence of release calls issued so far, one handle per call.
    pub closed spec fn spec_released(self) -> Seq<u32> {
        self.released@
    }

    /// A handle is live when it has been generated and not yet released.
    pub closed spec fn live(self, h: u32) -> bool {
        1 <= h && h < self.next && !self.released@.contains(h)
    }

    /// Room to generate `n` more handles without exhausting the counter.
    pub closed spec fn can_alloc(self, n: int) -> bool {
        self.next + n <= u32::MAX
    }

    /// The shader stages attached to program handle `p`.
    pub closed spec fn spec_attached(self, p: u32) -> Set<u32> {
        if self.attached@.contains_key(p) {
            self.attached@[p]
        } else {
            Set::empty()
        }
    }

    /// Number of generated handles not yet released.
    pub closed spec fn spec_live_count(self) -> u32 {
        self.live_handles
    }

    /// The current binding slots.
    pub closed spec fn spec_bindings(self) -> Bindings {
        self.bindings
    }

    /// The integer uniform writes issued so far, in order.
    pub closed spec fn spec_uniform_int_writes(self) -> Seq<(u32, i32, i32)> {
        self.uniform_int_writes@
    }

    /// Everything but the binding slots is as in `prev`.
    pub open spec fn non_binding_state_eq(self, prev: Device) -> bool {
        &&& self.spec_released() == prev.spec_released()
        &&& self.spec_uniform_int_writes() == prev.spec_uniform_int_writes()
        &&& self.spec_live_count() == prev.spec_live_count()
        &&& (forall|h: u32| self.live(h) <==> prev.live(h))
        &&& (forall|p: u32| self.spec_attached(p) == prev.spec_attached(p))
        &&& (forall|n: int| self.can_alloc(n) <==> prev.can_alloc(n))
    }

    /// Exactly the handle `h` became live; everything else lives as before.
    pub open spec fn lives_extended_by(self, prev: Device, h: u32) -> bool {
        &&& self.live(h)
        &&& !prev.live(h)
        &&& (forall|x: u32| x != h ==> (self.live(x) <==> prev.live(x)))
        &&& self.spec_live_count() == prev.spec_live_count() + 1
    }

    /// No handle changed between live and dead; none leaked, none lost.
    pub open spec fn lives_unchanged(self, prev: Device) -> bool {
        &&& (forall|x: u32| self.live(x) <==> prev.live(x))
        &&& self.spec_live_count() == prev.spec_live_count()
    }

    /// Exactly the handle `h` was released; everything else lives as before.
    pub open spec fn lives_removed(self, prev: Device, h: u32) -> bool {
        &&& !self.live(h)
        &&& (forall|x: u32| x != h ==> (self.live(x) <==> prev.live(x)))
        &&& self.spec_live_count() == prev.spec_live_count() - 1
    }

    /// Well-formedness: released handles were generated, no handle is
    /// released twice, and the live counter agrees with the records.
    pub closed spec fn wf(self) -> bool {
        &&& 1 <= self.next
        &&& forall|i: int|
            0 <= i < self.released@.len() ==> 1 <= #[trigger] self.released@[i]
                && self.released@[i] < self.next
        &&& self.released@.no_duplicates()
        &&& self.live_handles as int == self.next as int - 1 - self.released@.len()
        &&& forall|p: u32| self.next <= p ==> !self.attached@.contains_key(p)
    }

    /// Releases are exactly-once: no handle occurs twice in the record of
    /// release calls of a well-formed device.
    pub proof fn lemma_release_at_most_once(self, i: int, j: int)
        requires
            self.wf(),
            0 <= i < self.spec_released().len(),
            0 <= j < self.spec_released().len(),
            i != j,
        ensures
            self.spec_released()[i] != self.spec_released()[j],
    {
    }

    /// Room for `m` more handles leaves room for any smaller number.
    pub proof fn lemma_can_alloc_mono(self, m: int, n: int)
        requires
            self.can_alloc(m),
            n <= m,
        ensures
            self.can_alloc(n),
    {
    }

    /// A fresh context: no handles generated, nothing bound.
    pub fn new() -> (dev: Device)
        ensures
            dev.wf(),
            dev.spec_live_count() == 0,
            dev.spec_released() == Seq::<u32>::empty(),
            dev.spec_uniform_int_writes() == Seq::<(u32, i32, i32)>::empty(),
            forall|h: u32| !dev.live(h),
            dev.spec_bindings() == (Bindings {
                array_buffer: 0,
                element_array_buffer: 0,
                vertex_array: 0,
                texture: 0,
                texture_unit: 0,
                program: 0,
                viewport_rect: (0, 0, 0, 0),
            }),
    {
        Device {
            next: 1,
            live_handles: 0,
            bindings: Bindings {
                array_buffer: 0,
                element_array_buffer: 0,
                vertex_array: 0,
                texture: 0,
                texture_unit: 0,
                program: 0,
                viewport_rect: (0, 0, 0, 0),
            },
            released: Ghost(Seq::empty()),
            attached: Ghost(Map::empty()),
            uniform_int_writes: Vec::new(),
        }
    }

    /// Number of generated handles not yet released; lets callers observe
    /// that a protocol neither leaked nor double-released a handle.
    pub fn live_count(&self) -> (n: u32)
        ensures
            n == self.spec_live_count(),
    {
        self.live_handles
    }

    /// A copy of the current binding slots, for callers that inspect them.
    pub fn bindings(&self) -> (b: Bindings)
        ensures
            b == self.spec_bindings(),
    {
        self.bindings
    }

    /// Generate one fresh handle, as the device's object-creation calls do.
    pub(crate) fn gen_handle(&mut self) -> (h: u32)
        requires
            old(self).wf(),
            old(self).can_alloc(1),
        ensures
            final(self).wf(),
            final(self).live(h),
            !old(self).live(h),
            final(self).live_handles_increased_by_one(*old(self)),
            final(self).spec_released() == old(self).spec_released(),
            final(self).spec_uniform_int_writes() == old(self).spec_uniform_int_writes(),
            forall|x: u32| x != h ==> (final(self).live(x) <==> old(self).live(x)),
            final(self).spec_bindings() == old(self).spec_bindings(),
            forall|p: u32| final(self).spec_attached(p) == old(self).spec_attached(p),
            final(self).spec_attached(h) == Set::<u32>::empty(),
            final(self).can_alloc_shifted(*old(self)),
    {
        let h = self.next;
        self.next = self.next + 1;
        self.live_handles = self.live_handles + 1;
        h
    }

    /// The live counter grew by exactly one.
    pub open spec fn live_handles_increased_by_one(self, prev: Device) -> bool {
        self.spec_live_count() == prev.spec_live_count() + 1
    }

    /// One handle was generated, so one less can still be generated.
    pub open spec fn can_alloc_shifted(self, prev: Device) -> bool {
        forall|n: int| prev.can_alloc(n + 1) ==> self.can_alloc(n)
    }

    /// Release a live handle, as the device's object-deletion calls do.
    /// Exactly one release call is recorded; the handle is dead afterwards.
    pub(crate) fn release_handle(&mut self, h: u32)
        requires
            old(self).wf(),
            old(self).live(h),
        ensures
            final(self).wf(),
            final(self).spec_released() == old(self).spec_released().push(h),
            final(self).spec_uniform_int_writes() == old(self).spec_uniform_int_writes(),
            !final(self).live(h),
            forall|x: u32| x != h ==> (final(self).live(x) <==> old(self).live(x)),
            final(self).spec_live_count() == old(self).spec_live_count() - 1,
            final(self).spec_bindings() == old(self).spec_bindings(),
            forall|p: u32| final(self).spec_attached(p) == old(self).spec_attached(p),
            forall|n: int| old(self).can_alloc(n) <==> final(self).can_alloc(n),
    {
        proof {
            let s = self.released@;
            let s2 = s.push(h);
            assert(s2[s.len() as int] == h);
            assert(forall|i: int| 0 <= i < s.len() ==> s2[i] == s[i]);
            assert(s2.no_duplicates()) by {
                assert forall|i: int, j: int| 0 <= i < j < s2.len() implies s2[i] != s2[j] by {
                    if j == s.len() {
                        assert(s2[i] == s[i]);
                    }
                }
            }
            lemma_no_dup_len_bound(s2, self.next);
            assert(s2.contains(h));
            assert forall|x: u32| x != h implies (s2.contains(x) <==> s.contains(x)) by {
                if s2.contains(x) {
                    let i = choose|i: int| 0 <= i < s2.len() && s2[i] == x;
                    assert(s[i] == x);
                }
                if s.contains(x) {
                    let i = choose|i: int| 0 <= i < s.len() && s[i] == x;
                    assert(s2[i] == x);
                }
            }
        }
        self.live_handles = self.live_handles - 1;
        self.released = Ghost(self.released@.push(h));
    }

    /// Bind buffer handle `h` (0 to unbind) to the given target.
    pub(crate) fn bind_buffer(&mut self, target: BufferTarget, h: u32)
        requires
            old(self).wf(),
        ensures
            final(self).wf(),
            final(self).spec_bindings() == match target {
                BufferTarget::Array => Bindings {
                    array_buffer: h,
                    ..old(self).spec_bindings()
                },
                BufferTarget::ElementArray => Bindings {
                    element_array_buffer: h,
                    ..old(self).spec_bindings()
                },
            },
            final(self).non_binding_state_eq(*old(self)),
    {
        match target {
            BufferTarget::Array => self.bindings.array_buffer = h,
            BufferTarget::ElementArray => self.bindings.element_array_buffer = h,
        }
    }

    /// The buffer handle currently bound to `target`.
    pub open spec fn bound_buffer(self, target: BufferTarget) -> u32 {
        match target {
            BufferTarget::Array => self.spec_bindings().array_buffer,
            BufferTarget::ElementArray => self.spec_bindings().element_array_buffer,
        }
    }

    /// Bind vertex array handle `h` (0 to unbind).
    pub(crate) fn bind_vertex_array(&mut self, h: u32)
        requires
            old(self).wf(),
        ensures
            final(self).wf(),
            final(self).spec_bindings() == (Bindings {
                vertex_array: h,
                ..old(self).spec_bindings()
            }),
            final(self).non_binding_state_eq(*old(self)),
    {
        self.bindings.vertex_array = h;
    }

    /// Bind texture handle `h` (0 to unbind) to the two-dimensional target.
    pub(crate) fn bind_texture(&mut self, h: u32)
        requires
            old(self).wf(),
        ensures
            final(self).wf(),
            final(self).spec_bindings() == (Bindings {
                texture: h,
                ..old(self).spec_bindings()
            }),
            final(self).non_binding_state_eq(*old(self)),
    {
        self.bindings.texture = h;
    }

    /// Select the active texture unit.
    pub(crate) fn set_texture_unit(&mut self, unit: u32)
        requires
            old(self).wf(),
        ensures
            final(self).wf(),
            final(self).spec_bindings() == (Bindings {
                texture_unit: unit,
                ..old(self).spec_bindings()
            }),
            final(self).non_binding_state_eq(*old(self)),
    {
        self.bindings.texture_unit = unit;
    }

    /// Select program handle `h` as the active program.
    pub(crate) fn use_program(&mut self, h: u32)
        requires
            old(self).wf(),
        ensures
            final(self).wf(),
            final(self).spec_bindings() == (Bindings {
                program: h,
                ..old(self).spec_bindings()
            }),
            final(self).non_binding_state_eq(*old(self)),
    {
        self.bindings.program = h;
    }

    /// Set the viewport rectangle.
    pub(crate) fn set_viewport(&mut self, x: i32, y: i32, w: i32, h: i32)
        requires
            old(self).wf(),
        ensures
            final(self).wf(),
            final(self).spec_bindings() == (Bindings {
                viewport_rect: (x, y, w, h),
                ..old(self).spec_bindings()
            }),
            final(self).non_binding_state_eq(*old(self)),
    {
        self.bindings.viewport_rect = (x, y, w, h);
    }

    /// Record an integer uniform write against program handle `p`.
    pub(crate) fn write_uniform_1i(&mut self, p: u32, location: i32, value: i32)
        requires
            old(self).wf(),
        ensures
            final(self).wf(),
            final(self).spec_uniform_int_writes() == old(self).spec_uniform_int_writes().push(
                (p, location, value),
            ),
            final(self).spec_bindings() == old(self).spec_bindings(),
            final(self).spec_released() == old(self).spec_released(),
            final(self).spec_live_count() == old(self).spec_live_count(),
            forall|x: u32| final(self).live(x) <==> old(self).live(x),
            forall|q: u32| final(self).spec_attached(q) == old(self).spec_attached(q),
            forall|n: int| final(self).can_alloc(n) <==> old(self).can_alloc(n),
    {
        self.uniform_int_writes.push((p, location, value));
    }

    /// The integer uniform writes issued so far, in order, as
    /// (program handle, location, value); lets callers observe what
    /// reached the device.
    pub fn uniform_int_writes(&self) -> (w: &Vec<(u32, i32, i32)>)
        ensures
            w@ == self.spec_uniform_int_writes(),
    {
        &self.uniform_int_writes
    }

    /// Attach shader stage `s` to program handle `p`.
    pub(crate) fn attach_shader(&mut self, p: u32, s: u32)
        requires
            old(self).wf(),
            old(self).live(p),
        ensures
            final(self).wf(),
            final(self).spec_attached(p) == old(self).spec_attached(p).insert(s),
            forall|q: u32| q != p ==> final(self).spec_attached(q) == old(self).spec_attached(q),
            final(self).attached_only_changed(*old(self)),
    {
        let ghost new_set = self.spec_attached(p).insert(s);
        self.attached = Ghost(self.attached@.insert(p, new_set));
    }

    /// Detach shader stage `s` from program handle `p`.
    pub(crate) fn detach_shader(&mut self, p: u32, s: u32)
        requires
            old(self).wf(),
            old(self).live(p),
        ensures
            final(self).wf(),
            final(self).spec_attached(p) == old(self).spec_attached(p).remove(s),
            forall|q: u32| q != p ==> final(self).spec_attached(q) == old(self).spec_attached(q),
            final(self).attached_only_changed(*old(self)),
    {
        let ghost new_set = self.spec_attached(p).remove(s);
        self.attached = Ghost(self.attached@.insert(p, new_set));
    }

    /// Everything except the attachment record is as in `prev`.
    pub open spec fn attached_only_changed(self, prev: Device) -> bool {
        &&& self.spec_bindings() == prev.spec_bindings()
        &&& self.spec_uniform_int_writes() == prev.spec_uniform_int_writes()
        &&& self.spec_released() == prev.spec_released()
        &&& self.spec_live_count() == prev.spec_live_count()
        &&& self.spec_bindings() == prev.spec_bindings()
        &&& forall|h: u32| self.live(h) <==> prev.live(h)
        &&& forall|n: int| self.can_alloc(n) <==> prev.can_alloc(n)
    }
}

/// A duplicate-free sequence of handles drawn from 1 through `bound - 1`
/// cannot be longer than that range.
proof fn lemma_no_dup_len_bound(s: Seq<u32>, bound: u32)
    requires
        1 <= bound,
        s.no_duplicates(),
        forall|i: int| 0 <= i < s.len() ==> 1 <= #[trigger] s[i] && s[i] < bound,
    ensures
        s.len() <= bound - 1,
{
    let f = |h: u32| h as int;
    let t = s.map_values(f);
    assert(t.no_duplicates()) by {
        s.lemma_no_duplicates_injective::<int>(f);
    }
    t.unique_seq_to_set();
    assert(t.to_set().subset_of(set_int_range(1, bound as int))) by {
        assert forall|x: int| t.to_set().contains(x) implies set_int_range(
            1,
            bound as int,
        ).contains(x) by {
            assert(t.contains(x));
            let i = choose|i: int| 0 <= i < t.len() && t[i] == x;
            assert(1 <= s[i] && s[i] < bound);
        }
    }
    lemma_int_range(1, bound as int);
    lemma_len_subset(t.to_set(), set_int_range(1, bound as int));
}

} // verus!
