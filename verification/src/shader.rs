//! Shader stages and programs: the compile → attach → link → detach
//! pipeline with its two-stage diagnostics and resource-release protocol.
//!
//! Compiling and linking are the driver's work; its replies (the status
//! flag and the fetched info log) enter here as [`CompileOutcome`] and
//! [`LinkOutcome`] values. The functions below are verified to act
//! correctly on every possible reply: a failure is surfaced as the matching
//! structured error carrying the driver's log, and every handle generated
//! on the way to a failure is released before the error propagates — no
//! orphaned handles on any path.

use crate::device::Device;
use crate::error::RenderError;
use vstd::prelude::*;

verus! {

/// Which pipeline stage a shader object is, fixed at creation.
#[derive(Clone, Copy, Debug, PartialEq, Eq, Structural)]
pub enum StageKind {
    Vertex,
    Fragment,
}

/// The driver's reply to one compile request: the compile-status flag and
/// the info log fetched for the stage.
pub struct CompileOutcome {
    pub success: bool,
    pub log: String,
}

/// The driver's reply to one link request: the link-status flag and the
/// info log fetched for the program.
pub struct LinkOutcome {
    pub success: bool,
    pub log: String,
}

/// Whether a source string holds an interior nul and so can never be
/// handed to the driver, which takes nul-terminated text.
pub open spec fn spec_contains_nul(s: Seq<char>) -> bool {
    s.contains('\0')
}

/// Scan a source string for an interior nul character.
pub fn contains_nul(s: &str) -> (b: bool)
    ensures
        b == spec_contains_nul(s@),
{
    let n = s.unicode_len();
    let mut i: usize = 0;
    while i < n
        invariant
            n == s@.len(),
            0 <= i <= n,
            forall|j: int| 0 <= j < i ==> s@[j] != '\0',
        decreases n - i,
    {
        if s.get_char(i) == '\0' {
            return true;
        }
        i += 1;
    }
    false
}

/// A single compiled shader stage, owning one live shader handle.
#[derive(Debug)]
pub struct Shader {
    id: u32,
    kind: StageKind,
}

impl Shader {
    /// The shader handle this stage owns.
    pub closed spec fn spec_id(self) -> u32 {
        self.id
    }

    /// Which pipeline stage this shader is.
    pub closed spec fn spec_kind(self) -> StageKind {
        self.kind
    }

    /// The raw handle, for callers that issue further device calls on it.
    pub fn id(&self) -> (r: u32)
        ensures
            r == self.spec_id(),
    {
        self.id
    }

    /// Build a stage of the given kind from source text. The driver's reply
    /// to the compile request arrives as `outcome`: on success the stage is
    /// returned owning its live handle; on failure the handle is released
    /// before the error propagates, and the error carries the driver's log.
    #[allow(unused_variables)]
    pub fn from_source(
        dev: &mut Device,
        source: &str,
        kind: StageKind,
        outcome: CompileOutcome,
    ) -> (r: Result<Shader, RenderError>)
        requires
            old(dev).wf(),
            old(dev).can_alloc(1),
        ensures
            final(dev).wf(),
            final(dev).spec_bindings() == old(dev).spec_bindings(),
            forall|p: u32| final(dev).spec_attached(p) == old(dev).spec_attached(p),
            final(dev).can_alloc_shifted(*old(dev)),
            outcome.success ==> (r matches Ok(s) && s.spec_kind() == kind && final(dev).lives_extended_by(*old(dev), s.spec_id())),
            !outcome.success ==> (r matches Err(e) && (e matches RenderError::CompileError {
                kind: k,
                log: l,
            } && k == kind && l@ == outcome.log@) && final(dev).lives_unchanged(*old(dev))),
    {
        match shader_from_source(dev, source, kind, outcome) {
            Ok(id) => Ok(Shader { id, kind }),
            Err(e) => Err(e),
        }
    }

    /// A vertex stage from source text; see [`Shader::from_source`].
    #[allow(unused_variables)]
    pub fn from_vert_source(dev: &mut Device, source: &str, outcome: CompileOutcome) -> (r: Result<
        Shader,
        RenderError,
    >)
        requires
            old(dev).wf(),
            old(dev).can_alloc(1),
        ensures
            final(dev).wf(),
            final(dev).spec_bindings() == old(dev).spec_bindings(),
            forall|p: u32| final(dev).spec_attached(p) == old(dev).spec_attached(p),
            final(dev).can_alloc_shifted(*old(dev)),
            outcome.success ==> (r matches Ok(s) && s.spec_kind() == StageKind::Vertex && final(dev).lives_extended_by(*old(dev), s.spec_id())),
            !outcome.success ==> (r matches Err(e) && (e matches RenderError::CompileError {
                kind: k,
                log: l,
            } && k == StageKind::Vertex && l@ == outcome.log@) && final(dev).lives_unchanged(
                *old(dev),
            )),
    {
        Shader::from_source(dev, source, StageKind::Vertex, outcome)
    }

    /// A fragment stage from source text; see [`Shader::from_source`].
    #[allow(unused_variables)]
    pub fn from_frag_source(dev: &mut Device, source: &str, outcome: CompileOutcome) -> (r: Result<
        Shader,
        RenderError,
    >)
        requires
            old(dev).wf(),
            old(dev).can_alloc(1),
        ensures
            final(dev).wf(),
            final(dev).spec_bindings() == old(dev).spec_bindings(),
            forall|p: u32| final(dev).spec_attached(p) == old(dev).spec_attached(p),
            final(dev).can_alloc_shifted(*old(dev)),
            outcome.success ==> (r matches Ok(s) && s.spec_kind() == StageKind::Fragment && final(dev).lives_extended_by(*old(dev), s.spec_id())),
            !outcome.success ==> (r matches Err(e) && (e matches RenderError::CompileError {
                kind: k,
                log: l,
            } && k == StageKind::Fragment && l@ == outcome.log@) && final(dev).lives_unchanged(
                *old(dev),
            )),
    {
        Shader::from_source(dev, source, StageKind::Fragment, outcome)
    }

    /// Release the stage's handle. Consuming `self` makes a second release
    /// of the same handle inexpressible.
    pub fn delete(self, dev: &mut Device)
        requires
            old(dev).wf(),
            old(dev).live(self.spec_id()),
        ensures
            final(dev).wf(),
            final(dev).lives_removed(*old(dev), self.spec_id()),
            final(dev).spec_released() == old(dev).spec_released().push(self.spec_id()),
            final(dev).spec_bindings() == old(dev).spec_bindings(),
            forall|p: u32| final(dev).spec_attached(p) == old(dev).spec_attached(p),
            forall|n: int| old(dev).can_alloc(n) <==> final(dev).can_alloc(n),
    {
        dev.release_handle(self.id);
    }
}

/// Create a shader handle, submit the source, and act on the driver's
/// compile reply: keep the handle on success, release it and surface the
/// log on failure.
#[allow(unused_variables)]
fn shader_from_source(
    dev: &mut Device,
    source: &str,
    kind: StageKind,
    outcome: CompileOutcome,
) -> (r: Result<u32, RenderError>)
    requires
        old(dev).wf(),
        old(dev).can_alloc(1),
    ensures
        final(dev).wf(),
        final(dev).spec_bindings() == old(dev).spec_bindings(),
        forall|p: u32| final(dev).spec_attached(p) == old(dev).spec_attached(p),
        final(dev).can_alloc_shifted(*old(dev)),
        outcome.success ==> (r matches Ok(id) && final(dev).lives_extended_by(*old(dev), id)),
        !outcome.success ==> (r matches Err(e) && (e matches RenderError::CompileError {
            kind: k,
            log: l,
        } && k == kind && l@ == outcome.log@) && final(dev).lives_unchanged(*old(dev))),
{
    let id = dev.gen_handle();
    if outcome.success {
        Ok(id)
    } else {
        dev.release_handle(id);
        Err(RenderError::CompileError { kind, log: outcome.log })
    }
}

/// A linked program, owning one live program handle.
#[derive(Debug)]
pub struct Program {
    id: u32,
}

impl Program {
    /// The program handle this wrapper owns.
    pub closed spec fn spec_id(self) -> u32 {
        self.id
    }

    /// The raw handle, for callers that issue further device calls on it.
    pub fn id(&self) -> (r: u32)
        ensures
            r == self.spec_id(),
    {
        self.id
    }

    /// Build a program from compiled stages: create a program handle,
    /// attach every stage, link, and act on the driver's reply. On success
    /// every stage is detached again and the linked program is returned; on
    /// failure the program handle is released and the error carries the
    /// driver's log. The stages themselves stay owned by the caller and
    /// stay live either way. Detaching happens only on the success path, as
    /// the release of the program handle on failure also severs its
    /// attachments.
    pub fn from_shaders(dev: &mut Device, shaders: &[Shader], outcome: LinkOutcome) -> (r: Result<
        Program,
        RenderError,
    >)
        requires
            old(dev).wf(),
            old(dev).can_alloc(1),
            forall|i: int| 0 <= i < shaders@.len() ==> old(dev).live(#[trigger] shaders@[i].spec_id()),
        ensures
            final(dev).wf(),
            final(dev).spec_bindings() == old(dev).spec_bindings(),
            final(dev).can_alloc_shifted(*old(dev)),
            outcome.success ==> (r matches Ok(p) && final(dev).lives_extended_by(
                *old(dev),
                p.spec_id(),
            ) && final(dev).spec_attached(p.spec_id()) == Set::<u32>::empty() && (forall|q: u32|
                q != p.spec_id() ==> final(dev).spec_attached(q) == old(dev).spec_attached(q))),
            !outcome.success ==> (r matches Err(e) && (e matches RenderError::LinkError { log: l }
                && l@ == outcome.log@) && final(dev).lives_unchanged(*old(dev))),
    {
        let program_id = dev.gen_handle();
        let ghost dev0 = *dev;
        let n = shaders.len();

        let mut i: usize = 0;
        while i < n
            invariant
                dev.wf(),
                n == shaders@.len(),
                0 <= i <= n,
                dev.live(program_id),
                forall|k: int| 0 <= k < n ==> dev.live(#[trigger] shaders@[k].spec_id()),
                dev.spec_attached(program_id) == shader_ids(shaders@.take(i as int)).to_set(),
                forall|q: u32| q != program_id ==> dev.spec_attached(q) == dev0.spec_attached(q),
                dev.attached_only_changed(dev0),
            decreases n - i,
        {
            let sid = shaders[i].id();
            proof {
                lemma_take_push_to_set(shaders@, i as int, sid);
            }
            dev.attach_shader(program_id, sid);
            i += 1;
        }

        if !outcome.success {
            // The original fetches the log here; the fetched text arrives in
            // `outcome`. The stages stay attached to the program handle,
            // which is released right away.
            dev.release_handle(program_id);
            return Err(RenderError::LinkError { log: outcome.log });
        }

        let ghost dev1 = *dev;
        let mut i: usize = 0;
        while i < n
            invariant
                dev.wf(),
                n == shaders@.len(),
                0 <= i <= n,
                dev.live(program_id),
                forall|k: int| 0 <= k < n ==> dev.live(#[trigger] shaders@[k].spec_id()),
                dev.spec_attached(program_id) == dev1.spec_attached(program_id).difference(
                    shader_ids(shaders@.take(i as int)).to_set(),
                ),
                forall|q: u32| q != program_id ==> dev.spec_attached(q) == dev1.spec_attached(q),
                dev.attached_only_changed(dev1),
            decreases n - i,
        {
            let sid = shaders[i].id();
            proof {
                lemma_take_push_to_set(shaders@, i as int, sid);
                assert(dev.spec_attached(program_id).remove(sid) =~= dev1.spec_attached(
                    program_id,
                ).difference(shader_ids(shaders@.take(i as int + 1)).to_set()));
            }
            dev.detach_shader(program_id, sid);
            i += 1;
        }

        proof {
            assert(shaders@.take(n as int) =~= shaders@);
            assert(dev.spec_attached(program_id) =~= Set::<u32>::empty());
        }
        Ok(Program { id: program_id })
    }

    /// Build a program straight from vertex and fragment source text:
    /// compile both stages, link them, and release both stage handles on
    /// every path, success or failure. Atomic from the caller's point of
    /// view: either a linked program is returned and exactly one handle —
    /// the program's — is newly live, or an error is returned and the live
    /// handles are exactly as before.
    pub fn from_frag_vert_sources(
        dev: &mut Device,
        source_vert: &str,
        source_frag: &str,
        vert_outcome: CompileOutcome,
        frag_outcome: CompileOutcome,
        link_outcome: LinkOutcome,
    ) -> (r: Result<Program, RenderError>)
        requires
            old(dev).wf(),
            old(dev).can_alloc(3),
        ensures
            final(dev).wf(),
            final(dev).spec_bindings() == old(dev).spec_bindings(),
            spec_contains_nul(source_vert@) ==> (r matches Err(e) && e == (RenderError::NulInSource {
                kind: StageKind::Vertex,
            }) && *final(dev) == *old(dev)),
            !spec_contains_nul(source_vert@) && spec_contains_nul(source_frag@) ==> (r matches Err(e)
                && e == (RenderError::NulInSource { kind: StageKind::Fragment }) && *final(dev)
                == *old(dev)),
            !spec_contains_nul(source_vert@) && !spec_contains_nul(source_frag@)
                ==> !vert_outcome.success ==> (r matches Err(e) && (
            e matches RenderError::CompileError { kind: k, log: l } && k == StageKind::Vertex && l@
                == vert_outcome.log@) && final(dev).lives_unchanged(*old(dev))),
            !spec_contains_nul(source_vert@) && !spec_contains_nul(source_frag@)
                && vert_outcome.success ==> !frag_outcome.success ==> (r matches Err(e) && (
            e matches RenderError::CompileError { kind: k, log: l } && k == StageKind::Fragment
                && l@ == frag_outcome.log@) && final(dev).lives_unchanged(*old(dev))),
            !spec_contains_nul(source_vert@) && !spec_contains_nul(source_frag@)
                && vert_outcome.success && frag_outcome.success ==> !link_outcome.success ==> (
            r matches Err(e) && (e matches RenderError::LinkError { log: l } && l@
                == link_outcome.log@) && final(dev).lives_unchanged(*old(dev))),
            !spec_contains_nul(source_vert@) && !spec_contains_nul(source_frag@)
                && vert_outcome.success && frag_outcome.success && link_outcome.success ==> (
            r matches Ok(p) && final(dev).lives_extended_by(*old(dev), p.spec_id()) && final(dev).spec_attached(p.spec_id()) == Set::<u32>::empty()),
    {
        if contains_nul(source_vert) {
            return Err(RenderError::NulInSource { kind: StageKind::Vertex });
        }
        if contains_nul(source_frag) {
            return Err(RenderError::NulInSource { kind: StageKind::Fragment });
        }

        proof {
            dev.lemma_can_alloc_mono(3, 1);
        }
        let shader_vert = match Shader::from_vert_source(dev, source_vert, vert_outcome) {
            Ok(s) => s,
            Err(e) => {
                return Err(e);
            },
        };
        proof {
            dev.lemma_can_alloc_mono(2, 1);
        }
        let shader_frag = match Shader::from_frag_source(dev, source_frag, frag_outcome) {
            Ok(s) => s,
            Err(e) => {
                // The vertex stage was already compiled; release its handle
                // before the error propagates.
                shader_vert.delete(dev);
                return Err(e);
            },
        };

        let mut stages: Vec<Shader> = Vec::new();
        stages.push(shader_vert);
        stages.push(shader_frag);
        let r = Program::from_shaders(dev, stages.as_slice(), link_outcome);

        // The stages' scope ends with this function: release both handles,
        // whether or not the link went through.
        match stages.pop() {
            Some(s) => s.delete(dev),
            None => (),
        }
        match stages.pop() {
            Some(s) => s.delete(dev),
            None => (),
        }
        r
    }

    /// Make this program the device's active program.
    pub fn set_used(&self, dev: &mut Device)
        requires
            old(dev).wf(),
            old(dev).live(self.spec_id()),
        ensures
            final(dev).wf(),
            final(dev).spec_bindings() == (crate::device::Bindings {
                program: self.spec_id(),
                ..old(dev).spec_bindings()
            }),
            final(dev).non_binding_state_eq(*old(dev)),
    {
        dev.use_program(self.id);
    }

    /// Write an integer uniform at `location`. The device applies the
    /// write to the active program, so this program must be the one in
    /// use; no check relates the location to this program, as the device
    /// offers none.
    pub fn set_uniform_1i(&self, dev: &mut Device, location: i32, index: i32)
        requires
            old(dev).wf(),
            old(dev).live(self.spec_id()),
            old(dev).spec_bindings().program == self.spec_id(),
        ensures
            final(dev).wf(),
            final(dev).spec_uniform_int_writes() == old(dev).spec_uniform_int_writes().push(
                (self.spec_id(), location, index),
            ),
            final(dev).spec_bindings() == old(dev).spec_bindings(),
            final(dev).lives_unchanged(*old(dev)),
    {
        dev.write_uniform_1i(self.id, location, index);
    }

    /// Resolve a uniform's location by name. The driver's reply to the
    /// lookup arrives as `reply`, which is the location or -1 for a name
    /// the linked program does not expose; -1 becomes `None`, a normal
    /// outcome and not an error. Interior nuls in the name are ruled out
    /// up front, as the lookup takes nul-terminated text.
    #[allow(unused_variables)]
    pub fn get_uniform_location(&self, name: &str, reply: i32) -> (r: Option<i32>)
        requires
            !spec_contains_nul(name@),
            reply >= -1,
        ensures
            reply == -1 ==> r is None,
            reply >= 0 ==> r == Some(reply),
    {
        if reply == -1 {
            return None;
        }
        Some(reply)
    }

    /// Release the program's handle. Consuming `self` makes a second
    /// release of the same handle inexpressible.
    pub fn delete(self, dev: &mut Device)
        requires
            old(dev).wf(),
            old(dev).live(self.spec_id()),
        ensures
            final(dev).wf(),
            final(dev).lives_removed(*old(dev), self.spec_id()),
            final(dev).spec_released() == old(dev).spec_released().push(self.spec_id()),
            final(dev).spec_bindings() == old(dev).spec_bindings(),
            forall|n: int| old(dev).can_alloc(n) <==> final(dev).can_alloc(n),
    {
        dev.release_handle(self.id);
    }
}

/// The handles of a sequence of shader stages.
pub open spec fn shader_ids(shaders: Seq<Shader>) -> Seq<u32> {
    shaders.map_values(|s: Shader| s.spec_id())
}

/// Taking one more stage adds exactly its handle to the prefix's handle set.
proof fn lemma_take_push_to_set(shaders: Seq<Shader>, i: int, sid: u32)
    requires
        0 <= i < shaders.len(),
        shaders[i].spec_id() == sid,
    ensures
        shader_ids(shaders.take(i + 1)).to_set() == shader_ids(shaders.take(i)).to_set().insert(
            sid,
        ),
{
    let a = shader_ids(shaders.take(i));
    let b = shader_ids(shaders.take(i + 1));
    assert(b =~= a.push(sid));
    assert(b.to_set() =~= a.to_set().insert(sid)) by {
        assert forall|x: u32| b.to_set().contains(x) implies a.to_set().insert(sid).contains(x) by {
            let k = choose|k: int| 0 <= k < b.len() && b[k] == x;
            if k < i {
                assert(a[k] == x);
                assert(a.contains(x));
            }
        }
        assert forall|x: u32| a.to_set().insert(sid).contains(x) implies b.to_set().contains(x) by {
            if a.to_set().contains(x) {
                let k = choose|k: int| 0 <= k < a.len() && a[k] == x;
                assert(b[k] == x);
            } else {
                assert(b[i] == sid);
            }
        }
    }
}

} // verus!
