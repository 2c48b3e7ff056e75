//! The shader-program wrapper: holds the linked program handle together with
//! the two source-file paths it was built from, and exposes activate,
//! deactivate and reload over a model of the driver's single program-binding
//! slot.

use crate::engine::BuildError;
use vstd::prelude::*;
use vstd::string::StringExecFns;

verus! {

/// The driver context's single global program-binding slot. Binding the null
/// handle (zero) means no program is active.
#[derive(Clone, Copy, PartialEq, Eq, Structural, Debug)]
pub struct ProgramBinding {
    /// The handle currently bound as the active rendering program; zero when
    /// none is.
    pub bound: u32,
}

impl ProgramBinding {
    /// The binding after the driver is told to use `handle` (zero to unbind).
    pub open spec fn spec_bind(self, handle: u32) -> ProgramBinding {
        ProgramBinding { bound: handle }
    }

    /// The initial slot of a fresh context: no program bound.
    pub fn unbound() -> (b: ProgramBinding)
        ensures
            b.bound == 0,
    {
        ProgramBinding { bound: 0 }
    }
}

/// Binding is idempotent: telling the driver twice in a row to use the same
/// handle leaves the slot exactly as one call does, for activation (a program
/// handle) and deactivation (the null handle) alike.
pub proof fn lemma_bind_idempotent(b: ProgramBinding, handle: u32)
    ensures
        b.spec_bind(handle).spec_bind(handle) == b.spec_bind(handle),
{
}

/// A handle to a successfully linked GPU program together with the two
/// source-file paths it was built from. The handle is replaced wholesale on a
/// successful reload; the paths never change after construction.
#[derive(Debug)]
pub struct ShaderProgram {
    id: u32,
    vertex_filename: String,
    fragment_filename: String,
}

/// The mathematical value of a `ShaderProgram`.
#[verifier::ext_equal]
pub struct ShaderProgramView {
    pub id: u32,
    pub vertex_filename: Seq<char>,
    pub fragment_filename: Seq<char>,
}

impl View for ShaderProgram {
    type V = ShaderProgramView;

    closed spec fn view(&self) -> ShaderProgramView {
        ShaderProgramView {
            id: self.id,
            vertex_filename: self.vertex_filename@,
            fragment_filename: self.fragment_filename@,
        }
    }
}

/// The wrapper after a reload that built the new program `id`: the handle is
/// swapped, the recorded paths stay as they were.
pub open spec fn spec_reloaded(v: ShaderProgramView, id: u32) -> ShaderProgramView {
    ShaderProgramView { id, ..v }
}

/// What a reload decides once the rebuild's outcome is known: either the
/// wrapper was updated to the new program, or the process must terminate with
/// the given fatal message — a reload failure is deliberately unrecoverable.
pub enum ReloadAction {
    Updated,
    Terminate { message: String },
}

impl ShaderProgram {
    /// Wrap the outcome of building a program from the two named source
    /// files: a successful build's handle becomes a usable `ShaderProgram`
    /// holding both paths for later reloads, and a build error is passed
    /// through unchanged, producing no program object.
    pub fn new(
        vertex_filename: String,
        fragment_filename: String,
        build: Result<u32, BuildError>,
    ) -> (r: Result<ShaderProgram, BuildError>)
        ensures
            build matches Ok(id) ==> (r matches Ok(p) && p@ =~= (ShaderProgramView {
                id,
                vertex_filename: vertex_filename@,
                fragment_filename: fragment_filename@,
            })),
            build matches Err(e) ==> (r matches Err(e2) && e2@ =~= e@),
    {
        match build {
            Ok(id) => Ok(ShaderProgram { id, vertex_filename, fragment_filename }),
            Err(e) => Err(e),
        }
    }

    /// The program handle this wrapper currently holds.
    pub fn id(&self) -> (h: u32)
        ensures
            h == self@.id,
    {
        self.id
    }

    /// The recorded vertex source path.
    pub fn vertex_filename(&self) -> (r: &str)
        ensures
            r@ == self@.vertex_filename,
    {
        self.vertex_filename.as_str()
    }

    /// The recorded fragment source path.
    pub fn fragment_filename(&self) -> (r: &str)
        ensures
            r@ == self@.fragment_filename,
    {
        self.fragment_filename.as_str()
    }

    /// Make this program the active rendering program: the driver's binding
    /// slot is to hold this wrapper's handle, which is also returned so the
    /// caller can pass it on to the driver. Infallible: a `ShaderProgram`
    /// only ever holds a successfully linked handle.
    pub fn activate(&self, binding: &mut ProgramBinding) -> (h: u32)
        ensures
            h == self@.id,
            *final(binding) == old(binding).spec_bind(self@.id),
    {
        binding.bound = self.id;
        self.id
    }

    /// Unbind any active program: the driver's binding slot is to hold the
    /// null handle, which is returned for the caller to pass on. Symmetric
    /// with `activate`.
    pub fn deactivate(&self, binding: &mut ProgramBinding) -> (h: u32)
        ensures
            h == 0,
            *final(binding) == old(binding).spec_bind(0),
    {
        binding.bound = 0;
        0
    }

    /// The progress note printed before a reload is attempted, naming both
    /// recorded source paths.
    pub fn reload_notice(&self) -> (r: String)
        ensures
            r@ == "Reloading shader ("@ + self@.vertex_filename + " + "@
                + self@.fragment_filename + ")"@,
    {
        String::from_str("Reloading shader (").concat(self.vertex_filename.as_str()).concat(
            " + ",
        ).concat(self.fragment_filename.as_str()).concat(")")
    }

    /// Take the outcome of rebuilding this program from its recorded paths.
    /// A successful rebuild swaps the stored handle for the new one (the old
    /// handle is no longer referenced by the wrapper) and the paths stay
    /// unchanged. A failed rebuild leaves the wrapper exactly as it was —
    /// still holding the previous, valid program — and decides termination:
    /// the caller must end the process with the returned fatal message, the
    /// failing build's own descriptive message.
    pub fn reload(&mut self, build: Result<u32, BuildError>) -> (r: ReloadAction)
        ensures
            build matches Ok(id) ==> (final(self)@ =~= spec_reloaded(old(self)@, id)
                && r is Updated),
            build matches Err(e) ==> (*final(self) == *old(self) && (r matches ReloadAction::Terminate { message }
                && message@ == e@.spec_message())),
    {
        match build {
            Ok(id) => {
                self.id = id;
                ReloadAction::Updated
            },
            Err(e) => ReloadAction::Terminate { message: e.message() },
        }
    }
}

/// A build in which both stages compile and the link succeeds yields exactly
/// the linked program's handle, and activating a wrapper that holds that
/// handle binds it, whatever was bound before: a successful build is always
/// activatable, with no further error path.
pub proof fn lemma_successful_build_activates(
    vertex_stage: u32,
    fragment_stage: u32,
    program: u32,
    v: ShaderProgramView,
    b: ProgramBinding,
)
    requires
        v.id == program,
    ensures
        crate::engine::spec_successful_run(vertex_stage, fragment_stage, program).1 == Ok::<
            u32,
            crate::engine::BuildErrorView,
        >(program),
        b.spec_bind(v.id).bound == program,
{
    crate::engine::lemma_successful_build(vertex_stage, fragment_stage, program);
}

/// After a reload that rebuilt a new valid program, the wrapper holds the new
/// handle and activation binds it; where the new handle differs from the old
/// one, the old handle is no longer referenced by the wrapper nor bound after
/// the next activation — it has become dangling as far as this library is
/// concerned.
pub proof fn lemma_reload_then_activate(v: ShaderProgramView, new_id: u32, b: ProgramBinding)
    ensures
        spec_reloaded(v, new_id).id == new_id,
        spec_reloaded(v, new_id).vertex_filename == v.vertex_filename,
        spec_reloaded(v, new_id).fragment_filename == v.fragment_filename,
        b.spec_bind(spec_reloaded(v, new_id).id).bound == new_id,
        new_id != v.id ==> b.spec_bind(spec_reloaded(v, new_id).id).bound != v.id,
{
}

} // verus!
