//! The compile/link engine: a session that walks the driver's two-stage build
//! protocol (compile vertex, compile fragment, link) and turns the driver's
//! status flags and diagnostic logs into either a linked program handle or a
//! descriptive build error.

use vstd::prelude::*;
use vstd::string::StringExecFns;

verus! {

/// The driver reports success of a compile or link as a status flag equal to
/// this sentinel; any other value is failure, with no partial-success state.
pub const DRIVER_TRUE: i32 = 1;

/// Usable capacity, in bytes, of the fixed diagnostic-log buffer that the
/// driver fills when a compile or link fails.
pub const LOG_CAPACITY: usize = 511;

/// One pipeline phase whose source text is compiled into a stage object.
#[derive(Clone, Copy, PartialEq, Eq, Structural, Debug)]
pub enum StageKind {
    Vertex,
    Fragment,
}

/// Where a build session stands: which driver report it expects next, or that
/// it has finished (successfully or not).
#[derive(Clone, Copy, PartialEq, Eq, Structural, Debug)]
pub enum BuildPhase {
    /// Waiting for the vertex stage's compile report.
    NeedVertex,
    /// Vertex stage compiled; waiting for the fragment stage's compile report.
    NeedFragment { vertex_stage: u32 },
    /// Both stages compiled; waiting for the link report.
    NeedLink { vertex_stage: u32, fragment_stage: u32 },
    /// The session ended, in success or failure; no further report is taken.
    Done,
}

/// Why a build failed, carrying the driver's raw diagnostic text.
#[derive(Debug)]
pub enum BuildError {
    /// One stage failed to compile; tagged with the stage and the driver's
    /// diagnostic log for it.
    ShaderCompileError { stage: StageKind, log: String },
    /// Both stages compiled but linking them into a program failed.
    ProgramLinkError { log: String },
}

/// The mathematical value of a `BuildError`: the same shape with the log as a
/// sequence of characters.
#[verifier::ext_equal]
pub enum BuildErrorView {
    ShaderCompileError { stage: StageKind, log: Seq<char> },
    ProgramLinkError { log: Seq<char> },
}

impl View for BuildError {
    type V = BuildErrorView;

    open spec fn view(&self) -> BuildErrorView {
        match self {
            BuildError::ShaderCompileError { stage, log } => (BuildErrorView::ShaderCompileError {
                stage: *stage,
                log: log@,
            }),
            BuildError::ProgramLinkError { log } => (BuildErrorView::ProgramLinkError {
                log: log@,
            }),
        }
    }
}

/// The tag under which a failed compile of `stage` is reported.
pub open spec fn spec_compile_failure_prefix(stage: StageKind) -> Seq<char> {
    match stage {
        StageKind::Vertex => "ERROR::SHADER::VERTEX::COMPILATION_FAILED\n"@,
        StageKind::Fragment => "ERROR::SHADER::FRAGMENT::COMPILATION_FAILED\n"@,
    }
}

/// The tag under which a failed link is reported.
pub open spec fn spec_link_failure_prefix() -> Seq<char> {
    "ERROR::SHADER::PROGRAM::COMPILATION_FAILED\n"@
}

impl BuildErrorView {
    /// The full human-readable message for this error: the tag line for the
    /// failing step, then the driver's raw diagnostic text.
    pub open spec fn spec_message(self) -> Seq<char> {
        match self {
            BuildErrorView::ShaderCompileError { stage, log } => spec_compile_failure_prefix(
                stage,
            ) + log,
            BuildErrorView::ProgramLinkError { log } => spec_link_failure_prefix() + log,
        }
    }
}

impl BuildError {
    /// The descriptive message shown to users: the failing step's tag line
    /// followed by the driver's diagnostic text.
    pub fn message(&self) -> (r: String)
        ensures
            r@ == self@.spec_message(),
    {
        match self {
            BuildError::ShaderCompileError { stage, log } => {
                let prefix: &str = match stage {
                    StageKind::Vertex => "ERROR::SHADER::VERTEX::COMPILATION_FAILED\n",
                    StageKind::Fragment => "ERROR::SHADER::FRAGMENT::COMPILATION_FAILED\n",
                };
                String::from_str(prefix).concat(log.as_str())
            },
            BuildError::ProgramLinkError { log } => {
                String::from_str("ERROR::SHADER::PROGRAM::COMPILATION_FAILED\n").concat(
                    log.as_str(),
                )
            },
        }
    }
}

/// The mathematical value of a build session: its phase and the stage objects
/// created so far and not yet released back to the driver.
#[verifier::ext_equal]
pub struct SessionModel {
    pub phase: BuildPhase,
    pub live_stages: Seq<u32>,
}

/// Which stage the next compile report answers for, in a phase that expects
/// one.
pub open spec fn spec_pending_stage(phase: BuildPhase) -> StageKind
    recommends
        phase is NeedVertex || phase is NeedFragment,
{
    if phase is NeedVertex {
        StageKind::Vertex
    } else {
        StageKind::Fragment
    }
}

/// The phase a session advances to when the pending stage compiles
/// successfully into the stage object `handle`.
pub open spec fn spec_phase_after_compile(phase: BuildPhase, handle: u32) -> BuildPhase {
    match phase {
        BuildPhase::NeedVertex => BuildPhase::NeedFragment { vertex_stage: handle },
        BuildPhase::NeedFragment { vertex_stage } => (BuildPhase::NeedLink {
            vertex_stage,
            fragment_stage: handle,
        }),
        _ => phase,
    }
}

/// A fresh session, before any driver report.
pub open spec fn spec_begin() -> SessionModel {
    SessionModel { phase: BuildPhase::NeedVertex, live_stages: Seq::empty() }
}

/// One compile report consumed: the created stage object `handle` is recorded
/// as live either way (a stage that failed to compile is never released), the
/// session advances on success, and ends with a stage-tagged error on failure.
pub open spec fn spec_compile_step(
    m: SessionModel,
    handle: u32,
    succeeded: bool,
    log: Seq<char>,
) -> (SessionModel, Option<BuildErrorView>)
    recommends
        m.phase is NeedVertex || m.phase is NeedFragment,
{
    let live = m.live_stages.push(handle);
    if succeeded {
        (SessionModel { phase: spec_phase_after_compile(m.phase, handle), live_stages: live }, None)
    } else {
        (
            SessionModel { phase: BuildPhase::Done, live_stages: live },
            Some(
                BuildErrorView::ShaderCompileError { stage: spec_pending_stage(m.phase), log },
            ),
        )
    }
}

/// The link report consumed: on success both stage objects are released (the
/// live set empties) and the program handle is the result; on failure the
/// session ends with a link error and the two stage objects stay allocated —
/// a documented resource-cleanup gap, not an oversight of the model.
pub open spec fn spec_link_step(
    m: SessionModel,
    program: u32,
    succeeded: bool,
    log: Seq<char>,
) -> (SessionModel, Result<u32, BuildErrorView>)
    recommends
        m.phase is NeedLink,
{
    if succeeded {
        (SessionModel { phase: BuildPhase::Done, live_stages: Seq::empty() }, Ok(program))
    } else {
        (
            SessionModel { phase: BuildPhase::Done, live_stages: m.live_stages },
            Err(BuildErrorView::ProgramLinkError { log }),
        )
    }
}

/// What the driver reports after being asked to compile one stage: the stage
/// object it created, the compile-status flag, and the diagnostic log (read
/// only when the flag shows failure; empty otherwise).
pub struct StageReport {
    pub handle: u32,
    pub status: i32,
    pub log: String,
}

/// What the driver reports after being asked to link: the link-status flag
/// and the diagnostic log (read only when the flag shows failure).
pub struct LinkReport {
    pub status: i32,
    pub log: String,
}

/// One build of a program from a vertex and a fragment source: the caller
/// submits each compile and the link to the driver and feeds the reports back
/// in order; the session decides how the build proceeds and keeps account of
/// the stage objects not yet released.
pub struct BuildSession {
    /// Which driver report the session expects next.
    pub phase: BuildPhase,
    /// Stage objects created by this build and not yet released.
    pub live_stages: Vec<u32>,
}

impl View for BuildSession {
    type V = SessionModel;

    open spec fn view(&self) -> SessionModel {
        SessionModel { phase: self.phase, live_stages: self.live_stages@ }
    }
}

impl BuildSession {
    /// Start a build: the vertex stage's compile report is expected first.
    pub fn begin() -> (s: BuildSession)
        ensures
            s@ =~= spec_begin(),
    {
        BuildSession { phase: BuildPhase::NeedVertex, live_stages: Vec::new() }
    }

    /// Consume the compile report for the pending stage. Success (the status
    /// flag equals the driver's TRUE sentinel) advances the session; any
    /// other flag value ends it with a compile error tagged with the failing
    /// stage and carrying the driver's log. Either way the created stage
    /// object is recorded as live.
    pub fn on_stage_compiled(&mut self, report: StageReport) -> (r: Result<(), BuildError>)
        requires
            old(self).phase is NeedVertex || old(self).phase is NeedFragment,
        ensures
            final(self)@ =~= spec_compile_step(
                old(self)@,
                report.handle,
                report.status == DRIVER_TRUE,
                report.log@,
            ).0,
            r is Ok <==> report.status == DRIVER_TRUE,
            r matches Err(e) ==> Some(e@) =~= spec_compile_step(
                old(self)@,
                report.handle,
                report.status == DRIVER_TRUE,
                report.log@,
            ).1,
    {
        let stage = match self.phase {
            BuildPhase::NeedVertex => StageKind::Vertex,
            _ => StageKind::Fragment,
        };
        self.live_stages.push(report.handle);
        if report.status == DRIVER_TRUE {
            self.phase = match self.phase {
                BuildPhase::NeedVertex => BuildPhase::NeedFragment { vertex_stage: report.handle },
                BuildPhase::NeedFragment { vertex_stage } => (BuildPhase::NeedLink {
                    vertex_stage,
                    fragment_stage: report.handle,
                }),
                p => p,
            };
            Ok(())
        } else {
            self.phase = BuildPhase::Done;
            Err(BuildError::ShaderCompileError { stage, log: report.log })
        }
    }

    /// Consume the link report for the program object `program` (a freshly
    /// created one, or an existing program being relinked in place). Success
    /// releases both stage objects and yields the program handle; failure
    /// ends the session with a link error and leaves both stage objects
    /// allocated.
    pub fn on_linked(&mut self, program: u32, report: LinkReport) -> (r: Result<u32, BuildError>)
        requires
            old(self).phase is NeedLink,
        ensures
            final(self)@ =~= spec_link_step(
                old(self)@,
                program,
                report.status == DRIVER_TRUE,
                report.log@,
            ).0,
            report.status == DRIVER_TRUE ==> r == Ok::<u32, BuildError>(program),
            report.status != DRIVER_TRUE ==> (r matches Err(e) && e@ =~= (
            BuildErrorView::ProgramLinkError { log: report.log@ })),
    {
        self.phase = BuildPhase::Done;
        if report.status == DRIVER_TRUE {
            self.live_stages = Vec::new();
            Ok(program)
        } else {
            Err(BuildError::ProgramLinkError { log: report.log })
        }
    }
}

/// The model of a whole build run: both compile reports succeed and the link
/// report succeeds, each with the given handles. Helper for the laws below.
pub open spec fn spec_successful_run(vertex_stage: u32, fragment_stage: u32, program: u32) -> (
    SessionModel,
    Result<u32, BuildErrorView>,
) {
    let after_vertex = spec_compile_step(spec_begin(), vertex_stage, true, Seq::empty()).0;
    let after_fragment = spec_compile_step(after_vertex, fragment_stage, true, Seq::empty()).0;
    spec_link_step(after_fragment, program, true, Seq::empty())
}

/// A build in which both stages compile and the link succeeds ends with
/// exactly the linked program's handle, and with every stage object released:
/// nothing is leaked on the success path.
pub proof fn lemma_successful_build(vertex_stage: u32, fragment_stage: u32, program: u32)
    ensures
        spec_successful_run(vertex_stage, fragment_stage, program).1 == Ok::<
            u32,
            BuildErrorView,
        >(program),
        spec_successful_run(vertex_stage, fragment_stage, program).0.phase is Done,
        spec_successful_run(vertex_stage, fragment_stage, program).0.live_stages =~= Seq::<
            u32,
        >::empty(),
{
}

/// A build whose vertex stage fails to compile ends at once with a compile
/// error tagged with the vertex stage and carrying the driver's log; no link
/// is ever requested, so no program handle is produced, and the failed stage
/// object itself is the only driver resource left behind.
pub proof fn lemma_vertex_compile_failure(vertex_stage: u32, log: Seq<char>)
    ensures
        spec_compile_step(spec_begin(), vertex_stage, false, log).1 == Some(
            BuildErrorView::ShaderCompileError { stage: StageKind::Vertex, log },
        ),
        spec_compile_step(spec_begin(), vertex_stage, false, log).0.phase is Done,
        spec_compile_step(spec_begin(), vertex_stage, false, log).0.live_stages =~= seq![
            vertex_stage,
        ],
{
}

/// A build whose vertex stage compiles but whose fragment stage does not ends
/// with a compile error tagged with the fragment stage: the vertex stage's
/// success does not mask the fragment failure, and again no program handle is
/// produced.
pub proof fn lemma_fragment_compile_failure(vertex_stage: u32, fragment_stage: u32, log: Seq<char>)
    ensures
        ({
            let after_vertex = spec_compile_step(spec_begin(), vertex_stage, true, Seq::empty()).0;
            let failed = spec_compile_step(after_vertex, fragment_stage, false, log);
            &&& failed.1 == Some(
                BuildErrorView::ShaderCompileError { stage: StageKind::Fragment, log },
            )
            &&& failed.0.phase is Done
            &&& failed.0.live_stages =~= seq![vertex_stage, fragment_stage]
        }),
{
}

/// A build in which both stages compile but the link fails ends with a link
/// error carrying the driver's log, and both compiled stage objects remain
/// allocated: the engine deliberately does not release them on this path.
pub proof fn lemma_link_failure_leaks_stages(
    vertex_stage: u32,
    fragment_stage: u32,
    program: u32,
    log: Seq<char>,
)
    ensures
        ({
            let after_vertex = spec_compile_step(spec_begin(), vertex_stage, true, Seq::empty()).0;
            let after_fragment = spec_compile_step(
                after_vertex,
                fragment_stage,
                true,
                Seq::empty(),
            ).0;
            let failed = spec_link_step(after_fragment, program, false, log);
            &&& failed.1 == Err::<u32, BuildErrorView>(BuildErrorView::ProgramLinkError { log })
            &&& failed.0.phase is Done
            &&& failed.0.live_stages =~= seq![vertex_stage, fragment_stage]
        }),
{
}

} // verus!
