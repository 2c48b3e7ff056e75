use shader_program::engine::{
    BuildError, BuildPhase, BuildSession, LinkReport, StageKind, StageReport, DRIVER_TRUE,
    LOG_CAPACITY,
};
use shader_program::program::{ProgramBinding, ReloadAction, ShaderProgram};

fn ok_stage(handle: u32) -> StageReport {
    StageReport { handle, status: DRIVER_TRUE, log: String::new() }
}

fn failed_stage(handle: u32, log: &str) -> StageReport {
    StageReport { handle, status: 0, log: log.to_string() }
}

fn build_with_reports(
    vertex: StageReport,
    fragment: Option<StageReport>,
    link: Option<(u32, LinkReport)>,
) -> (BuildSession, Result<u32, BuildError>) {
    let mut session = BuildSession::begin();
    assert!(matches!(session.phase, BuildPhase::NeedVertex));
    if let Err(e) = session.on_stage_compiled(vertex) {
        return (session, Err(e));
    }
    let fragment = fragment.expect("a fragment report is needed once the vertex stage compiled");
    assert!(matches!(session.phase, BuildPhase::NeedFragment { .. }));
    if let Err(e) = session.on_stage_compiled(fragment) {
        return (session, Err(e));
    }
    let (program, report) = link.expect("a link report is needed once both stages compiled");
    assert!(matches!(session.phase, BuildPhase::NeedLink { .. }));
    let r = session.on_linked(program, report);
    (session, r)
}

#[test]
fn successful_build_yields_program_handle() {
    let link = LinkReport { status: DRIVER_TRUE, log: String::new() };
    let (session, r) = build_with_reports(ok_stage(7), Some(ok_stage(9)), Some((33, link)));
    assert_eq!(r.ok(), Some(33));
    assert!(matches!(session.phase, BuildPhase::Done));
    assert!(session.live_stages.is_empty());
}

#[test]
fn successful_build_activates_without_error() {
    let link = LinkReport { status: DRIVER_TRUE, log: String::new() };
    let (_, r) = build_with_reports(ok_stage(7), Some(ok_stage(9)), Some((33, link)));
    let built = ShaderProgram::new("tri.vert".to_string(), "tri.frag".to_string(), r);
    let program = built.expect("a fully successful build must produce a program");
    let mut binding = ProgramBinding::unbound();
    let h = program.activate(&mut binding);
    assert_eq!(h, 33);
    assert_eq!(binding.bound, 33);
}

#[test]
fn vertex_failure_is_tagged_vertex_and_produces_no_program() {
    let mut session = BuildSession::begin();
    let r = session.on_stage_compiled(failed_stage(7, "0:1(1): error: syntax error"));
    match r {
        Err(BuildError::ShaderCompileError { stage, log }) => {
            assert_eq!(stage, StageKind::Vertex);
            assert_eq!(log, "0:1(1): error: syntax error");
        }
        other => panic!("expected a vertex-tagged compile error, got {:?}", other.err()),
    }
    assert!(matches!(session.phase, BuildPhase::Done));
    assert_eq!(session.live_stages, vec![7]);
}

#[test]
fn fragment_failure_is_not_masked_by_vertex_success() {
    let mut session = BuildSession::begin();
    session
        .on_stage_compiled(ok_stage(7))
        .expect("a report whose status is the TRUE sentinel advances the session");
    let r = session.on_stage_compiled(failed_stage(9, "undeclared variable"));
    match r {
        Err(BuildError::ShaderCompileError { stage, log }) => {
            assert_eq!(stage, StageKind::Fragment);
            assert_eq!(log, "undeclared variable");
        }
        other => panic!("expected a fragment-tagged compile error, got {:?}", other.err()),
    }
    assert!(matches!(session.phase, BuildPhase::Done));
    assert_eq!(session.live_stages, vec![7, 9]);
}

#[test]
fn link_failure_leaves_both_stages_allocated() {
    let link = LinkReport { status: 0, log: "mismatched interface variables".to_string() };
    let (session, r) = build_with_reports(ok_stage(7), Some(ok_stage(9)), Some((33, link)));
    match r {
        Err(BuildError::ProgramLinkError { log }) => {
            assert_eq!(log, "mismatched interface variables");
        }
        other => panic!("expected a link error, got {:?}", other.err()),
    }
    // the documented resource-cleanup gap: neither stage is released
    assert_eq!(session.live_stages, vec![7, 9]);
}

#[test]
fn any_status_other_than_true_sentinel_is_failure() {
    let mut session = BuildSession::begin();
    let odd = StageReport { handle: 7, status: 2, log: "partial".to_string() };
    let r = session.on_stage_compiled(odd);
    assert!(matches!(r, Err(BuildError::ShaderCompileError { stage: StageKind::Vertex, .. })));
}

#[test]
fn compile_error_messages_name_the_failing_stage() {
    let vertex = BuildError::ShaderCompileError {
        stage: StageKind::Vertex,
        log: "bad token".to_string(),
    };
    assert_eq!(vertex.message(), "ERROR::SHADER::VERTEX::COMPILATION_FAILED\nbad token");
    let fragment = BuildError::ShaderCompileError {
        stage: StageKind::Fragment,
        log: "bad swizzle".to_string(),
    };
    assert_eq!(fragment.message(), "ERROR::SHADER::FRAGMENT::COMPILATION_FAILED\nbad swizzle");
}

#[test]
fn link_error_message_is_tagged_program() {
    let e = BuildError::ProgramLinkError { log: "no main".to_string() };
    assert_eq!(e.message(), "ERROR::SHADER::PROGRAM::COMPILATION_FAILED\nno main");
}

#[test]
fn new_passes_a_build_error_through() {
    let failed = Err(BuildError::ShaderCompileError {
        stage: StageKind::Vertex,
        log: "bad".to_string(),
    });
    let r = ShaderProgram::new("a.vert".to_string(), "a.frag".to_string(), failed);
    assert!(matches!(
        r,
        Err(BuildError::ShaderCompileError { stage: StageKind::Vertex, .. })
    ));
}

#[test]
fn new_records_both_paths() {
    let p = ShaderProgram::new("sky.vert".to_string(), "sky.frag".to_string(), Ok(5))
        .expect("a successful build must produce a program");
    assert_eq!(p.id(), 5);
    assert_eq!(p.vertex_filename(), "sky.vert");
    assert_eq!(p.fragment_filename(), "sky.frag");
}

#[test]
fn activate_twice_is_a_no_op_equivalent() {
    let p = ShaderProgram::new("a.vert".to_string(), "a.frag".to_string(), Ok(12))
        .expect("a successful build must produce a program");
    let mut binding = ProgramBinding::unbound();
    p.activate(&mut binding);
    let once = binding;
    p.activate(&mut binding);
    assert_eq!(binding, once);
}

#[test]
fn deactivate_twice_is_a_no_op_equivalent() {
    let p = ShaderProgram::new("a.vert".to_string(), "a.frag".to_string(), Ok(12))
        .expect("a successful build must produce a program");
    let mut binding = ProgramBinding::unbound();
    p.activate(&mut binding);
    p.deactivate(&mut binding);
    let once = binding;
    p.deactivate(&mut binding);
    assert_eq!(binding, once);
    assert_eq!(binding.bound, 0);
}

#[test]
fn reload_with_valid_pair_swaps_the_live_handle() {
    let mut p = ShaderProgram::new("a.vert".to_string(), "a.frag".to_string(), Ok(12))
        .expect("a successful build must produce a program");
    let action = p.reload(Ok(40));
    assert!(matches!(action, ReloadAction::Updated));
    assert_eq!(p.id(), 40);
    assert_eq!(p.vertex_filename(), "a.vert");
    assert_eq!(p.fragment_filename(), "a.frag");
    let mut binding = ProgramBinding::unbound();
    let h = p.activate(&mut binding);
    assert_eq!(h, 40);
    assert_ne!(binding.bound, 12);
}

#[test]
fn reload_with_invalid_pair_decides_termination() {
    let mut p = ShaderProgram::new("a.vert".to_string(), "a.frag".to_string(), Ok(12))
        .expect("a successful build must produce a program");
    let failed = Err(BuildError::ProgramLinkError { log: "no main".to_string() });
    let action = p.reload(failed);
    match action {
        ReloadAction::Terminate { message } => {
            assert_eq!(message, "ERROR::SHADER::PROGRAM::COMPILATION_FAILED\nno main");
        }
        ReloadAction::Updated => panic!("a failed rebuild must decide termination"),
    }
    // the previous handle stays intact and usable
    assert_eq!(p.id(), 12);
}

#[test]
fn reload_notice_names_both_paths() {
    let p = ShaderProgram::new("water.vert".to_string(), "water.frag".to_string(), Ok(3))
        .expect("a successful build must produce a program");
    assert_eq!(p.reload_notice(), "Reloading shader (water.vert + water.frag)");
}

#[test]
fn true_sentinel_and_log_capacity_match_the_driver_bindings() {
    assert_eq!(DRIVER_TRUE, gl::TRUE as i32);
    assert_eq!(LOG_CAPACITY, 511);
}
