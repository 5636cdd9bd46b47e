use render_gl::device::Device;
use render_gl::{CompileOutcome, LinkOutcome, Program, RenderError, Shader, StageKind};

fn ok_compile() -> CompileOutcome {
    CompileOutcome { success: true, log: String::new() }
}

fn failed_compile(log: &str) -> CompileOutcome {
    CompileOutcome { success: false, log: log.to_string() }
}

fn ok_link() -> LinkOutcome {
    LinkOutcome { success: true, log: String::new() }
}

fn failed_link(log: &str) -> LinkOutcome {
    LinkOutcome { success: false, log: log.to_string() }
}

const VERT_SRC: &str = "#version 330\nvoid main(){gl_Position=vec4(0);}";
const FRAG_SRC: &str = "#version 330\nout vec4 c; void main(){c=vec4(1);}";

#[test]
fn compile_success_returns_live_stage() {
    let mut dev = Device::new();
    let stage = Shader::from_vert_source(&mut dev, VERT_SRC, ok_compile()).unwrap();
    assert_eq!(dev.live_count(), 1);
    assert_ne!(stage.id(), 0);
    stage.delete(&mut dev);
    assert_eq!(dev.live_count(), 0);
}

#[test]
fn compile_failure_reports_log_and_releases_handle() {
    let mut dev = Device::new();
    let log = "0:2(20): error: expected ';' before '}'";
    let err = Shader::from_frag_source(&mut dev, "#version 330\nvoid main(){c=vec4(1)}", failed_compile(log))
        .unwrap_err();
    match err {
        RenderError::CompileError { kind, log: got } => {
            assert_eq!(kind, StageKind::Fragment);
            assert!(!got.is_empty());
            assert_eq!(got, log);
        }
        other => panic!("expected a compile error, got {:?}", other),
    }
    assert_eq!(dev.live_count(), 0);
}

#[test]
fn link_failure_reports_log_and_releases_program_handle() {
    let mut dev = Device::new();
    let vert = Shader::from_vert_source(&mut dev, VERT_SRC, ok_compile()).unwrap();
    let frag = Shader::from_frag_source(&mut dev, FRAG_SRC, ok_compile()).unwrap();
    let stages = vec![vert, frag];
    let log = "error: vertex shader output `shared_v' not declared in fragment shader";
    let err = Program::from_shaders(&mut dev, &stages, failed_link(log)).unwrap_err();
    match err {
        RenderError::LinkError { log: got } => {
            assert!(!got.is_empty());
            assert_eq!(got, log);
        }
        other => panic!("expected a link error, got {:?}", other),
    }
    // The stages stay owned by the caller and stay live; only the program
    // handle came and went.
    assert_eq!(dev.live_count(), 2);
    for s in stages {
        s.delete(&mut dev);
    }
    assert_eq!(dev.live_count(), 0);
}

#[test]
fn from_shaders_success_detaches_and_keeps_stages_live() {
    let mut dev = Device::new();
    let vert = Shader::from_vert_source(&mut dev, VERT_SRC, ok_compile()).unwrap();
    let frag = Shader::from_frag_source(&mut dev, FRAG_SRC, ok_compile()).unwrap();
    let stages = vec![vert, frag];
    let program = Program::from_shaders(&mut dev, &stages, ok_link()).unwrap();
    assert_eq!(dev.live_count(), 3);
    assert_ne!(program.id(), 0);
    for s in stages {
        s.delete(&mut dev);
    }
    assert_eq!(dev.live_count(), 1);
    program.delete(&mut dev);
    assert_eq!(dev.live_count(), 0);
}

#[test]
fn program_from_sources_success_leaves_one_live_handle() {
    let mut dev = Device::new();
    let program = Program::from_frag_vert_sources(
        &mut dev,
        VERT_SRC,
        FRAG_SRC,
        ok_compile(),
        ok_compile(),
        ok_link(),
    )
    .unwrap();
    assert_eq!(dev.live_count(), 1);
    assert_eq!(program.get_uniform_location("nonexistent", -1), None);
    program.delete(&mut dev);
    assert_eq!(dev.live_count(), 0);
}

#[test]
fn vert_compile_failure_via_sources_leaks_nothing() {
    let mut dev = Device::new();
    let log = "0:1(1): error: syntax error, unexpected NEW_IDENTIFIER";
    let err = Program::from_frag_vert_sources(
        &mut dev,
        "nonsense",
        FRAG_SRC,
        failed_compile(log),
        ok_compile(),
        ok_link(),
    )
    .unwrap_err();
    assert!(matches!(err, RenderError::CompileError { kind: StageKind::Vertex, .. }));
    assert_eq!(dev.live_count(), 0);
}

#[test]
fn frag_compile_failure_via_sources_releases_vert_stage() {
    let mut dev = Device::new();
    let log = "0:2(20): error: expected ';' before '}'";
    let err = Program::from_frag_vert_sources(
        &mut dev,
        VERT_SRC,
        "#version 330\nout vec4 c; void main(){c=vec4(1)}",
        ok_compile(),
        failed_compile(log),
        ok_link(),
    )
    .unwrap_err();
    match err {
        RenderError::CompileError { kind, log: got } => {
            assert_eq!(kind, StageKind::Fragment);
            assert_eq!(got, log);
        }
        other => panic!("expected a compile error, got {:?}", other),
    }
    assert_eq!(dev.live_count(), 0);
}

#[test]
fn link_failure_via_sources_leaks_nothing() {
    let mut dev = Device::new();
    let err = Program::from_frag_vert_sources(
        &mut dev,
        VERT_SRC,
        FRAG_SRC,
        ok_compile(),
        ok_compile(),
        failed_link("error: linking failed"),
    )
    .unwrap_err();
    assert!(matches!(err, RenderError::LinkError { .. }));
    assert_eq!(dev.live_count(), 0);
}

#[test]
fn nul_in_source_is_rejected_before_any_device_work() {
    let mut dev = Device::new();
    let err = Program::from_frag_vert_sources(
        &mut dev,
        "#version 330\0void main(){}",
        FRAG_SRC,
        ok_compile(),
        ok_compile(),
        ok_link(),
    )
    .unwrap_err();
    assert_eq!(err, RenderError::NulInSource { kind: StageKind::Vertex });
    assert_eq!(dev.live_count(), 0);
}

#[test]
fn get_uniform_location_present_name_is_nonnegative() {
    let mut dev = Device::new();
    let program =
        Program::from_frag_vert_sources(&mut dev, VERT_SRC, FRAG_SRC, ok_compile(), ok_compile(), ok_link())
            .unwrap();
    assert_eq!(program.get_uniform_location("view_matrix", 3), Some(3));
    assert_eq!(program.get_uniform_location("view_matrix", 0), Some(0));
    program.delete(&mut dev);
}

#[test]
fn set_used_selects_the_program() {
    let mut dev = Device::new();
    let program =
        Program::from_frag_vert_sources(&mut dev, VERT_SRC, FRAG_SRC, ok_compile(), ok_compile(), ok_link())
            .unwrap();
    program.set_used(&mut dev);
    assert_eq!(dev.bindings().program, program.id());
    program.delete(&mut dev);
}

#[test]
fn set_uniform_1i_reaches_the_device() {
    let mut dev = Device::new();
    let program =
        Program::from_frag_vert_sources(&mut dev, VERT_SRC, FRAG_SRC, ok_compile(), ok_compile(), ok_link())
            .unwrap();
    program.set_used(&mut dev);
    let location = program.get_uniform_location("tex_unit", 4).unwrap();
    program.set_uniform_1i(&mut dev, location, 0);
    program.set_uniform_1i(&mut dev, location, 7);
    let writes = dev.uniform_int_writes();
    assert_eq!(writes.len(), 2);
    assert_eq!(writes[0], (program.id(), 4, 0));
    assert_eq!(writes[1], (program.id(), 4, 7));
    program.delete(&mut dev);
}
