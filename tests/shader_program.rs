use gl_triangle::gpu::{GlCall, GpuContext};
use gl_triangle::program::Program;
use gl_triangle::shader::{log_buffer, log_message, BuildStatus, Shader, ShaderKind};

fn failure(text: &str) -> BuildStatus {
    let mut log = text.as_bytes().to_vec();
    log.push(0);
    BuildStatus::Failure { log }
}

#[test]
fn log_buffer_holds_spaces() {
    assert_eq!(log_buffer(5), b"     ".to_vec());
    assert!(log_buffer(0).is_empty());
}

#[test]
fn log_message_stops_at_nul() {
    assert_eq!(log_message(&b"bad token\0   ".to_vec()), "bad token");
    assert_eq!(log_message(&b"no terminator".to_vec()), "no terminator");
    assert_eq!(log_message(&Vec::new()), "");
    assert_eq!(log_message(&vec![0u8, b'x']), "");
}

#[test]
fn log_message_replaces_invalid_utf8() {
    assert_eq!(log_message(&vec![b'a', 0xff, b'b', 0]), "a\u{FFFD}b");
}

#[test]
fn compile_success_wraps_handle() {
    let s = Shader::from_source(7, ShaderKind::Fragment, BuildStatus::Success).unwrap();
    assert_eq!(s.id(), 7);
    assert_eq!(s.kind(), ShaderKind::Fragment);
    let v = Shader::from_vert_source(8, BuildStatus::Success).unwrap();
    assert_eq!(v.kind(), ShaderKind::Vertex);
    let f = Shader::from_frag_source(9, BuildStatus::Success).unwrap();
    assert_eq!(f.kind(), ShaderKind::Fragment);
}

#[test]
fn compile_failure_carries_driver_log() {
    let e = Shader::from_source(3, ShaderKind::Vertex, failure("0:1(17): error: syntax error, unexpected '}'")).unwrap_err();
    assert_eq!(e.stage(), ShaderKind::Vertex);
    assert_eq!(e.message(), "0:1(17): error: syntax error, unexpected '}'");
}

#[test]
fn compile_failure_with_empty_log_keeps_empty_message() {
    let e = Shader::from_frag_source(4, BuildStatus::Failure { log: log_buffer(0) }).unwrap_err();
    assert_eq!(e.stage(), ShaderKind::Fragment);
    assert_eq!(e.message(), "");
}

#[test]
fn invalid_source_gives_nonempty_diagnostic() {
    // void main() { gl_Position = vec4(0.0) }   -- missing semicolon
    let e = Shader::from_vert_source(5, failure("0:1(41): error: syntax error, unexpected '}', expecting ',' or ';'")).unwrap_err();
    assert!(!e.message().is_empty());
}

#[test]
fn shader_release_happens_once() {
    let mut s = Shader::from_vert_source(11, BuildStatus::Success).unwrap();
    assert_eq!(s.release(), Some(11));
    assert_eq!(s.release(), None);
}

#[test]
fn link_attaches_in_order_then_links() {
    let v = Shader::from_vert_source(1, BuildStatus::Success).unwrap();
    let f = Shader::from_frag_source(2, BuildStatus::Success).unwrap();
    let calls = Program::link_calls(10, &[v, f]);
    assert_eq!(
        calls,
        vec![
            GlCall::AttachShader { program: 10, shader: 1 },
            GlCall::AttachShader { program: 10, shader: 2 },
            GlCall::LinkProgram { program: 10 },
        ]
    );
}

#[test]
fn passthrough_pair_links_to_valid_program() {
    let v = Shader::from_vert_source(1, BuildStatus::Success).unwrap();
    let f = Shader::from_frag_source(2, BuildStatus::Success).unwrap();
    let shaders = [v, f];
    let p = Program::from_shaders(10, &shaders, BuildStatus::Success).unwrap();
    assert_eq!(p.id(), 10);
    assert_ne!(p.id(), 0);
    assert_eq!(
        p.detach_calls(&shaders),
        vec![
            GlCall::DetachShader { program: 10, shader: 1 },
            GlCall::DetachShader { program: 10, shader: 2 },
        ]
    );
}

#[test]
fn mismatched_stages_fail_to_link_with_log() {
    let a = Shader::from_vert_source(1, BuildStatus::Success).unwrap();
    let b = Shader::from_vert_source(2, BuildStatus::Success).unwrap();
    let r = Program::from_shaders(10, &[a, b], failure("error: no fragment shader"));
    assert_eq!(r.unwrap_err().message(), "error: no fragment shader");
}

#[test]
fn set_used_twice_equals_once() {
    let p = Program::from_shaders(4, &[], BuildStatus::Success).unwrap();
    let mut once = GpuContext::new(512, 512);
    assert_eq!(p.set_used(&mut once), GlCall::UseProgram { program: 4 });
    let mut twice = GpuContext::new(512, 512);
    p.set_used(&mut twice);
    p.set_used(&mut twice);
    assert_eq!(once, twice);
    assert_eq!(twice.active_program, Some(4));
}

#[test]
fn program_release_happens_once() {
    let mut p = Program::from_shaders(6, &[], BuildStatus::Success).unwrap();
    assert_eq!(p.release(), Some(6));
    assert_eq!(p.release(), None);
}
