use gl_triangle::geometry::{buffer_size_bytes, vertex_layout, Geometry, VertexAttribute};
use gl_triangle::gpu::{GlCall, GpuContext};
use gl_triangle::program::Program;
use gl_triangle::render::{Event, Key, Phase, RenderLoop};
use gl_triangle::shader::BuildStatus;

fn new_loop() -> RenderLoop {
    let program = Program::from_shaders(3, &[], BuildStatus::Success).unwrap();
    RenderLoop::new(GpuContext::new(512, 512), program, Geometry::new(2, 1))
}

fn redraw() -> Vec<GlCall> {
    vec![
        GlCall::ClearColorBuffer,
        GlCall::UseProgram { program: 3 },
        GlCall::BindVertexArray { vao: 2 },
        GlCall::DrawTriangles { first: 0, count: 3 },
        GlCall::SwapBuffers,
    ]
}

fn draws(calls: &[GlCall]) -> usize {
    calls.iter().filter(|c| matches!(c, GlCall::DrawTriangles { .. })).count()
}

#[test]
fn redraw_resize_redraw_escape() {
    let mut l = new_loop();
    let events = vec![
        Event::RedrawRequested,
        Event::Resized { width: 256, height: 256 },
        Event::RedrawRequested,
        Event::KeyPressed { key: Key::Escape },
    ];
    let calls = l.run(&events);
    let mut expected = redraw();
    expected.push(GlCall::ResizeSurface { width: 256, height: 256 });
    expected.extend(redraw());
    assert_eq!(calls, expected);
    assert_eq!(draws(&calls), 2);
    assert_eq!(calls.iter().filter(|c| **c == GlCall::SwapBuffers).count(), 2);
    assert_eq!(l.phase(), Phase::Exiting);
    assert_eq!(l.context().width, 256);
    assert_eq!(l.context().height, 256);
}

#[test]
fn close_without_redraw_draws_nothing() {
    let mut l = new_loop();
    let calls = l.run(&vec![Event::CloseRequested]);
    assert!(calls.is_empty());
    assert_eq!(draws(&calls), 0);
    assert!(!l.is_running());
}

#[test]
fn events_after_exit_are_not_dispatched() {
    let mut l = new_loop();
    let calls = l.run(&vec![Event::CloseRequested, Event::RedrawRequested]);
    assert!(calls.is_empty());
    assert!(l.handle(Event::RedrawRequested).is_empty());
}

#[test]
fn other_events_change_nothing() {
    let mut l = new_loop();
    assert!(l.handle(Event::KeyPressed { key: Key::Other }).is_empty());
    assert!(l.handle(Event::LoopDestroyed).is_empty());
    assert!(l.handle(Event::Other).is_empty());
    assert!(l.is_running());
    assert_eq!(l.context(), GpuContext::new(512, 512));
}

#[test]
fn redraw_activates_program_and_binds_geometry() {
    let mut l = new_loop();
    assert_eq!(l.handle(Event::RedrawRequested), redraw());
    assert_eq!(l.context().active_program, Some(3));
    assert_eq!(l.context().bound_vertex_array, Some(2));
}

#[test]
fn resize_does_not_draw() {
    let mut l = new_loop();
    let calls = l.handle(Event::Resized { width: 800, height: 600 });
    assert_eq!(calls, vec![GlCall::ResizeSurface { width: 800, height: 600 }]);
    assert_eq!(l.context().width, 800);
    assert_eq!(l.context().height, 600);
}

#[test]
fn teardown_releases_program_then_buffers_once() {
    let mut l = new_loop();
    assert_eq!(
        l.teardown(),
        vec![
            GlCall::DeleteProgram { program: 3 },
            GlCall::DeleteVertexArray { vao: 2 },
            GlCall::DeleteBuffer { vbo: 1 },
        ]
    );
    assert!(l.teardown().is_empty());
}

#[test]
fn layout_interleaves_position_and_colour() {
    assert_eq!(
        vertex_layout(),
        vec![
            VertexAttribute { location: 0, components: 3, stride_bytes: 24, offset_bytes: 0 },
            VertexAttribute { location: 1, components: 3, stride_bytes: 24, offset_bytes: 12 },
        ]
    );
}

#[test]
fn buffer_size_counts_four_bytes_per_float() {
    assert_eq!(buffer_size_bytes(18), Some(72));
    assert_eq!(buffer_size_bytes(0), Some(0));
    assert_eq!(buffer_size_bytes(usize::MAX), None);
}
