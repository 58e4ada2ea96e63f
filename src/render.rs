use vstd::prelude::*;
use crate::geometry::{Geometry, VERTEX_COUNT};
use crate::gpu::{activated, resized, with_vertex_array, GlCall, GpuContext};
use crate::program::Program;

verus! {

/// A key as far as the loop cares.
#[derive(Clone, Copy, Debug, PartialEq, Eq, Structural)]
pub enum Key {
    Escape,
    Other,
}

/// An event delivered by the windowing environment.
#[derive(Clone, Copy, Debug, PartialEq, Eq, Structural)]
pub enum Event {
    LoopDestroyed,
    Resized { width: u32, height: u32 },
    CloseRequested,
    KeyPressed { key: Key },
    RedrawRequested,
    Other,
}

/// Whether the loop still dispatches events.
#[derive(Clone, Copy, Debug, PartialEq, Eq, Structural)]
pub enum Phase {
    Running,
    Exiting,
}

/// What the loop's state amounts to.
pub struct LoopView {
    pub ctx: GpuContext,
    pub program: u32,
    pub vao: u32,
    pub vbo: u32,
    pub phase: Phase,
    pub program_released: bool,
    pub geometry_released: bool,
}

/// The calls of one redraw: clear, activate the program, bind the geometry,
/// draw three vertices as a triangle, present.
pub open spec fn redraw_calls(program: u32, vao: u32) -> Seq<GlCall> {
    seq![
        GlCall::ClearColorBuffer,
        GlCall::UseProgram { program },
        GlCall::BindVertexArray { vao },
        GlCall::DrawTriangles { first: 0, count: 3 },
        GlCall::SwapBuffers,
    ]
}

/// One event handled: the next state and the calls to issue.
pub open spec fn step(v: LoopView, e: Event) -> (LoopView, Seq<GlCall>) {
    if v.phase == Phase::Exiting {
        (v, Seq::empty())
    } else {
        match e {
            Event::Resized { width, height } => (
                LoopView { ctx: resized(v.ctx, width, height), ..v },
                seq![GlCall::ResizeSurface { width, height }],
            ),
            Event::CloseRequested => (LoopView { phase: Phase::Exiting, ..v }, Seq::empty()),
            Event::KeyPressed { key: Key::Escape } => (LoopView { phase: Phase::Exiting, ..v }, Seq::empty()),
            Event::RedrawRequested => (
                LoopView { ctx: with_vertex_array(activated(v.ctx, v.program), v.vao), ..v },
                redraw_calls(v.program, v.vao),
            ),
            _ => (v, Seq::empty()),
        }
    }
}

/// Events dispatched in order until the loop is exiting or none are left:
/// the final state and every call issued.
pub open spec fn run_events(v: LoopView, events: Seq<Event>) -> (LoopView, Seq<GlCall>)
    decreases events.len(),
{
    if events.len() == 0 || v.phase == Phase::Exiting {
        (v, Seq::empty())
    } else {
        let (v1, c1) = step(v, events[0]);
        let (v2, c2) = run_events(v1, events.drop_first());
        (v2, c1 + c2)
    }
}

/// The calls that release what the loop owns, program first, then the
/// vertex array and buffer, each only if not yet released.
pub open spec fn teardown_calls(v: LoopView) -> Seq<GlCall> {
    (if v.program_released {
        Seq::empty()
    } else {
        seq![GlCall::DeleteProgram { program: v.program }]
    }) + (if v.geometry_released {
        Seq::empty()
    } else {
        seq![GlCall::DeleteVertexArray { vao: v.vao }, GlCall::DeleteBuffer { vbo: v.vbo }]
    })
}

/// The rendering loop: the context, the program in use and the geometry it
/// draws, driven one event at a time.
pub struct RenderLoop {
    ctx: GpuContext,
    program: Program,
    geometry: Geometry,
    phase: Phase,
}

impl RenderLoop {
    pub closed spec fn view(&self) -> LoopView {
        LoopView {
            ctx: self.ctx,
            program: self.program.spec_id(),
            vao: self.geometry.spec_vao(),
            vbo: self.geometry.spec_vbo(),
            phase: self.phase,
            program_released: self.program.is_released(),
            geometry_released: self.geometry.is_released(),
        }
    }

    /// A running loop over a constructed context, program and geometry.
    pub fn new(ctx: GpuContext, program: Program, geometry: Geometry) -> (r: RenderLoop)
        ensures
            r.view() == (LoopView {
                ctx,
                program: program.spec_id(),
                vao: geometry.spec_vao(),
                vbo: geometry.spec_vbo(),
                phase: Phase::Running,
                program_released: program.is_released(),
                geometry_released: geometry.is_released(),
            }),
    {
        RenderLoop { ctx, program, geometry, phase: Phase::Running }
    }

    pub fn is_running(&self) -> (r: bool)
        ensures
            r == (self.view().phase == Phase::Running),
    {
        self.phase == Phase::Running
    }

    pub fn phase(&self) -> (r: Phase)
        ensures
            r == self.view().phase,
    {
        self.phase
    }

    pub fn context(&self) -> (r: GpuContext)
        ensures
            r == self.view().ctx,
    {
        self.ctx
    }

    /// Handles one event and returns the calls to issue for it.
    pub fn handle(&mut self, event: Event) -> (r: Vec<GlCall>)
        ensures
            (final(self).view(), r@) == step(old(self).view(), event),
    {
        let mut calls: Vec<GlCall> = Vec::new();
        if self.phase == Phase::Exiting {
            return calls;
        }
        match event {
            Event::Resized { width, height } => {
                calls.push(self.ctx.resize(width, height));
            },
            Event::CloseRequested => {
                self.phase = Phase::Exiting;
            },
            Event::KeyPressed { key: Key::Escape } => {
                self.phase = Phase::Exiting;
            },
            Event::RedrawRequested => {
                calls.push(GlCall::ClearColorBuffer);
                calls.push(self.program.set_used(&mut self.ctx));
                calls.push(self.ctx.bind_vertex_array(self.geometry.vao()));
                calls.push(GlCall::DrawTriangles { first: 0, count: VERTEX_COUNT });
                calls.push(GlCall::SwapBuffers);
                assert(calls@ =~= redraw_calls(old(self).view().program, old(self).view().vao));
            },
            _ => {},
        }
        calls
    }

    /// Dispatches `events` in order until the loop is exiting, and returns
    /// every call issued.
    pub fn run(&mut self, events: &Vec<Event>) -> (r: Vec<GlCall>)
        ensures
            (final(self).view(), r@) == run_events(old(self).view(), events@),
    {
        let mut calls: Vec<GlCall> = Vec::new();
        let mut i: usize = 0;
        proof {
            assert(events@.subrange(0, events@.len() as int) =~= events@);
            let (v, c) = run_events(self.view(), events@);
            assert(calls@ + c =~= c);
        }
        while i < events.len() && self.phase == Phase::Running
            invariant
                i <= events@.len(),
                ({
                    let (v, c) = run_events(self.view(), events@.subrange(i as int, events@.len() as int));
                    run_events(old(self).view(), events@) == (v, calls@ + c)
                }),
            decreases events@.len() - i,
        {
            let ghost before = self.view();
            let ghost rest = events@.subrange(i as int, events@.len() as int);
            let step_calls = self.handle(events[i]);
            proof {
                assert(rest.drop_first() =~= events@.subrange(i + 1, events@.len() as int));
                assert(rest[0] == events@[i as int]);
            }
            let mut j: usize = 0;
            let ghost base = calls@;
            while j < step_calls.len()
                invariant
                    j <= step_calls@.len(),
                    calls@ == base + step_calls@.subrange(0, j as int),
                decreases step_calls@.len() - j,
            {
                calls.push(step_calls[j]);
                j = j + 1;
                assert(calls@ =~= base + step_calls@.subrange(0, j as int));
            }
            proof {
                assert(step_calls@.subrange(0, j as int) =~= step_calls@);
                let (v2, c2) = run_events(self.view(), events@.subrange(i + 1, events@.len() as int));
                assert(base + (step_calls@ + c2) =~= calls@ + c2);
            }
            i = i + 1;
        }
        proof {
            let rest = events@.subrange(i as int, events@.len() as int);
            if i == events@.len() {
                assert(rest.len() == 0);
            }
            let (v, c) = run_events(self.view(), rest);
            assert(calls@ + c =~= calls@);
        }
        calls
    }

    /// Releases the program, then the vertex array and buffer, and returns
    /// the delete calls to issue before the context itself goes. Releasing
    /// again issues nothing.
    pub fn teardown(&mut self) -> (r: Vec<GlCall>)
        ensures
            r@ == teardown_calls(old(self).view()),
            final(self).view() == (LoopView {
                program_released: true,
                geometry_released: true,
                ..old(self).view()
            }),
    {
        let mut calls: Vec<GlCall> = Vec::new();
        match self.program.release() {
            Some(id) => calls.push(GlCall::DeleteProgram { program: id }),
            None => {},
        }
        match self.geometry.release() {
            Some((vao, vbo)) => {
                calls.push(GlCall::DeleteVertexArray { vao });
                calls.push(GlCall::DeleteBuffer { vbo });
            },
            None => {},
        }
        assert(calls@ =~= teardown_calls(old(self).view()));
        calls
    }
}

} // verus!
