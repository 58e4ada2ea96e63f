use vstd::prelude::*;

verus! {

/// One driver call that the library asks its caller to issue, in order.
#[derive(Clone, Copy, Debug, PartialEq, Eq, Structural)]
pub enum GlCall {
    AttachShader { program: u32, shader: u32 },
    LinkProgram { program: u32 },
    DetachShader { program: u32, shader: u32 },
    UseProgram { program: u32 },
    ResizeSurface { width: u32, height: u32 },
    ClearColorBuffer,
    BindVertexArray { vao: u32 },
    DrawTriangles { first: i32, count: i32 },
    SwapBuffers,
    DeleteProgram { program: u32 },
    DeleteVertexArray { vao: u32 },
    DeleteBuffer { vbo: u32 },
}

/// The part of the rendering context's global state that the library tracks:
/// the active program, the bound vertex array, and the surface size.
#[derive(Clone, Copy, Debug, PartialEq, Eq, Structural)]
pub struct GpuContext {
    pub active_program: Option<u32>,
    pub bound_vertex_array: Option<u32>,
    pub width: u32,
    pub height: u32,
}

/// `c` with program `id` made the active one.
pub open spec fn activated(c: GpuContext, id: u32) -> GpuContext {
    GpuContext { active_program: Some(id), ..c }
}

/// `c` with vertex array `vao` bound.
pub open spec fn with_vertex_array(c: GpuContext, vao: u32) -> GpuContext {
    GpuContext { bound_vertex_array: Some(vao), ..c }
}

/// `c` with its surface resized.
pub open spec fn resized(c: GpuContext, width: u32, height: u32) -> GpuContext {
    GpuContext { width, height, ..c }
}

impl GpuContext {
    /// A fresh context of the given size, with nothing active or bound.
    pub fn new(width: u32, height: u32) -> (r: GpuContext)
        ensures
            r == (GpuContext { active_program: None, bound_vertex_array: None, width, height }),
    {
        GpuContext { active_program: None, bound_vertex_array: None, width, height }
    }

    pub fn bind_vertex_array(&mut self, vao: u32) -> (r: GlCall)
        ensures
            *final(self) == with_vertex_array(*old(self), vao),
            r == (GlCall::BindVertexArray { vao }),
    {
        self.bound_vertex_array = Some(vao);
        GlCall::BindVertexArray { vao }
    }

    pub fn resize(&mut self, width: u32, height: u32) -> (r: GlCall)
        ensures
            *final(self) == resized(*old(self), width, height),
            r == (GlCall::ResizeSurface { width, height }),
    {
        self.width = width;
        self.height = height;
        GlCall::ResizeSurface { width, height }
    }
}

/// Making the same program active twice in a row leaves the context as
/// making it active once does.
pub proof fn lemma_activate_idempotent(c: GpuContext, id: u32)
    ensures
        activated(activated(c, id), id) == activated(c, id),
{
}

} // verus!
