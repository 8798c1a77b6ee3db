//! The point/circle shader program and its draw sessions.
//!
//! The program is assembled from the outcomes of the two shader compiles and
//! the link; a failure at any stage is the one fatal setup error, carrying
//! that stage's compiler log. A draw session then turns buffers, colors and
//! ranges into fully validated draw commands.

use vstd::prelude::*;
use crate::camera::CameraError;
use crate::camera::CameraUniforms;
use crate::camera::WorldRect;
use crate::camera::degenerate;
use crate::camera::is_camera_uniforms;
use crate::camera::set_border_radius;
use crate::vbo::Buffer;

verus! {

/// Relies on axgeom's `Vec2`: a plain pair of public `x` and `y` fields,
/// declared here so that viewport dimensions cross the API as that pair
/// type.
#[verifier::external_type_specification]
#[verifier::reject_recursive_types(N)]
pub struct ExVec2<N>(axgeom::Vec2<N>);

/// One point sprite: the binary32 bit patterns of its world position and its
/// alpha, in the order they sit in the vertex stream (x, y, alpha).
#[derive(Clone, Copy, Debug, PartialEq, Eq, Structural)]
pub struct Vertex {
    pub x: u32,
    pub y: u32,
    pub alpha: u32,
}

impl Default for Vertex {
    /// The all-zero vertex: at the origin, fully transparent.
    fn default() -> (v: Vertex)
        ensures
            v == (Vertex { x: 0, y: 0, alpha: 0 }),
    {
        Vertex { x: 0, y: 0, alpha: 0 }
    }
}

/// The stages of building the shader program.
#[derive(Clone, Copy, Debug, PartialEq, Eq, Structural)]
pub enum SetupStage {
    CompileVertex,
    CompileFragment,
    Link,
}

/// What one compile or link call reported back: the id of the object it
/// made, whether it succeeded, and its info log.
#[derive(Debug)]
pub struct ShaderOutcome {
    pub id: u32,
    pub ok: bool,
    pub log: String,
}

/// The one fatal setup error: a shader failed to compile, or the program
/// failed to link. Carries the failing stage and its compiler log.
#[derive(Debug)]
pub struct GraphicsInitError {
    pub stage: SetupStage,
    pub log: String,
}

/// A release of the program and its two shader objects. Consuming the
/// program yields exactly one of these, so each GPU object is released
/// exactly once and cannot be used afterwards.
#[derive(Clone, Copy, Debug, PartialEq, Eq, Structural)]
pub struct DeleteProgramCmd {
    pub program: u32,
    pub fs: u32,
    pub vs: u32,
}

/// The start of a frame: enable alpha blending and clear the screen to the
/// given color (binary32 bit patterns, alpha one).
#[derive(Clone, Copy, Debug, PartialEq, Eq, Structural)]
pub struct ClearCmd {
    pub red: u32,
    pub green: u32,
    pub blue: u32,
}

/// One draw call, fully validated: bind `vbo`, upload `uniforms` and the
/// border color `color`, then draw `count` point sprites starting at vertex
/// `first`. The range is known to lie inside the buffer's GPU allocation.
#[derive(Clone, Copy, Debug, PartialEq, Eq)]
pub struct DrawCmd {
    pub program: u32,
    pub vbo: u32,
    pub uniforms: CameraUniforms,
    pub color: [u32; 3],
    pub first: usize,
    pub count: usize,
}

/// Why a draw call was refused.
#[derive(Clone, Copy, Debug, PartialEq, Eq, Structural)]
pub enum DrawError {
    /// The session's world rectangle has zero width or height.
    Camera(CameraError),
    /// `first + count` vertices would read past the GPU allocation.
    RangeOutOfBounds { first: usize, count: usize },
}

/// The linked shader program: the program object and its two shader stages.
#[derive(Debug)]
pub struct CircleProgram {
    program: u32,
    fs: u32,
    vs: u32,
}

/// A draw session: the program being drawn with and the world rectangle the
/// camera shows for the rest of the frame.
#[derive(Debug)]
pub struct DrawSession {
    program: u32,
    border: WorldRect,
}

impl CircleProgram {
    /// The id of the linked program object.
    pub closed spec fn spec_program(&self) -> u32 {
        self.program
    }

    /// The id of the fragment shader object.
    pub closed spec fn spec_fs(&self) -> u32 {
        self.fs
    }

    /// The id of the vertex shader object.
    pub closed spec fn spec_vs(&self) -> u32 {
        self.vs
    }

    /// Assembles the program from the reported outcomes of the two compiles
    /// and the link. The first failing stage is the error, with its log;
    /// compile and link failures are unrecoverable setup faults.
    pub fn new(vs: ShaderOutcome, fs: ShaderOutcome, link: ShaderOutcome) -> (r: Result<
        CircleProgram,
        GraphicsInitError,
    >)
        ensures
            r is Ok <==> vs.ok && fs.ok && link.ok,
            r matches Ok(p) ==> p.spec_vs() == vs.id && p.spec_fs() == fs.id && p.spec_program()
                == link.id,
            r matches Err(e) ==> {
                &&& e.stage == (if !vs.ok {
                    SetupStage::CompileVertex
                } else if !fs.ok {
                    SetupStage::CompileFragment
                } else {
                    SetupStage::Link
                })
                &&& e.log@ == (if !vs.ok {
                    vs.log@
                } else if !fs.ok {
                    fs.log@
                } else {
                    link.log@
                })
            },
    {
        if !vs.ok {
            return Err(GraphicsInitError { stage: SetupStage::CompileVertex, log: vs.log });
        }
        if !fs.ok {
            return Err(GraphicsInitError { stage: SetupStage::CompileFragment, log: fs.log });
        }
        if !link.ok {
            return Err(GraphicsInitError { stage: SetupStage::Link, log: link.log });
        }
        Ok(CircleProgram { program: link.id, fs: fs.id, vs: vs.id })
    }

    /// Begins a frame: the session remembers the program and the world
    /// rectangle, and the returned command clears the screen to
    /// `back_color` with alpha blending enabled.
    pub fn new_draw_session(&mut self, back_color: [u32; 3], border: WorldRect) -> (r: (
        DrawSession,
        ClearCmd,
    ))
        ensures
            *final(self) == *old(self),
            r.0.spec_session_program() == old(self).spec_program(),
            r.0.spec_border() == border,
            r.1 == (ClearCmd { red: back_color[0], green: back_color[1], blue: back_color[2] }),
    {
        (
            DrawSession { program: self.program, border },
            ClearCmd { red: back_color[0], green: back_color[1], blue: back_color[2] },
        )
    }

    /// Consumes the program and yields the release of its three GPU objects.
    pub fn delete(self) -> (cmd: DeleteProgramCmd)
        ensures
            cmd == (DeleteProgramCmd {
                program: self.spec_program(),
                fs: self.spec_fs(),
                vs: self.spec_vs(),
            }),
    {
        DeleteProgramCmd { program: self.program, fs: self.fs, vs: self.vs }
    }
}

impl DrawSession {
    /// The id of the program this session draws with.
    pub closed spec fn spec_session_program(&self) -> u32 {
        self.program
    }

    /// The world rectangle the camera shows this frame.
    pub closed spec fn spec_border(&self) -> WorldRect {
        self.border
    }

    /// Validates one draw call over `buffer` and derives its command: the
    /// camera uniforms for the session's world rectangle at viewport width
    /// `dim.x`, the border color, and the vertex range `first = start`,
    /// `count = end`, which must lie inside the buffer's GPU allocation.
    pub fn draw_vbo_section<V>(
        &mut self,
        dim: axgeom::Vec2<usize>,
        buffer: &Buffer<V>,
        start: usize,
        end: usize,
        color: [u32; 3],
        radius: u32,
        square: bool,
    ) -> (r: Result<DrawCmd, DrawError>)
        ensures
            *final(self) == *old(self),
            r is Ok <==> !degenerate(old(self).spec_border()) && start + end <= buffer.gpu_elems(),
            degenerate(old(self).spec_border()) ==> r == Result::<DrawCmd, DrawError>::Err(
                DrawError::Camera(CameraError::DegenerateWorldRect),
            ),
            !degenerate(old(self).spec_border()) && start + end > buffer.gpu_elems() ==> r
                == Result::<DrawCmd, DrawError>::Err(
                DrawError::RangeOutOfBounds { first: start, count: end },
            ),
            r matches Ok(cmd) ==> {
                &&& cmd.program == old(self).spec_session_program()
                &&& cmd.vbo == buffer.spec_id()
                &&& is_camera_uniforms(
                    cmd.uniforms,
                    old(self).spec_session_program(),
                    old(self).spec_border(),
                    dim.x,
                    radius,
                    square,
                )
                &&& cmd.color == color
                &&& cmd.first == start
                &&& cmd.count == end
            },
    {
        let uniforms = match set_border_radius(self.program, self.border, dim.x, radius, square) {
            Ok(u) => u,
            Err(e) => {
                return Err(DrawError::Camera(e));
            },
        };
        let gpu = buffer.get_gpu_len();
        if start > gpu || end > gpu - start {
            return Err(DrawError::RangeOutOfBounds { first: start, count: end });
        }
        Ok(DrawCmd {
            program: self.program,
            vbo: buffer.get_id(),
            uniforms,
            color,
            first: start,
            count: end,
        })
    }
}

} // verus!
