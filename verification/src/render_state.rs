//! What the renderer decides: the quad it draws, the rectangle of the
//! background that shows through the window, what a frame consists of, and
//! which failures end the program.

use crate::geometry::{Point, Size};
use vstd::prelude::*;

verus! {

/// A corner of the quad in clip space; each coordinate is -1 or 1.
#[derive(Clone, Copy, Debug, PartialEq, Eq)]
pub struct Vertex {
    pub position: (i8, i8),
}

/// How vertex data advances while drawing.
#[derive(Clone, Copy, Debug, PartialEq, Eq, Structural)]
pub enum StepMode {
    /// One entry per vertex.
    Vertex,
    /// One entry per instance.
    Instance,
}

/// One attribute of a vertex: a run of 32-bit floating-point components.
#[derive(Clone, Copy, Debug, PartialEq, Eq, Structural)]
pub struct VertexAttribute {
    /// Where the attribute starts within a vertex, in bytes.
    pub offset: u64,
    /// The input slot of the vertex shader that receives it.
    pub shader_location: u32,
    /// How many components it has.
    pub components: u32,
}

/// The layout of the vertex buffer.
#[derive(Clone, Copy, Debug, PartialEq, Eq, Structural)]
pub struct VertexLayout {
    /// Bytes from one vertex to the next.
    pub array_stride: u64,
    pub step_mode: StepMode,
    pub attribute: VertexAttribute,
}

/// Bytes taken by one component of a vertex attribute.
pub const COMPONENT_BYTES: u64 = 4;

impl VertexLayout {
    /// The attribute lies within one vertex.
    pub open spec fn wf(&self) -> bool {
        self.attribute.offset + self.attribute.components * COMPONENT_BYTES <= self.array_stride
    }
}

impl Vertex {
    /// The layout of a buffer of vertices: two components each, tightly
    /// packed, read once per vertex into slot 0.
    pub fn desc() -> (layout: VertexLayout)
        ensures
            layout == (VertexLayout {
                array_stride: 8,
                step_mode: StepMode::Vertex,
                attribute: VertexAttribute { offset: 0, shader_location: 0, components: 2 },
            }),
            layout.wf(),
    {
        VertexLayout {
            array_stride: 2 * COMPONENT_BYTES,
            step_mode: StepMode::Vertex,
            attribute: VertexAttribute { offset: 0, shader_location: 0, components: 2 },
        }
    }
}

/// The four corners of the viewport.
pub open spec fn quad_corners() -> Seq<Vertex> {
    seq![
        Vertex { position: (-1i8, -1i8) },
        Vertex { position: (-1i8, 1i8) },
        Vertex { position: (1i8, 1i8) },
        Vertex { position: (1i8, -1i8) },
    ]
}

/// The corners of the quad's two triangles, three indices each.
pub open spec fn quad_triangles() -> Seq<u16> {
    seq![2u16, 1u16, 0u16, 3u16, 2u16, 0u16]
}

/// Twice the area of the triangle `a`, `b`, `c`; positive when the corners
/// run counter-clockwise.
pub open spec fn doubled_area(a: Vertex, b: Vertex, c: Vertex) -> int {
    (b.position.0 - a.position.0) * (c.position.1 - a.position.1) - (c.position.0 - a.position.0)
        * (b.position.1 - a.position.1)
}

/// The vertices of the quad.
pub fn quad_vertices() -> (v: Vec<Vertex>)
    ensures
        v@ == quad_corners(),
{
    let mut v: Vec<Vertex> = Vec::new();
    v.push(Vertex { position: (-1, -1) });
    v.push(Vertex { position: (-1, 1) });
    v.push(Vertex { position: (1, 1) });
    v.push(Vertex { position: (1, -1) });
    assert(v@ =~= quad_corners());
    v
}

/// The indices of the quad's two triangles.
pub fn quad_indices() -> (v: Vec<u16>)
    ensures
        v@ == quad_triangles(),
{
    let mut v: Vec<u16> = Vec::new();
    v.push(2);
    v.push(1);
    v.push(0);
    v.push(3);
    v.push(2);
    v.push(0);
    assert(v@ =~= quad_triangles());
    v
}

/// The number of indices of the quad.
pub const QUAD_INDEX_COUNT: u32 = 6;

/// The quad is two triangles over the four corners of the viewport. Both run
/// counter-clockwise, so neither is culled as a back face, and together they
/// have the area of the whole viewport, a square of side 2.
pub proof fn law_quad_fills_viewport()
    ensures
        quad_triangles().len() == QUAD_INDEX_COUNT,
        forall|i: int| 0 <= i < 6 ==> 0 <= #[trigger] quad_triangles()[i] < quad_corners().len(),
        forall|t: int|
            0 <= t < 2 ==> #[trigger] doubled_area(
                quad_corners()[quad_triangles()[3 * t] as int],
                quad_corners()[quad_triangles()[3 * t + 1] as int],
                quad_corners()[quad_triangles()[3 * t + 2] as int],
            ) == 4,
{
    let c = quad_corners();
    let i = quad_triangles();
    assert(i[0] == 2 && i[1] == 1 && i[2] == 0 && i[3] == 3 && i[4] == 2 && i[5] == 0);
    assert(c[0].position == (-1i8, -1i8) && c[1].position == (-1i8, 1i8));
    assert(c[2].position == (1i8, 1i8) && c[3].position == (1i8, -1i8));
    assert(doubled_area(c[2], c[1], c[0]) == 4) by {
        assert((-1 - 1) * (-1 - 1) - (-1 - 1) * (1 - 1) == 4) by (nonlinear_arith);
    }
    assert(doubled_area(c[3], c[2], c[0]) == 4) by {
        assert((1 - 1) * (-1 - -1) - (-1 - 1) * (1 - -1) == 4) by (nonlinear_arith);
    }
}

/// A fraction `num / den`, kept exact. A zero denominator is allowed; what
/// the quotient then is, is left to whoever divides.
#[derive(Clone, Copy, Debug, PartialEq, Eq, Structural)]
pub struct Ratio {
    pub num: i64,
    pub den: u32,
}

/// A screen position whose coordinates may lie outside the 32-bit range.
#[derive(Clone, Copy, Debug, PartialEq, Eq, Structural)]
pub struct WidePoint {
    pub x: i64,
    pub y: i64,
}

/// The part of the background that shows through the window: its top-left and
/// bottom-right corners as fractions of the monitor's width and height.
#[derive(Clone, Copy, Debug, PartialEq, Eq)]
pub struct Uniforms {
    pub top_left: (Ratio, Ratio),
    pub bottom_right: (Ratio, Ratio),
}

/// The rectangle with corners `top_left` and `bottom_right` on a monitor of
/// the given size: each coordinate over the monitor's extent along its axis.
pub open spec fn normalized(top_left: Point, bottom_right: WidePoint, monitor_size: Size)
    -> Uniforms {
    Uniforms {
        top_left: (
            Ratio { num: top_left.x as i64, den: monitor_size.width },
            Ratio { num: top_left.y as i64, den: monitor_size.height },
        ),
        bottom_right: (
            Ratio { num: bottom_right.x, den: monitor_size.width },
            Ratio { num: bottom_right.y, den: monitor_size.height },
        ),
    }
}

/// The corner opposite `top_left` of a window of the given size.
pub open spec fn opposite_corner(top_left: Point, window_size: Size) -> WidePoint {
    WidePoint {
        x: (top_left.x + window_size.width) as i64,
        y: (top_left.y + window_size.height) as i64,
    }
}

/// The rectangle of a window at `top_left` of size `window_size` on a monitor
/// of size `monitor_size`: left `x / W`, top `y / H`, right `(x + w) / W`,
/// bottom `(y + h) / H`.
pub open spec fn window_rectangle(top_left: Point, window_size: Size, monitor_size: Size)
    -> Uniforms {
    normalized(top_left, opposite_corner(top_left, window_size), monitor_size)
}

impl Uniforms {
    /// The empty rectangle at the origin.
    pub fn new() -> (u: Uniforms)
        ensures
            u == (Uniforms {
                top_left: (Ratio { num: 0, den: 1 }, Ratio { num: 0, den: 1 }),
                bottom_right: (Ratio { num: 0, den: 1 }, Ratio { num: 0, den: 1 }),
            }),
    {
        let zero = Ratio { num: 0, den: 1 };
        Uniforms { top_left: (zero, zero), bottom_right: (zero, zero) }
    }

    /// Sets the rectangle to the given corners, normalized to the monitor.
    pub fn update(&mut self, top_left: Point, bottom_right: WidePoint, monitor_size: Size)
        ensures
            *final(self) == normalized(top_left, bottom_right, monitor_size),
    {
        self.top_left = (
            Ratio { num: top_left.x as i64, den: monitor_size.width },
            Ratio { num: top_left.y as i64, den: monitor_size.height },
        );
        self.bottom_right = (
            Ratio { num: bottom_right.x, den: monitor_size.width },
            Ratio { num: bottom_right.y, den: monitor_size.height },
        );
    }
}

/// A window that lies on its monitor has a rectangle within the unit square,
/// corner by corner in order, and as wide and as high as the window itself.
pub proof fn law_rectangle_of_window_on_monitor(
    top_left: Point,
    window_size: Size,
    monitor_size: Size,
)
    requires
        0 <= top_left.x,
        0 <= top_left.y,
        top_left.x + window_size.width <= monitor_size.width,
        top_left.y + window_size.height <= monitor_size.height,
    ensures
        ({
            let r = window_rectangle(top_left, window_size, monitor_size);
            &&& 0 <= r.top_left.0.num <= r.bottom_right.0.num <= r.bottom_right.0.den
            &&& 0 <= r.top_left.1.num <= r.bottom_right.1.num <= r.bottom_right.1.den
            &&& r.bottom_right.0.num - r.top_left.0.num == window_size.width
            &&& r.bottom_right.1.num - r.top_left.1.num == window_size.height
        }),
{
}

/// Why the surface gave no texture to draw on.
#[derive(Clone, Copy, Debug, PartialEq, Eq, Structural)]
pub enum SurfaceFault {
    /// Acquiring the texture took too long.
    Timeout,
    /// The surface has changed and must be configured again.
    Outdated,
    /// The surface was lost.
    Lost,
    /// No memory is left for a new frame.
    OutOfMemory,
}

/// A failed frame, by what the program does about it.
#[derive(Clone, Copy, Debug, PartialEq, Eq, Structural)]
pub enum RenderError {
    /// The program cannot go on.
    Fatal(SurfaceFault),
    /// The frame is dropped and the program goes on.
    Recoverable(SurfaceFault),
}

/// Running out of memory is fatal; every other fault costs one frame.
pub open spec fn severity(fault: SurfaceFault) -> RenderError {
    if fault == SurfaceFault::OutOfMemory {
        RenderError::Fatal(fault)
    } else {
        RenderError::Recoverable(fault)
    }
}

/// One indexed draw.
#[derive(Clone, Copy, Debug, PartialEq, Eq)]
pub struct DrawCall {
    /// The first index drawn and the one after the last.
    pub indices: (u32, u32),
    /// The value added to each index.
    pub base_vertex: i32,
    /// The first instance drawn and the one after the last.
    pub instances: (u32, u32),
}

/// What one frame consists of: the target is cleared to the clear colour,
/// then the background quad is drawn over it, if at all.
#[derive(Clone, Copy, Debug, PartialEq, Eq)]
pub struct Frame {
    pub background: Option<DrawCall>,
}

/// What the renderer keeps between frames, apart from the graphics objects
/// themselves.
#[derive(Clone, Copy, Debug, PartialEq, Eq)]
pub struct RenderState {
    /// Whether the background quad is drawn.
    pub draw_shader: bool,
    /// The size that the surface is configured for.
    pub config: Size,
    /// The size of the window when the renderer was made.
    pub window_size: Size,
    /// How many indices the quad has.
    pub num_indices: u32,
    /// The rectangle last sent to the shader.
    pub uniforms: Uniforms,
}

impl RenderState {
    /// The state of a renderer made for a window of the given inner size.
    pub fn new(window_size: Size, draw_shader: bool) -> (state: RenderState)
        ensures
            state == (RenderState {
                draw_shader,
                config: window_size,
                window_size,
                num_indices: QUAD_INDEX_COUNT,
                uniforms: Uniforms {
                    top_left: (Ratio { num: 0, den: 1 }, Ratio { num: 0, den: 1 }),
                    bottom_right: (Ratio { num: 0, den: 1 }, Ratio { num: 0, den: 1 }),
                },
            }),
    {
        RenderState {
            draw_shader,
            config: window_size,
            window_size,
            num_indices: QUAD_INDEX_COUNT,
            uniforms: Uniforms::new(),
        }
    }

    /// The frame that this state draws.
    pub open spec fn frame(&self) -> Frame {
        Frame {
            background: if self.draw_shader {
                Some(DrawCall { indices: (0, self.num_indices), base_vertex: 0, instances: (0, 1) })
            } else {
                None
            },
        }
    }

    /// Plans one frame, given how acquiring the surface's texture went. With
    /// a texture, the frame is the clear colour and, only if the background
    /// is enabled, the quad over it; without one, nothing is drawn and the
    /// fault is classified.
    pub fn render(&self, acquired: Result<(), SurfaceFault>) -> (r: Result<Frame, RenderError>)
        ensures
            r == match acquired {
                Ok(_) => Ok::<Frame, RenderError>(self.frame()),
                Err(fault) => Err(severity(fault)),
            },
            !self.draw_shader && acquired is Ok ==> r == Ok::<Frame, RenderError>(
                Frame { background: None },
            ),
    {
        match acquired {
            Ok(_) => {
                let background = if self.draw_shader {
                    Some(DrawCall { indices: (0, self.num_indices), base_vertex: 0, instances: (0, 1) })
                } else {
                    None
                };
                Ok(Frame { background })
            },
            Err(fault) => match fault {
                SurfaceFault::OutOfMemory => Err(RenderError::Fatal(fault)),
                _ => Err(RenderError::Recoverable(fault)),
            },
        }
    }

    /// Brings the rectangle up to date with where the window now is, and
    /// notes the window's size for the surface configuration. The surface
    /// itself is not configured again. A window whose position could not be
    /// read counts as being at the origin; the result says so, which is
    /// worth a message.
    pub fn update(
        &mut self,
        top_left: Option<Point>,
        window_size: Size,
        monitor_size: Size,
    ) -> (position_unknown: bool)
        ensures
            final(self).uniforms == window_rectangle(
                match top_left {
                    Some(p) => p,
                    None => (Point { x: 0, y: 0 }),
                },
                window_size,
                monitor_size,
            ),
            position_unknown == (top_left is None),
            final(self).config == window_size,
            final(self).draw_shader == old(self).draw_shader,
            final(self).window_size == old(self).window_size,
            final(self).num_indices == old(self).num_indices,
    {
        let (corner, position_unknown) = match top_left {
            Some(p) => (p, false),
            None => (Point { x: 0, y: 0 }, true),
        };
        let bottom_right = WidePoint {
            x: corner.x as i64 + window_size.width as i64,
            y: corner.y as i64 + window_size.height as i64,
        };
        self.uniforms.update(corner, bottom_right, monitor_size);
        self.config = window_size;
        position_unknown
    }
}

} // verus!
