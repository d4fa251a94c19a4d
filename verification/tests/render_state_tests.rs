use hideme::geometry::{Point, Size};
use hideme::render_state::{
    quad_indices, quad_vertices, DrawCall, Frame, Ratio, RenderError, RenderState, StepMode,
    SurfaceFault, Uniforms, Vertex, VertexAttribute, VertexLayout, WidePoint, COMPONENT_BYTES,
    QUAD_INDEX_COUNT,
};

const ZERO: Ratio = Ratio { num: 0, den: 1 };

fn quotient(r: Ratio) -> f32 {
    r.num as f32 / r.den as f32
}

#[test]
fn vertex_layout() {
    let layout = Vertex::desc();
    assert_eq!(
        layout,
        VertexLayout {
            array_stride: 8,
            step_mode: StepMode::Vertex,
            attribute: VertexAttribute { offset: 0, shader_location: 0, components: 2 },
        }
    );
    assert_eq!(
        layout.attribute.offset + u64::from(layout.attribute.components) * COMPONENT_BYTES,
        layout.array_stride
    );
    assert_eq!(layout.array_stride as usize, std::mem::size_of::<[f32; 2]>());
}

#[test]
fn quad_is_the_viewport() {
    let v = quad_vertices();
    assert_eq!(
        v,
        vec![
            Vertex { position: (-1, -1) },
            Vertex { position: (-1, 1) },
            Vertex { position: (1, 1) },
            Vertex { position: (1, -1) },
        ]
    );
    let i = quad_indices();
    assert_eq!(i, vec![2u16, 1, 0, 3, 2, 0]);
    assert_eq!(i.len() as u32, QUAD_INDEX_COUNT);
}

#[test]
fn quad_triangles_run_counter_clockwise() {
    let v = quad_vertices();
    let i = quad_indices();
    let mut total = 0;
    for t in 0..2 {
        let a = v[i[3 * t] as usize].position;
        let b = v[i[3 * t + 1] as usize].position;
        let c = v[i[3 * t + 2] as usize].position;
        let doubled = (i32::from(b.0) - i32::from(a.0)) * (i32::from(c.1) - i32::from(a.1))
            - (i32::from(c.0) - i32::from(a.0)) * (i32::from(b.1) - i32::from(a.1));
        assert_eq!(doubled, 4);
        total += doubled;
    }
    assert_eq!(total, 8);
}

#[test]
fn uniforms_start_empty() {
    let u = Uniforms::new();
    assert_eq!(u, Uniforms { top_left: (ZERO, ZERO), bottom_right: (ZERO, ZERO) });
    assert_eq!(quotient(u.top_left.0), 0.0);
    assert_eq!(quotient(u.bottom_right.1), 0.0);
}

#[test]
fn uniforms_update_normalizes_to_the_monitor() {
    let mut u = Uniforms::new();
    u.update(
        Point { x: 480, y: 270 },
        WidePoint { x: 1440, y: 810 },
        Size { width: 1920, height: 1080 },
    );
    assert_eq!(
        u,
        Uniforms {
            top_left: (Ratio { num: 480, den: 1920 }, Ratio { num: 270, den: 1080 }),
            bottom_right: (Ratio { num: 1440, den: 1920 }, Ratio { num: 810, den: 1080 }),
        }
    );
    assert_eq!(quotient(u.top_left.0), 0.25);
    assert_eq!(quotient(u.top_left.1), 0.25);
    assert_eq!(quotient(u.bottom_right.0), 0.75);
    assert_eq!(quotient(u.bottom_right.1), 0.75);
}

#[test]
fn new_state() {
    let size = Size { width: 1280, height: 720 };
    for draw in [true, false] {
        let s = RenderState::new(size, draw);
        assert_eq!(
            s,
            RenderState {
                draw_shader: draw,
                config: size,
                window_size: size,
                num_indices: 6,
                uniforms: Uniforms { top_left: (ZERO, ZERO), bottom_right: (ZERO, ZERO) },
            }
        );
    }
}

#[test]
fn frame_without_background_is_the_clear_colour_only() {
    let s = RenderState::new(Size { width: 1280, height: 720 }, false);
    assert_eq!(s.render(Ok(())), Ok(Frame { background: None }));
}

#[test]
fn frame_with_background_draws_the_quad_once() {
    let s = RenderState::new(Size { width: 1280, height: 720 }, true);
    assert_eq!(
        s.render(Ok(())),
        Ok(Frame {
            background: Some(DrawCall { indices: (0, 6), base_vertex: 0, instances: (0, 1) })
        })
    );
}

#[test]
fn out_of_memory_is_fatal_and_other_faults_are_not() {
    for draw in [true, false] {
        let s = RenderState::new(Size { width: 1280, height: 720 }, draw);
        assert_eq!(
            s.render(Err(SurfaceFault::OutOfMemory)),
            Err(RenderError::Fatal(SurfaceFault::OutOfMemory))
        );
        for fault in [SurfaceFault::Timeout, SurfaceFault::Outdated, SurfaceFault::Lost] {
            assert_eq!(s.render(Err(fault)), Err(RenderError::Recoverable(fault)));
        }
    }
}

#[test]
fn update_follows_the_window() {
    let mut s = RenderState::new(Size { width: 1280, height: 720 }, true);
    let unknown = s.update(
        Some(Point { x: 192, y: 108 }),
        Size { width: 960, height: 540 },
        Size { width: 1920, height: 1080 },
    );
    assert!(!unknown);
    assert_eq!(
        s.uniforms,
        Uniforms {
            top_left: (Ratio { num: 192, den: 1920 }, Ratio { num: 108, den: 1080 }),
            bottom_right: (Ratio { num: 1152, den: 1920 }, Ratio { num: 648, den: 1080 }),
        }
    );
    assert_eq!(quotient(s.uniforms.top_left.0), 192.0 / 1920.0);
    assert_eq!(quotient(s.uniforms.top_left.1), 108.0 / 1080.0);
    assert_eq!(quotient(s.uniforms.bottom_right.0), 1152.0 / 1920.0);
    assert_eq!(quotient(s.uniforms.bottom_right.1), 648.0 / 1080.0);
    assert_eq!(s.config, Size { width: 960, height: 540 });
    assert_eq!(s.window_size, Size { width: 1280, height: 720 });
    assert!(s.draw_shader);
    assert_eq!(s.num_indices, 6);
}

#[test]
fn update_with_window_off_the_monitor() {
    let mut s = RenderState::new(Size { width: 1280, height: 720 }, false);
    let unknown = s.update(
        Some(Point { x: -100, y: i32::MAX }),
        Size { width: 50, height: u32::MAX },
        Size { width: 1000, height: 0 },
    );
    assert!(!unknown);
    assert_eq!(s.uniforms.top_left, (Ratio { num: -100, den: 1000 }, Ratio { num: 2147483647, den: 0 }));
    assert_eq!(
        s.uniforms.bottom_right,
        (Ratio { num: -50, den: 1000 }, Ratio { num: 6442450942, den: 0 })
    );
    assert_eq!(quotient(s.uniforms.top_left.0), -0.1);
    assert_eq!(quotient(s.uniforms.bottom_right.0), -0.05);
    assert!(quotient(s.uniforms.bottom_right.1).is_infinite());
}

#[test]
fn update_with_unknown_position_takes_the_origin() {
    let mut s = RenderState::new(Size { width: 1280, height: 720 }, true);
    s.update(
        Some(Point { x: 192, y: 108 }),
        Size { width: 960, height: 540 },
        Size { width: 1920, height: 1080 },
    );
    let unknown =
        s.update(None, Size { width: 960, height: 540 }, Size { width: 1920, height: 1080 });
    assert!(unknown);
    assert_eq!(
        s.uniforms,
        Uniforms {
            top_left: (Ratio { num: 0, den: 1920 }, Ratio { num: 0, den: 1080 }),
            bottom_right: (Ratio { num: 960, den: 1920 }, Ratio { num: 540, den: 1080 }),
        }
    );
    assert_eq!(quotient(s.uniforms.top_left.0), 0.0);
    assert_eq!(quotient(s.uniforms.top_left.1), 0.0);
    assert_eq!(quotient(s.uniforms.bottom_right.0), 0.5);
    assert_eq!(quotient(s.uniforms.bottom_right.1), 0.5);
    assert_eq!(s.config, Size { width: 960, height: 540 });
    assert_eq!(s.window_size, Size { width: 1280, height: 720 });
    assert!(s.draw_shader);
    assert_eq!(s.num_indices, 6);
}
