//! A second, even smaller effect: a bare triangle with no texture.
//!
//! It follows the same template as the quad — allocate once, draw once
//! per frame, return itself unchanged — varying only which resources are
//! bootstrapped: a shader pair that colors the triangle from the vertex
//! index, a three-vertex range, and the back-target framebuffer.

use vstd::prelude::*;
use crate::assets::AssetLoader;
use crate::input::{contains_quit, InputAction, LoopFeedback};
use crate::pipeline::{stream_has_quit, Pipeline};
use crate::render::{AllocEvent, DrawCall, GpuError, RenderContext};

verus! {

/// The vertex stage: synthesizes one triangle from the vertex index.
pub fn triangle_vertex_shader_source() -> &'static str {
    "out vec3 v_color;

const vec2 POSITIONS[3] = vec2[](
  vec2(-1, -1), vec2(1, -1), vec2(0, 1)
);

const vec3 COLORS[3] = vec3[](
  vec3(1, 0, 0), vec3(0, 1, 0), vec3(0, 0, 1)
);

void main() {
  v_color = COLORS[gl_VertexID];
  gl_Position = vec4(POSITIONS[gl_VertexID], 0, 1);
}
"
}

/// The fragment stage: writes the interpolated color through.
pub fn triangle_fragment_shader_source() -> &'static str {
    "in vec3 v_color;
out vec3 frag;

void main() {
  frag = v_color;
}
"
}

/// How many vertices the effect asks for each frame: one triangle.
pub const TRIANGLE_VERTEX_COUNT: u64 = 3;

/// A bare colored triangle effect, owning its program, vertex range and
/// target framebuffer.
#[derive(Clone, Copy, Debug, PartialEq, Eq, Structural)]
pub struct TrianglePipeline {
    /// The compiled shader program.
    pub program: u64,
    /// The attributeless vertex-range descriptor.
    pub attributeless: u64,
    /// The back-target framebuffer the effect draws into.
    pub back_buffer: u64,
}

impl TrianglePipeline {
    /// The render pass this instance issues every frame.
    pub open spec fn frame_draw(&self) -> DrawCall {
        DrawCall {
            program: self.program,
            vertex_range: self.attributeless,
            framebuffer: self.back_buffer,
            vertex_count: TRIANGLE_VERTEX_COUNT as u64,
        }
    }
}

/// The three allocations a successful bootstrap makes, in order: the
/// compiled shader program, a three-vertex attributeless range, and the
/// back-target framebuffer sized to the frame — each returning the handle
/// the resulting pipeline owns.
pub open spec fn triangle_alloc_plan(frame_size: [u32; 2], p: TrianglePipeline) -> Seq<
    AllocEvent,
> {
    seq![
        AllocEvent::Program { result: Ok(p.program) },
        AllocEvent::VertexRange {
            vertex_count: TRIANGLE_VERTEX_COUNT as u64,
            result: Ok(p.attributeless),
        },
        AllocEvent::Framebuffer {
            width: frame_size[0],
            height: frame_size[1],
            result: Ok(p.back_buffer),
        },
    ]
}

/// The allocation attempt of `triangle_alloc_plan` at position `step`, as
/// it looks when the context refuses it with `e`.
pub open spec fn triangle_failed_alloc(frame_size: [u32; 2], step: int, e: GpuError) -> AllocEvent {
    if step == 0 {
        AllocEvent::Program { result: Err(e) }
    } else if step == 1 {
        AllocEvent::VertexRange { vertex_count: TRIANGLE_VERTEX_COUNT as u64, result: Err(e) }
    } else {
        AllocEvent::Framebuffer { width: frame_size[0], height: frame_size[1], result: Err(e) }
    }
}

/// How a failed bootstrap leaves the context: the allocations before
/// `step` succeeded exactly as planned, the attempt at `step` came back
/// with `e` — which bootstrap propagates unchanged — and nothing later
/// was attempted.
pub open spec fn triangle_bootstrap_failed(
    pre: Seq<AllocEvent>,
    post: Seq<AllocEvent>,
    frame_size: [u32; 2],
    e: GpuError,
) -> bool {
    exists|step: int, p: TrianglePipeline|
        0 <= step <= 2 && post == pre + #[trigger] triangle_alloc_plan(frame_size, p).take(
            step,
        ).push(triangle_failed_alloc(frame_size, step, e))
}

impl<C: RenderContext> Pipeline<C> for TrianglePipeline {
    fn bootstrap<A: AssetLoader>(frame_size: [u32; 2], assets: &A, ctx: &mut C) -> (r: Result<
        Self,
        GpuError,
    >)
        ensures
            match r {
                Ok(p) => final(ctx).allocs() == old(ctx).allocs() + triangle_alloc_plan(
                    frame_size,
                    p,
                ),
                Err(e) => triangle_bootstrap_failed(
                    old(ctx).allocs(),
                    final(ctx).allocs(),
                    frame_size,
                    e,
                ),
            },
    {
        let ghost pre: Seq<AllocEvent> = ctx.allocs();
        let program = match ctx.new_program(
            triangle_vertex_shader_source(),
            triangle_fragment_shader_source(),
        ) {
            Ok(handle) => handle,
            Err(e) => {
                proof {
                    let p = TrianglePipeline { program: 0, attributeless: 0, back_buffer: 0 };
                    assert(ctx.allocs() =~= pre + triangle_alloc_plan(frame_size, p).take(0).push(
                        triangle_failed_alloc(frame_size, 0, e),
                    ));
                }
                return Err(e);
            },
        };
        let attributeless = match ctx.new_vertex_range(TRIANGLE_VERTEX_COUNT) {
            Ok(handle) => handle,
            Err(e) => {
                proof {
                    let p = TrianglePipeline { program, attributeless: 0, back_buffer: 0 };
                    assert(ctx.allocs() =~= pre + triangle_alloc_plan(frame_size, p).take(1).push(
                        triangle_failed_alloc(frame_size, 1, e),
                    ));
                }
                return Err(e);
            },
        };
        let back_buffer = match ctx.back_buffer(frame_size[0], frame_size[1]) {
            Ok(handle) => handle,
            Err(e) => {
                proof {
                    let p = TrianglePipeline { program, attributeless, back_buffer: 0 };
                    assert(ctx.allocs() =~= pre + triangle_alloc_plan(frame_size, p).take(2).push(
                        triangle_failed_alloc(frame_size, 2, e),
                    ));
                }
                return Err(e);
            },
        };
        let built = TrianglePipeline { program, attributeless, back_buffer };
        proof {
            assert(ctx.allocs() =~= pre + triangle_alloc_plan(frame_size, built));
        }
        Ok(built)
    }

    fn render_frame(self, elapsed_ms: u64, actions: &Vec<InputAction>, ctx: &mut C) -> (r: Result<
        LoopFeedback<Self>,
        GpuError,
    >)
        ensures
            !contains_quit(actions@) && r is Ok ==> r == Ok::<LoopFeedback<Self>, GpuError>(
                LoopFeedback::Continue(self),
            ) && final(ctx).draws() == old(ctx).draws().push(self.frame_draw()),
    {
        if stream_has_quit(actions) {
            return Ok(LoopFeedback::Exit);
        }
        match ctx.draw(
            DrawCall {
                program: self.program,
                vertex_range: self.attributeless,
                framebuffer: self.back_buffer,
                vertex_count: TRIANGLE_VERTEX_COUNT,
            },
        ) {
            Ok(()) => Ok(LoopFeedback::Continue(self)),
            Err(e) => Err(e),
        }
    }
}

} // verus!
