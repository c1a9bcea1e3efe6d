//! The reference effect: a full-screen textured quad.
//!
//! Bootstrap loads one named texture from the asset cache, compiles a
//! fixed vertex and fragment shader pair that samples it, records a
//! vertex-range descriptor asking for six vertices with no per-vertex
//! data (the geometry is synthesized inside the vertex stage as a
//! full-screen triangle pair), and allocates the back-target framebuffer.
//! The effect is static: every frame ignores all non-quit actions, draws
//! once with default render state, and returns the same instance
//! unchanged — no GPU resource is ever reallocated.

use vstd::prelude::*;
use crate::assets::{AssetLoader, ImageView};
use crate::input::{contains_quit, InputAction, LoopFeedback};
use crate::pipeline::{stream_has_quit, Pipeline};
use crate::render::{AllocEvent, DrawCall, Filter, GpuError, RenderContext, Sampling};

verus! {

/// The vertex stage: synthesizes a full-screen triangle pair from the
/// vertex index alone and passes texture coordinates along.
pub fn vertex_shader_source() -> &'static str {
    "out vec2 v_uv;

const vec2 POSITIONS[6] = vec2[](
  vec2(-1, -1), vec2(1, -1), vec2(1, 1),
  vec2(-1, -1), vec2(1, 1), vec2(-1, 1)
);

void main() {
  vec2 p = POSITIONS[gl_VertexID];
  v_uv = (p + vec2(1, 1)) / vec2(2, 2);
  gl_Position = vec4(p, 0, 1);
}
"
}

/// The fragment stage: samples the bootstrapped texture with the
/// interpolated coordinates.
pub fn fragment_shader_source() -> &'static str {
    "in vec2 v_uv;
out vec3 frag;

uniform sampler2D image;

void main() {
  frag = texture(image, v_uv).rgb;
}
"
}

/// How many vertices the effect asks for each frame: two triangles.
pub const QUAD_VERTEX_COUNT: u64 = 6;

/// Fetch the named texture from the asset cache and hand back its size
/// and a copy of its packed pixels, ready to upload into a freshly
/// allocated GPU texture. `None` when no asset of that name was loaded.
#[verifier::loop_isolation(false)]
pub fn load_img<A: AssetLoader>(assets: &A, name: &str) -> (r: Option<((u32, u32), Vec<u8>)>)
    ensures
        match r {
            Some(img) => assets.assets().contains_key(name@) && img.0.0
                == assets.assets()[name@].width && img.0.1 == assets.assets()[name@].height
                && img.1@ == assets.assets()[name@].texels,
            None => !assets.assets().contains_key(name@),
        },
{
    let img = match assets.get_texture(name) {
        Ok(img) => img,
        Err(_) => {
            return None;
        },
    };
    let mut texels: Vec<u8> = Vec::new();
    let mut i: usize = 0;
    while i < img.texels.len()
        invariant
            i <= img.texels@.len(),
            texels@ == img.texels@.take(i as int),
        decreases img.texels@.len() - i,
    {
        texels.push(img.texels[i]);
        proof {
            assert(texels@ =~= img.texels@.take(i + 1));
        }
        i += 1;
    }
    proof {
        assert(img.texels@.take(img.texels@.len() as int) =~= img.texels@);
    }
    Some(((img.width, img.height), texels))
}

/// A full-screen textured quad effect. The fields are the opaque handles
/// of the GPU resources the instance exclusively owns, all allocated at
/// bootstrap and reused unchanged every frame.
#[derive(Clone, Copy, Debug, PartialEq, Eq, Structural)]
pub struct QuadPipeline {
    /// The texture sampled by the fragment stage.
    pub img_tex: u64,
    /// The compiled shader program.
    pub program: u64,
    /// The attributeless vertex-range descriptor.
    pub attributeless: u64,
    /// The back-target framebuffer the effect draws into.
    pub back_buffer: u64,
}

impl QuadPipeline {
    /// The render pass this instance issues every frame.
    pub open spec fn frame_draw(&self) -> DrawCall {
        DrawCall {
            program: self.program,
            vertex_range: self.attributeless,
            framebuffer: self.back_buffer,
            vertex_count: QUAD_VERTEX_COUNT as u64,
        }
    }
}

/// The sampling policy the effect allocates its texture with: nearest
/// neighbor, no mip levels.
pub open spec fn quad_sampling() -> Sampling {
    Sampling { min_filter: Filter::Nearest, mag_filter: Filter::Nearest, mipmaps: false }
}

/// The four allocations a successful bootstrap makes, in order: a texture
/// of the asset's size and pixels with nearest sampling, the compiled
/// shader program, a six-vertex attributeless range, and the back-target
/// framebuffer sized to the frame — each returning the handle the
/// resulting pipeline owns.
pub open spec fn quad_alloc_plan(img: ImageView, frame_size: [u32; 2], p: QuadPipeline) -> Seq<
    AllocEvent,
> {
    seq![
        AllocEvent::Texture {
            width: img.width as u32,
            height: img.height as u32,
            sampling: quad_sampling(),
            texels: img.texels,
            result: Ok(p.img_tex),
        },
        AllocEvent::Program { result: Ok(p.program) },
        AllocEvent::VertexRange { vertex_count: QUAD_VERTEX_COUNT as u64, result: Ok(p.attributeless) },
        AllocEvent::Framebuffer {
            width: frame_size[0],
            height: frame_size[1],
            result: Ok(p.back_buffer),
        },
    ]
}

/// The allocation attempt of `quad_alloc_plan` at position `step`, as it
/// looks when the context refuses it with `e`.
pub open spec fn quad_failed_alloc(img: ImageView, frame_size: [u32; 2], step: int, e: GpuError) -> AllocEvent {
    if step == 0 {
        AllocEvent::Texture {
            width: img.width as u32,
            height: img.height as u32,
            sampling: quad_sampling(),
            texels: img.texels,
            result: Err(e),
        }
    } else if step == 1 {
        AllocEvent::Program { result: Err(e) }
    } else if step == 2 {
        AllocEvent::VertexRange { vertex_count: QUAD_VERTEX_COUNT as u64, result: Err(e) }
    } else {
        AllocEvent::Framebuffer { width: frame_size[0], height: frame_size[1], result: Err(e) }
    }
}

/// How a failed bootstrap leaves the context: the allocations before
/// `step` succeeded exactly as planned, the attempt at `step` came back
/// with `e` — which bootstrap propagates unchanged — and nothing later
/// was attempted.
pub open spec fn quad_bootstrap_failed(
    pre: Seq<AllocEvent>,
    post: Seq<AllocEvent>,
    img: ImageView,
    frame_size: [u32; 2],
    e: GpuError,
) -> bool {
    exists|step: int, p: QuadPipeline|
        0 <= step <= 3 && post == pre + #[trigger] quad_alloc_plan(img, frame_size, p).take(step).push(
            quad_failed_alloc(img, frame_size, step, e),
        )
}

impl<C: RenderContext> Pipeline<C> for QuadPipeline {
    fn bootstrap<A: AssetLoader>(frame_size: [u32; 2], assets: &A, ctx: &mut C) -> (r: Result<
        Self,
        GpuError,
    >)
        ensures
            !assets.assets().contains_key("test"@) ==> r == Err::<Self, GpuError>(
                GpuError::MissingAsset,
            ) && *final(ctx) == *old(ctx),
            assets.assets().contains_key("test"@) ==> match r {
                Ok(p) => final(ctx).allocs() == old(ctx).allocs() + quad_alloc_plan(
                    assets.assets()["test"@],
                    frame_size,
                    p,
                ),
                Err(e) => quad_bootstrap_failed(
                    old(ctx).allocs(),
                    final(ctx).allocs(),
                    assets.assets()["test"@],
                    frame_size,
                    e,
                ),
            },
    {
        let img = match assets.get_texture("test") {
            Ok(img) => img,
            Err(_) => {
                return Err(GpuError::MissingAsset);
            },
        };
        let ghost iv: ImageView = assets.assets()["test"@];
        let ghost pre: Seq<AllocEvent> = ctx.allocs();
        let sampling = Sampling {
            min_filter: Filter::Nearest,
            mag_filter: Filter::Nearest,
            mipmaps: false,
        };
        let img_tex = match ctx.new_texture(img.width, img.height, sampling, &img.texels) {
            Ok(handle) => handle,
            Err(e) => {
                proof {
                    let p = QuadPipeline { img_tex: 0, program: 0, attributeless: 0, back_buffer: 0 };
                    assert(ctx.allocs() =~= pre + quad_alloc_plan(iv, frame_size, p).take(0).push(
                        quad_failed_alloc(iv, frame_size, 0, e),
                    ));
                }
                return Err(e);
            },
        };
        let program = match ctx.new_program(vertex_shader_source(), fragment_shader_source()) {
            Ok(handle) => handle,
            Err(e) => {
                proof {
                    let p = QuadPipeline { img_tex, program: 0, attributeless: 0, back_buffer: 0 };
                    assert(ctx.allocs() =~= pre + quad_alloc_plan(iv, frame_size, p).take(1).push(
                        quad_failed_alloc(iv, frame_size, 1, e),
                    ));
                }
                return Err(e);
            },
        };
        let attributeless = match ctx.new_vertex_range(QUAD_VERTEX_COUNT) {
            Ok(handle) => handle,
            Err(e) => {
                proof {
                    let p = QuadPipeline { img_tex, program, attributeless: 0, back_buffer: 0 };
                    assert(ctx.allocs() =~= pre + quad_alloc_plan(iv, frame_size, p).take(2).push(
                        quad_failed_alloc(iv, frame_size, 2, e),
                    ));
                }
                return Err(e);
            },
        };
        let back_buffer = match ctx.back_buffer(frame_size[0], frame_size[1]) {
            Ok(handle) => handle,
            Err(e) => {
                proof {
                    let p = QuadPipeline { img_tex, program, attributeless, back_buffer: 0 };
                    assert(ctx.allocs() =~= pre + quad_alloc_plan(iv, frame_size, p).take(3).push(
                        quad_failed_alloc(iv, frame_size, 3, e),
                    ));
                }
                return Err(e);
            },
        };
        let built = QuadPipeline { img_tex, program, attributeless, back_buffer };
        proof {
            assert(ctx.allocs() =~= pre + quad_alloc_plan(iv, frame_size, built));
        }
        Ok(built)
    }

    fn render_frame(self, elapsed_ms: u64, actions: &Vec<InputAction>, ctx: &mut C) -> (r: Result<
        LoopFeedback<Self>,
        GpuError,
    >)
        ensures
            !contains_quit(actions@) && r is Ok ==> r == Ok::<LoopFeedback<Self>, GpuError>(
                LoopFeedback::Continue(self),
            ) && final(ctx).draws() == old(ctx).draws().push(self.frame_draw()),
    {
        if stream_has_quit(actions) {
            return Ok(LoopFeedback::Exit);
        }
        match ctx.draw(
            DrawCall {
                program: self.program,
                vertex_range: self.attributeless,
                framebuffer: self.back_buffer,
                vertex_count: QUAD_VERTEX_COUNT,
            },
        ) {
            Ok(()) => Ok(LoopFeedback::Continue(self)),
            Err(e) => Err(e),
        }
    }
}

} // verus!
