//! The pipeline contract: the two-phase state machine every renderable
//! effect satisfies.
//!
//! An effect is bootstrapped exactly once, allocating every GPU resource
//! it will ever need, and is then advanced frame by frame. Each frame
//! consumes the current instance and yields a replacement (or ends the
//! loop), so no frame ever observes a half-updated pipeline. A frame must
//! drain its action stream fully before drawing: a quit request aborts the
//! frame before any draw call is issued.

pub mod quad;
pub mod triangle;

use vstd::prelude::*;
use crate::assets::AssetLoader;
use crate::input::{contains_quit, InputAction, LoopFeedback};
use crate::render::{GpuError, RenderContext};

verus! {

/// The lifecycle contract of a renderable effect.
///
/// `bootstrap` allocates every resource the effect needs for its whole
/// lifetime and never draws. `render_frame` consumes the instance; its
/// contract is the quit short-circuit law: an action stream holding a
/// quit request yields `Exit` with no draw call issued, whatever else the
/// stream holds; a stream without one never yields `Exit`, and on success
/// the frame issued exactly one render pass. Failures leave the draw
/// record untouched, and no frame presents by itself — presentation is
/// the driver's move.
pub trait Pipeline<C: RenderContext>: Sized {
    /// Allocate every GPU resource the effect needs: textures from
    /// decoded assets, a compiled shader program, a vertex-range
    /// descriptor, and a target framebuffer sized to `frame_size`. A
    /// missing asset or a failed allocation is a reported error, never a
    /// crash; bootstrap itself never draws or presents.
    fn bootstrap<A: AssetLoader>(frame_size: [u32; 2], assets: &A, ctx: &mut C) -> (r: Result<
        Self,
        GpuError,
    >)
        ensures
            final(ctx).draws() == old(ctx).draws(),
            final(ctx).presents() == old(ctx).presents(),
    ;

    /// Advance one frame: drain the action stream, then either exit or
    /// perform exactly one render pass and hand back the replacement
    /// instance.
    fn render_frame(self, elapsed_ms: u64, actions: &Vec<InputAction>, ctx: &mut C) -> (r: Result<
        LoopFeedback<Self>,
        GpuError,
    >)
        ensures
            contains_quit(actions@) ==> (r matches Ok(f) && f is Exit) && final(ctx).draws()
                == old(ctx).draws(),
            !contains_quit(actions@) && r is Ok ==> (r matches Ok(f) && f is Continue)
                && final(ctx).draws().len() == old(ctx).draws().len() + 1,
            r is Err ==> final(ctx).draws() == old(ctx).draws(),
            final(ctx).allocs() == old(ctx).allocs(),
            final(ctx).presents() == old(ctx).presents(),
    ;
}

/// Drain an action stream fully, reporting whether it asks to quit.
#[verifier::loop_isolation(false)]
pub fn stream_has_quit(actions: &Vec<InputAction>) -> (r: bool)
    ensures
        r == contains_quit(actions@),
{
    let mut i: usize = 0;
    while i < actions.len()
        invariant
            i <= actions@.len(),
            forall|j: int| 0 <= j < i ==> !(actions@[j] is Quit),
        decreases actions@.len() - i,
    {
        if let InputAction::Quit = actions[i] {
            proof {
                assert(actions@[i as int] is Quit);
            }
            return true;
        }
        i += 1;
    }
    false
}

} // verus!
