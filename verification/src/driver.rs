//! The frame driver: owns the one live pipeline instance and sequences
//! each iteration — translate the polled events, advance the pipeline,
//! present or terminate.
//!
//! Polling itself is the window layer's affair; the driver here consumes
//! poll cycles that have already been gathered, in delivery order. Every
//! failure is surfaced immediately and ends the loop: a frame error takes
//! the same path as a user quit, reported as an error rather than success.

use vstd::prelude::*;
use crate::input::{adapt_events, contains_quit, translate_spec, InputAction, LoopFeedback,
    PlatformEvent};
use crate::pipeline::Pipeline;
use crate::render::{GpuError, RenderContext};

verus! {

/// An error of the platform layer around the driver.
#[derive(Debug)]
pub enum PlatformError {
    /// The window and its rendering context could not be created.
    CannotCreateWindow,
}

/// One poll cycle handed to the driver: how much time had elapsed when it
/// was polled, in milliseconds, and the events it delivered, in order.
#[derive(Clone, Debug)]
pub struct FramePoll {
    pub elapsed_ms: u64,
    pub events: Vec<PlatformEvent>,
}

/// The actions a sequence of platform events translates to, in delivery
/// order: each event contributes its translation, suppressed events
/// contribute nothing.
pub open spec fn translated(events: Seq<PlatformEvent>) -> Seq<InputAction>
    decreases events.len(),
{
    if events.len() == 0 {
        Seq::empty()
    } else {
        translated(events.drop_last()) + match translate_spec(events.last()) {
            Some(action) => seq![action],
            None => Seq::empty(),
        }
    }
}

/// Translate one poll cycle's events into the semantic action stream, in
/// the order the platform delivered them.
#[verifier::loop_isolation(false)]
pub fn translate_batch(events: &Vec<PlatformEvent>) -> (r: Vec<InputAction>)
    ensures
        r@ == translated(events@),
{
    let mut out: Vec<InputAction> = Vec::new();
    let mut i: usize = 0;
    while i < events.len()
        invariant
            i <= events@.len(),
            out@ == translated(events@.take(i as int)),
        decreases events@.len() - i,
    {
        proof {
            assert(events@.take(i + 1).drop_last() =~= events@.take(i as int));
            assert(events@.take(i + 1).last() == events@[i as int]);
        }
        match adapt_events(events[i]) {
            Some(action) => {
                out.push(action);
                proof {
                    assert(out@ =~= translated(events@.take(i + 1)));
                }
            },
            None => {
                proof {
                    assert(out@ =~= translated(events@.take(i + 1)));
                }
            },
        }
        i += 1;
    }
    proof {
        assert(events@.take(events@.len() as int) =~= events@);
    }
    out
}

/// How a driver run ended.
pub enum DriveOutcome<P> {
    /// A frame asked to exit: the clean termination path.
    Exited,
    /// A frame failed mid-draw; the loop ends on the same path as a quit,
    /// reported as an error.
    Failed(GpuError),
    /// Every poll cycle was consumed and the effect is still live; the
    /// one owned instance rides along.
    Pending(P),
}

/// Run the frame loop over the given poll cycles: translate each cycle's
/// events, advance the pipeline, and present once per continued frame —
/// never on exit or error. The driver owns exactly one live pipeline
/// instance at any time; each continued frame moves ownership to the
/// replacement instance the pipeline returned.
#[verifier::loop_isolation(false)]
pub fn drive<C: RenderContext, P: Pipeline<C>>(
    pipeline: P,
    frames: &Vec<FramePoll>,
    ctx: &mut C,
) -> (r: DriveOutcome<P>)
    ensures
        final(ctx).presents() == old(ctx).presents() + final(ctx).draws().len() - old(
            ctx,
        ).draws().len(),
        final(ctx).allocs() == old(ctx).allocs(),
        frames@.len() == 0 ==> r is Pending,
        r is Pending ==> forall|i: int|
            0 <= i < frames@.len() ==> !contains_quit(translated(#[trigger] frames@[i].events@)),
        r is Pending ==> final(ctx).draws().len() == old(ctx).draws().len() + frames@.len(),
        r is Exited ==> exists|i: int|
            0 <= i < frames@.len() && contains_quit(translated(#[trigger] frames@[i].events@)) && (
            forall|j: int| 0 <= j < i ==> !contains_quit(translated(#[trigger] frames@[j].events@)))
                && final(ctx).draws().len() == old(ctx).draws().len() + i && final(ctx).presents()
                == old(ctx).presents() + i,
        r is Failed ==> exists|i: int|
            0 <= i < frames@.len() && !contains_quit(translated(#[trigger] frames@[i].events@)) && (
            forall|j: int| 0 <= j < i ==> !contains_quit(translated(#[trigger] frames@[j].events@)))
                && final(ctx).draws().len() == old(ctx).draws().len() + i && final(ctx).presents()
                == old(ctx).presents() + i,
{
    let mut current = pipeline;
    let mut i: usize = 0;
    while i < frames.len()
        invariant
            i <= frames@.len(),
            ctx.draws().len() == old(ctx).draws().len() + i,
            ctx.presents() == old(ctx).presents() + i,
            ctx.allocs() == old(ctx).allocs(),
            forall|j: int|
                0 <= j < i ==> !contains_quit(translated(#[trigger] frames@[j].events@)),
        decreases frames@.len() - i,
    {
        let frame = &frames[i];
        let actions = translate_batch(&frame.events);
        match current.render_frame(frame.elapsed_ms, &actions, ctx) {
            Ok(LoopFeedback::Continue(next)) => {
                current = next;
                ctx.present();
            },
            Ok(LoopFeedback::Exit) => {
                proof {
                    assert(contains_quit(translated(frames@[i as int].events@)));
                }
                return DriveOutcome::Exited;
            },
            Err(e) => {
                proof {
                    assert(!contains_quit(translated(frames@[i as int].events@)));
                }
                return DriveOutcome::Failed(e);
            },
        }
        i += 1;
    }
    DriveOutcome::Pending(current)
}

} // verus!
