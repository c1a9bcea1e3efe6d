//! The rendering context, as the pipelines see it: an opaque collaborator
//! that allocates GPU resources and issues draw calls, any of which may
//! fail mid-frame.
//!
//! The contract of the context is stated over three observations: the
//! ordered sequence of allocation attempts (each with its parameters and
//! its outcome), the ordered sequence of draw calls issued, and the
//! number of frames presented. An allocation appends exactly its own
//! attempt and never draws or presents; a draw appends exactly one call
//! when it succeeds and nothing when it fails. Resources are named by
//! opaque handles; a handle is valid only against the context that
//! produced it.

use vstd::prelude::*;

verus! {

/// Why a pipeline operation failed: a rendering-context call went wrong,
/// or bootstrap was missing an input it needs.
#[derive(Clone, Copy, Debug, PartialEq, Eq, Structural)]
pub enum GpuError {
    /// A texture could not be allocated or filled.
    TextureAllocation,
    /// The shader program would not compile or link.
    ProgramCompilation,
    /// A vertex-range descriptor could not be allocated.
    VertexAllocation,
    /// The target framebuffer could not be allocated.
    FramebufferAllocation,
    /// A draw call failed mid-frame.
    Draw,
    /// Bootstrap did not find a texture it needs in the asset cache.
    MissingAsset,
}

/// How a texture is sampled.
#[derive(Clone, Copy, Debug, PartialEq, Eq, Structural)]
pub enum Filter {
    Nearest,
    Linear,
}

/// The sampling policy a texture is allocated with.
#[derive(Clone, Copy, Debug, PartialEq, Eq, Structural)]
pub struct Sampling {
    pub min_filter: Filter,
    pub mag_filter: Filter,
    pub mipmaps: bool,
}

/// One allocation attempt made against a context: which kind of resource
/// was asked for, with which parameters, and what came back — the handle
/// on success, the context's own error on failure.
pub ghost enum AllocEvent {
    Texture { width: u32, height: u32, sampling: Sampling, texels: Seq<u8>, result: Result<u64, GpuError> },
    Program { result: Result<u64, GpuError> },
    VertexRange { vertex_count: u64, result: Result<u64, GpuError> },
    Framebuffer { width: u32, height: u32, result: Result<u64, GpuError> },
}

/// One render pass, as issued against a context: which program ran, over
/// which vertex range, into which framebuffer, and how many vertices were
/// requested.
#[derive(Clone, Copy, Debug, PartialEq, Eq, Structural)]
pub struct DrawCall {
    pub program: u64,
    pub vertex_range: u64,
    pub framebuffer: u64,
    pub vertex_count: u64,
}

/// The operations a rendering context offers to pipelines.
///
/// Whatever the context does with a call, the contract pins down how the
/// two observations move: allocations leave both untouched, a successful
/// draw appends its call, presentation counts one frame. Whether a call
/// succeeds is the context's own affair — no pipeline may rely on it.
pub trait RenderContext: Sized {
    /// Every draw call issued through this context so far, in order.
    spec fn draws(&self) -> Seq<DrawCall>;

    /// How many finished frames have been presented so far.
    spec fn presents(&self) -> nat;

    /// Every allocation attempted against this context so far, in order,
    /// each with its parameters and its outcome.
    spec fn allocs(&self) -> Seq<AllocEvent>;

    /// Allocate a texture of the given size and sampling policy and
    /// upload a packed three-channel pixel buffer into it.
    fn new_texture(&mut self, width: u32, height: u32, sampling: Sampling, texels: &Vec<u8>) -> (r:
        Result<u64, GpuError>)
        ensures
            final(self).allocs() == old(self).allocs().push(
                AllocEvent::Texture {
                    width,
                    height,
                    sampling,
                    texels: texels@,
                    result: r,
                },
            ),
            final(self).draws() == old(self).draws(),
            final(self).presents() == old(self).presents(),
    ;

    /// Compile and link a shader program from vertex and fragment source.
    fn new_program(&mut self, vertex_src: &str, fragment_src: &str) -> (r: Result<u64, GpuError>)
        ensures
            final(self).allocs() == old(self).allocs().push(AllocEvent::Program { result: r }),
            final(self).draws() == old(self).draws(),
            final(self).presents() == old(self).presents(),
    ;

    /// Allocate a descriptor asking for the given number of vertices with
    /// no per-vertex attribute data.
    fn new_vertex_range(&mut self, vertex_count: u64) -> (r: Result<u64, GpuError>)
        ensures
            final(self).allocs() == old(self).allocs().push(
                AllocEvent::VertexRange { vertex_count, result: r },
            ),
            final(self).draws() == old(self).draws(),
            final(self).presents() == old(self).presents(),
    ;

    /// Allocate the back-target framebuffer, sized to the frame.
    fn back_buffer(&mut self, width: u32, height: u32) -> (r: Result<u64, GpuError>)
        ensures
            final(self).allocs() == old(self).allocs().push(
                AllocEvent::Framebuffer { width, height, result: r },
            ),
            final(self).draws() == old(self).draws(),
            final(self).presents() == old(self).presents(),
    ;

    /// Issue one render pass. On success exactly the given call is
    /// appended to the draw record; on failure nothing is.
    fn draw(&mut self, call: DrawCall) -> (r: Result<(), GpuError>)
        ensures
            r is Ok ==> final(self).draws() == old(self).draws().push(call),
            r is Err ==> final(self).draws() == old(self).draws(),
            final(self).allocs() == old(self).allocs(),
            final(self).presents() == old(self).presents(),
    ;

    /// Present the finished frame.
    fn present(&mut self)
        ensures
            final(self).draws() == old(self).draws(),
            final(self).allocs() == old(self).allocs(),
            final(self).presents() == old(self).presents() + 1,
    ;
}

/// A rendering context that records what is asked of it: handles are
/// consecutive integers, draw calls are kept in order. It stands in for a
/// real device wherever the frame core is exercised without one, and it
/// can be told to refuse draw calls to exercise mid-frame failure.
pub struct RecordingContext {
    /// The next handle to give out.
    pub next_handle: u64,
    /// Every draw call issued so far, in order.
    pub draw_log: Vec<DrawCall>,
    /// When set, every draw call fails with `GpuError::Draw`.
    pub fail_draws: bool,
    /// How many frames were presented.
    pub presented: Ghost<nat>,
    /// Every allocation attempted so far, in order.
    pub alloc_log: Ghost<Seq<AllocEvent>>,
}

impl RecordingContext {
    pub fn new() -> (r: Self)
        ensures
            r.draws() == Seq::<DrawCall>::empty(),
            r.allocs() == Seq::<AllocEvent>::empty(),
            r.presents() == 0,
            r.next_handle == 0,
            !r.fail_draws,
    {
        RecordingContext {
            next_handle: 0,
            draw_log: Vec::new(),
            fail_draws: false,
            presented: Ghost(0),
            alloc_log: Ghost(Seq::empty()),
        }
    }

    /// Hand out the next handle, or report the given failure when the
    /// handle space is exhausted.
    fn allocate(&mut self, kind: GpuError) -> (r: Result<u64, GpuError>)
        ensures
            final(self).draws() == old(self).draws(),
            final(self).allocs() == old(self).allocs(),
            final(self).presents() == old(self).presents(),
            old(self).next_handle < u64::MAX ==> r == Ok::<u64, GpuError>(old(self).next_handle)
                && final(self).next_handle == old(self).next_handle + 1,
            old(self).next_handle == u64::MAX ==> r == Err::<u64, GpuError>(kind)
                && final(self).next_handle == old(self).next_handle,
            final(self).fail_draws == old(self).fail_draws,
    {
        if self.next_handle == u64::MAX {
            Err(kind)
        } else {
            let handle = self.next_handle;
            self.next_handle = self.next_handle + 1;
            Ok(handle)
        }
    }
}

impl RenderContext for RecordingContext {
    open spec fn draws(&self) -> Seq<DrawCall> {
        self.draw_log@
    }

    open spec fn presents(&self) -> nat {
        self.presented@
    }

    open spec fn allocs(&self) -> Seq<AllocEvent> {
        self.alloc_log@
    }

    fn new_texture(&mut self, width: u32, height: u32, sampling: Sampling, texels: &Vec<u8>) -> (r:
        Result<u64, GpuError>)
        ensures
            old(self).next_handle < u64::MAX ==> r == Ok::<u64, GpuError>(old(self).next_handle)
                && final(self).next_handle == old(self).next_handle + 1,
            old(self).next_handle == u64::MAX ==> r == Err::<u64, GpuError>(
                GpuError::TextureAllocation,
            ),
            final(self).fail_draws == old(self).fail_draws,
    {
        let r = self.allocate(GpuError::TextureAllocation);
        self.alloc_log = Ghost(
            self.alloc_log@.push(
                AllocEvent::Texture { width, height, sampling, texels: texels@, result: r },
            ),
        );
        r
    }

    fn new_program(&mut self, vertex_src: &str, fragment_src: &str) -> (r: Result<u64, GpuError>)
        ensures
            old(self).next_handle < u64::MAX ==> r == Ok::<u64, GpuError>(old(self).next_handle)
                && final(self).next_handle == old(self).next_handle + 1,
            old(self).next_handle == u64::MAX ==> r == Err::<u64, GpuError>(
                GpuError::ProgramCompilation,
            ),
            final(self).fail_draws == old(self).fail_draws,
    {
        let r = self.allocate(GpuError::ProgramCompilation);
        self.alloc_log = Ghost(self.alloc_log@.push(AllocEvent::Program { result: r }));
        r
    }

    fn new_vertex_range(&mut self, vertex_count: u64) -> (r: Result<u64, GpuError>)
        ensures
            old(self).next_handle < u64::MAX ==> r == Ok::<u64, GpuError>(old(self).next_handle)
                && final(self).next_handle == old(self).next_handle + 1,
            old(self).next_handle == u64::MAX ==> r == Err::<u64, GpuError>(
                GpuError::VertexAllocation,
            ),
            final(self).fail_draws == old(self).fail_draws,
    {
        let r = self.allocate(GpuError::VertexAllocation);
        self.alloc_log = Ghost(
            self.alloc_log@.push(AllocEvent::VertexRange { vertex_count, result: r }),
        );
        r
    }

    fn back_buffer(&mut self, width: u32, height: u32) -> (r: Result<u64, GpuError>)
        ensures
            old(self).next_handle < u64::MAX ==> r == Ok::<u64, GpuError>(old(self).next_handle)
                && final(self).next_handle == old(self).next_handle + 1,
            old(self).next_handle == u64::MAX ==> r == Err::<u64, GpuError>(
                GpuError::FramebufferAllocation,
            ),
            final(self).fail_draws == old(self).fail_draws,
    {
        let r = self.allocate(GpuError::FramebufferAllocation);
        self.alloc_log = Ghost(
            self.alloc_log@.push(AllocEvent::Framebuffer { width, height, result: r }),
        );
        r
    }

    fn draw(&mut self, call: DrawCall) -> (r: Result<(), GpuError>)
        ensures
            r == (if old(self).fail_draws {
                Err::<(), GpuError>(GpuError::Draw)
            } else {
                Ok::<(), GpuError>(())
            }),
            final(self).fail_draws == old(self).fail_draws,
            final(self).next_handle == old(self).next_handle,
    {
        if self.fail_draws {
            Err(GpuError::Draw)
        } else {
            self.draw_log.push(call);
            Ok(())
        }
    }

    fn present(&mut self)
        ensures
            final(self).fail_draws == old(self).fail_draws,
            final(self).next_handle == old(self).next_handle,
    {
        self.presented = Ghost(self.presented@ + 1);
    }
}

} // verus!
