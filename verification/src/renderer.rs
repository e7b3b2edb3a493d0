//! The renderer: owns the resource cache, the render targets and the
//! presentation surface, and turns one `Frame` into a plan of GPU work.
//!
//! Submission is two passes over the frame's renderables in one order: the
//! sync pass brings every slot's buffers up to date, then the draw pass
//! lists one indexed draw per renderable. All uploads stand before any draw
//! in the submitted sequence, so every draw sees this frame's content. The
//! device layer executes the returned plan; it acquires the presentation
//! image first and hands the outcome in, so a failed acquisition leaves the
//! cache untouched.

use vstd::prelude::*;

use crate::cache::{renderable_models, synced_cache, ResourceCache};
use crate::frame::{ClearColor, Frame};
use crate::mesh::INDEX_STRIDE;
use crate::slot::SlotSync;
use crate::surface::{PresentationSurface, RenderTargets, SurfaceConfig, SurfaceState};

verus! {

/// What acquiring the current presentation image came to, as reported by
/// the device layer before the frame is assembled.
#[derive(Clone, Copy, PartialEq, Eq, Structural, Debug)]
pub enum AcquireOutcome {
    /// An image was acquired; the frame can be assembled and presented.
    Acquired,
    /// The surface was lost; the caller must reconstruct it.
    Lost,
    /// The device is out of memory; unrecoverable.
    OutOfMemory,
    /// The surface no longer matches its configuration; transient.
    Outdated,
    /// Acquisition timed out; transient.
    Timeout,
    /// Some other acquisition failure; transient.
    Other,
}

/// Why a submission returned no frame plan.
#[derive(Clone, Copy, PartialEq, Eq, Structural, Debug)]
pub enum PresentError {
    /// The surface was lost: reconstruct it with `recreate`, then continue.
    Lost,
    /// The device is out of memory: stop the run loop.
    OutOfMemory,
    /// The surface was outdated: drop the frame and continue.
    Outdated,
    /// Acquisition timed out: drop the frame and continue.
    Timeout,
    /// Another transient failure: drop the frame and continue.
    Other,
}

/// The error a failed acquisition surfaces as; meaningful only for the
/// outcomes that are failures.
pub open spec fn error_of(acquire: AcquireOutcome) -> PresentError {
    match acquire {
        AcquireOutcome::Acquired => PresentError::Other,
        AcquireOutcome::Lost => PresentError::Lost,
        AcquireOutcome::OutOfMemory => PresentError::OutOfMemory,
        AcquireOutcome::Outdated => PresentError::Outdated,
        AcquireOutcome::Timeout => PresentError::Timeout,
        AcquireOutcome::Other => PresentError::Other,
    }
}

/// One indexed draw: bind the buffer triple of `slot` and draw
/// `index_count` triangle corners.
#[derive(Clone, Copy, PartialEq, Eq, Structural, Debug)]
pub struct DrawCall {
    pub slot: usize,
    pub index_count: u32,
}

/// The GPU work for one frame, in submission order: first mirror the sync
/// actions onto the device buffers, then run one render pass that clears to
/// `clear_color` and issues `draws` in order.
#[derive(Debug)]
pub struct FramePlan {
    pub clear_color: ClearColor,
    pub sync_actions: Vec<SlotSync>,
    pub draws: Vec<DrawCall>,
}

/// The renderer: resource cache, render targets, presentation surface.
pub struct Renderer {
    pub surface: PresentationSurface,
    pub targets: RenderTargets,
    pub cache: ResourceCache,
}

impl Renderer {
    /// Every slot is well formed and the targets are sized exactly to the
    /// surface's configuration.
    pub open spec fn wf(&self) -> bool {
        &&& self.cache.wf()
        &&& self.targets.width == self.surface.config.width
        &&& self.targets.height == self.surface.config.height
    }

    /// A renderer for a freshly configured surface: empty cache, targets
    /// built at the surface's size.
    pub fn new(config: SurfaceConfig) -> (r: Renderer)
        ensures
            r.wf(),
            r.surface.config == config,
            r.surface.state == SurfaceState::Configured,
            r.targets == (RenderTargets { width: config.width, height: config.height }),
            r.cache@.len() == 0,
    {
        Renderer {
            surface: PresentationSurface::new(config),
            targets: RenderTargets::new(config.width, config.height),
            cache: ResourceCache::new(),
        }
    }

    /// Assemble one frame. `acquire` is what acquiring the presentation
    /// image came to. On success the cache is brought up to date with the
    /// frame (sync pass) and the plan lists one indexed draw per renderable
    /// in frame order (draw pass). On failure nothing is touched but the
    /// surface state, and the error says what the caller should do.
    pub fn render(&mut self, frame: &Frame, acquire: AcquireOutcome) -> (r: Result<
        FramePlan,
        PresentError,
    >)
        requires
            old(self).wf(),
            frame.wf(),
            old(self).surface.state == SurfaceState::Configured,
        ensures
            final(self).wf(),
            final(self).surface.config == old(self).surface.config,
            final(self).targets == old(self).targets,
            match r {
                Ok(plan) => {
                    &&& acquire == AcquireOutcome::Acquired
                    &&& final(self).surface.state == SurfaceState::Configured
                    &&& final(self).cache@ == synced_cache(
                        old(self).cache@,
                        renderable_models(*frame),
                    )
                    &&& plan.clear_color == frame.clear_color
                    &&& plan.draws@.len() == frame.renderables@.len()
                    &&& forall|i: int|
                        0 <= i < plan.draws@.len() ==> {
                            &&& (#[trigger] plan.draws@[i]).slot == i
                            &&& plan.draws@[i].index_count as nat == renderable_models(
                                *frame,
                            )[i].index_bytes.len() / (INDEX_STRIDE as nat)
                        }
                    &&& plan.sync_actions@.len() == frame.renderables@.len()
                    &&& forall|i: int|
                        0 <= i < plan.sync_actions@.len() ==> #[trigger] plan.sync_actions@[i]
                            == (if i < old(self).cache@.len() {
                            SlotSync::Updated {
                                vertex_replaced: frame.renderables@[i]@.vertex_bytes.len()
                                    != old(self).cache@[i].vertex.data.len(),
                                index_replaced: frame.renderables@[i]@.index_bytes.len()
                                    != old(self).cache@[i].index.data.len(),
                            }
                        } else {
                            SlotSync::Created
                        })
                },
                Err(e) => {
                    &&& acquire != AcquireOutcome::Acquired
                    &&& e == error_of(acquire)
                    &&& final(self).cache@ == old(self).cache@
                    &&& final(self).surface.state == (if acquire == AcquireOutcome::Lost {
                        SurfaceState::Lost
                    } else {
                        SurfaceState::Configured
                    })
                },
            },
    {
        match acquire {
            AcquireOutcome::Acquired => {},
            AcquireOutcome::Lost => {
                self.surface.note_lost();
                return Err(PresentError::Lost);
            },
            AcquireOutcome::OutOfMemory => {
                return Err(PresentError::OutOfMemory);
            },
            AcquireOutcome::Outdated => {
                return Err(PresentError::Outdated);
            },
            AcquireOutcome::Timeout => {
                return Err(PresentError::Timeout);
            },
            AcquireOutcome::Other => {
                return Err(PresentError::Other);
            },
        }
        // Sync pass: all buffer uploads and reallocations stand before any
        // draw of the same submission.
        let sync_actions = self.cache.sync_pass(frame);
        // Draw pass: one indexed draw per renderable, in the same order.
        let ghost rs = renderable_models(*frame);
        let mut draws: Vec<DrawCall> = Vec::new();
        let mut i: usize = 0;
        while i < frame.renderables.len()
            invariant
                i <= frame.renderables@.len(),
                frame.renderables@.len() <= self.cache@.len(),
                self.cache@ == synced_cache(old(self).cache@, rs),
                rs == renderable_models(*frame),
                draws@.len() == i,
                forall|j: int|
                    0 <= j < i as int ==> {
                        &&& (#[trigger] draws@[j]).slot == j
                        &&& draws@[j].index_count as nat == rs[j].index_bytes.len() / (
                        INDEX_STRIDE as nat)
                    },
            decreases frame.renderables@.len() - i,
        {
            let index_count = self.cache.index_count(i);
            draws.push(DrawCall { slot: i, index_count });
            i = i + 1;
        }
        Ok(FramePlan { clear_color: frame.clear_color, sync_actions, draws })
    }

    /// Apply a size change: store the new size, reconfigure the surface,
    /// and rebuild the render targets at the new size. No resource slot is
    /// affected.
    pub fn resize(&mut self, width: u32, height: u32)
        requires
            old(self).wf(),
        ensures
            final(self).wf(),
            final(self).surface.config == (SurfaceConfig {
                width,
                height,
                ..old(self).surface.config
            }),
            final(self).surface.state == SurfaceState::Configured,
            final(self).targets == (RenderTargets { width, height }),
            final(self).cache@ == old(self).cache@,
    {
        self.surface.request_resize(width, height);
        self.surface.configure();
        self.targets = RenderTargets::new(width, height);
    }

    /// Reconstruct the presentation surface after a loss, reusing the last
    /// known configuration: same size, same format. Targets and cache are
    /// unaffected, since no dimension changed.
    pub fn recreate(&mut self)
        requires
            old(self).wf(),
        ensures
            final(self).wf(),
            final(self).surface.config == old(self).surface.config,
            final(self).surface.state == SurfaceState::Configured,
            final(self).targets == old(self).targets,
            final(self).cache@ == old(self).cache@,
    {
        self.surface.recreate();
    }
}

} // verus!
