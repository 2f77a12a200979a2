//! The frame driver's state, and the decisions it takes around one frame.

use vstd::prelude::*;
use crate::camera_controller::CameraController;
use crate::instance_handler::InstanceHandler;
use crate::key_state::KeyState;
use crate::renderer::{draw_for, on_render, DrawCall, RenderStats};
use crate::table_model::TableView;
use crate::updater::{on_update, upload_of, InstanceUpload};

verus! {

/// The size of the presentation surface in physical pixels.
#[derive(Clone, Copy, PartialEq, Eq, Structural, Debug)]
pub struct SurfaceSize {
    pub width: u32,
    pub height: u32,
}

/// Why the presentation surface gave no frame.
#[derive(Clone, Copy, PartialEq, Eq, Structural, Debug)]
pub enum SurfaceFailure {
    /// The surface was lost and has to be configured again.
    Lost,
    /// The device has no memory left.
    OutOfMemory,
    /// The frame did not arrive in time.
    Timeout,
    /// The surface changed under the frame.
    Outdated,
}

/// What the frame driver does after an attempt to render.
#[derive(Clone, Copy, PartialEq, Eq, Structural, Debug)]
pub enum FrameAction {
    /// The frame was drawn: go on.
    Continue,
    /// Configure the surface again with the current size, then go on.
    Reconfigure,
    /// Shut down in order.
    Exit,
    /// Drop this frame and change nothing.
    Skip,
}

/// The policy for each outcome of a frame: a lost surface is recoverable,
/// exhausted memory is terminal, a late or outdated frame is transient.
pub open spec fn spec_frame_action(outcome: Result<(), SurfaceFailure>) -> FrameAction {
    match outcome {
        Ok(_) => FrameAction::Continue,
        Err(SurfaceFailure::Lost) => FrameAction::Reconfigure,
        Err(SurfaceFailure::OutOfMemory) => FrameAction::Exit,
        Err(SurfaceFailure::Timeout) => FrameAction::Skip,
        Err(SurfaceFailure::Outdated) => FrameAction::Skip,
    }
}

/// Decides what follows the outcome of a frame.
pub fn frame_action(outcome: Result<(), SurfaceFailure>) -> (r: FrameAction)
    ensures
        r == spec_frame_action(outcome),
{
    match outcome {
        Ok(_) => FrameAction::Continue,
        Err(SurfaceFailure::Lost) => FrameAction::Reconfigure,
        Err(SurfaceFailure::OutOfMemory) => FrameAction::Exit,
        Err(SurfaceFailure::Timeout) => FrameAction::Skip,
        Err(SurfaceFailure::Outdated) => FrameAction::Skip,
    }
}

/// Everything the handlers of one frame read and change, passed to each of
/// them in turn by exclusive reference.
pub struct RenderState {
    pub size: SurfaceSize,
    pub camera_controller: CameraController,
    pub instance_handler: InstanceHandler,
    pub key_state: KeyState,
    pub render_stats: RenderStats,
}

impl RenderState {
    /// The state's invariant: that of its instance table.
    pub open spec fn wf(&self) -> bool {
        self.instance_handler.wf()
    }

    /// Builds the state around a given table, with no key held down.
    pub fn new(size: SurfaceSize, instance_handler: InstanceHandler) -> (r: RenderState)
        requires
            instance_handler.wf(),
        ensures
            r.wf(),
            r.size == size,
            r.instance_handler == instance_handler,
            r.key_state@ == Set::<u32>::empty(),
            r.render_stats.draw_calls == 0,
            r.camera_controller == CameraController::spec_idle(),
    {
        RenderState {
            size,
            camera_controller: CameraController::new(),
            instance_handler,
            key_state: KeyState::new(),
            render_stats: RenderStats { draw_calls: 0 },
        }
    }

    /// Takes over a new surface size unless one of its sides is zero, and
    /// says whether the surface has to be configured again.
    pub fn resize(&mut self, new_size: SurfaceSize) -> (reconfigure: bool)
        ensures
            reconfigure == (new_size.width > 0 && new_size.height > 0),
            final(self).size == if reconfigure {
                new_size
            } else {
                old(self).size
            },
            final(self).instance_handler == old(self).instance_handler,
            final(self).key_state == old(self).key_state,
            final(self).render_stats == old(self).render_stats,
            final(self).camera_controller == old(self).camera_controller,
    {
        if new_size.width > 0 && new_size.height > 0 {
            self.size = new_size;
            true
        } else {
            false
        }
    }

    /// Offers a keyboard event to the state itself; it consumes none.
    pub fn input(&self, _event: &crate::key_state::KeyboardInput) -> (consumed: bool)
        ensures
            !consumed,
    {
        false
    }

    /// Synchronizes the frame: plans one instance-buffer write for every
    /// dirty slot and empties the dirty queue.
    pub fn update(&mut self) -> (uploads: Vec<InstanceUpload>)
        requires
            old(self).wf(),
        ensures
            final(self).wf(),
            final(self).instance_handler@ == (TableView {
                dirty: Set::empty(),
                ..old(self).instance_handler@
            }),
            final(self).size == old(self).size,
            final(self).key_state == old(self).key_state,
            final(self).render_stats == old(self).render_stats,
            final(self).camera_controller == old(self).camera_controller,
            forall|i: int|
                0 <= i < uploads@.len() ==> old(self).instance_handler@.dirty.contains(
                    (#[trigger] uploads@[i]).slot as int,
                ) && uploads@[i] == upload_of(old(self).instance_handler@, uploads@[i].slot as int),
            forall|i: int, j: int|
                0 <= i < j < uploads@.len() ==> (#[trigger] uploads@[i]).slot != (
                #[trigger] uploads@[j]).slot,
            forall|s: int| #[trigger]
                old(self).instance_handler@.dirty.contains(s) ==> exists|i: int|
                    0 <= i < uploads@.len() && (#[trigger] uploads@[i]).slot as int == s,
    {
        on_update(&mut self.instance_handler)
    }

    /// Plans the draw calls of the frame, one per bucket, and records their
    /// number in the statistics.
    pub fn render(&mut self) -> (draws: Vec<DrawCall>)
        requires
            old(self).wf(),
        ensures
            final(self).wf(),
            final(self).instance_handler == old(self).instance_handler,
            final(self).size == old(self).size,
            final(self).key_state == old(self).key_state,
            final(self).camera_controller == old(self).camera_controller,
            final(self).render_stats.draw_calls == draws@.len(),
            draws@.len() == old(self).instance_handler@.buckets.len(),
            forall|k: int|
                0 <= k < draws@.len() ==> #[trigger] draws@[k] == draw_for(
                    old(self).instance_handler@.buckets[k],
                ),
    {
        on_render(&self.instance_handler, &mut self.render_stats)
    }
}

} // verus!
