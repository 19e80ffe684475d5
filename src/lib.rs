//! Frame presentation and instance packing for a multi-window scatter-plot
//! renderer.
//!
//! The library holds the bookkeeping of the renderer: the markers of each
//! plot, the shared instance buffer they are packed into, the per-image fence
//! slots of each surface, the surface's swapchain resources, the pipeline
//! cache, the plan of each surface's command buffers and the per-tick
//! decisions of the frame scheduler. The GPU work itself (allocating buffers,
//! recording and submitting commands, waiting on fences, presenting) is done
//! by the caller on the handles that these types carry.
mod circles;
mod device;
mod fence;
mod packer;
mod pipeline;
mod plot;
mod plotter;
mod renderer;
mod surface;

pub use circles::{Circle, MyVertex, TEMPLATE_VERTEX_COUNT, corner, template_spec};
pub use device::{
    DeviceCandidate, DeviceKind, QueueFamily, eligible, first_usable, kind_rank,
    select_physical_device, usable,
};
pub use fence::{FenceView, FrameFenceTracker, SlotError, lemma_one_fence_per_slot};
pub use packer::{
    CircleManadger, DrawCall, DrawError, InstanceRange, PackError, PackerView,
    lemma_packing_slices, lemma_rebuild_idempotent, offset_of, packed, range_for, ranges_match,
    sum_counts, total_markers,
};
pub use pipeline::{PipelineCache, PipelineError, PipelineKey, PipelineView};
pub use plot::{Plot, ScatterError, markers_from_points, point_marker, point_markers};
pub use plotter::{
    EventAction, Plotter, PlotterError, PlotterView, WindowEvent, has_plot, ids_unique,
};
pub use renderer::{
    CLEAR_COLOR, CommandDeps, CommandPlan, CommandSet, RenderError, Renderer, issued,
    lemma_resize_round_trip, plan_command_buffers, plans_for, recorded_for,
};
pub use surface::{
    AcquireDecision, AcquireOutcome, Phase, PresentOutcome, SurfaceError, SurfaceView, TickStep,
    WindowSurface, lemma_stale_acquire_then_resume,
};
