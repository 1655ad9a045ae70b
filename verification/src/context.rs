//! Per-session render state and the decisions of one frame: crop recompute,
//! intermediate-texture upkeep, swap-chain resize detection, overlay
//! composition, draw planning, and the reaction to a failed present.
//!
//! GPU objects appear as descriptors with an integer identity: two values
//! with one identity are one object, so "not recreated" is "same identity".

use vstd::prelude::*;
use crate::geom::{ContentSize, PixelRect, spec_uv_of_crop, uv_of_crop};
use crate::mesh::{Mesh, compose_overlay, spec_compose_overlay};
use crate::renderer::{RenderPass, plan_draws, spec_plan_draws, spec_mesh_views};
use crate::ui::UiState;

verus! {

/// A swap chain as the session sees it: an object identity, the size its
/// buffers were last allocated with, and a generation count that moves
/// exactly when the buffers are reallocated.
#[derive(Clone, Copy, PartialEq, Eq, Structural, Debug)]
pub struct SwapChain {
    pub id: u64,
    pub width: u32,
    pub height: u32,
    pub buffer_generation: u64,
}

/// The physical extent of a GPU texture.
#[derive(Clone, Copy, PartialEq, Eq, Structural, Debug)]
pub struct TextureDesc {
    pub width: u32,
    pub height: u32,
}

/// One captured frame: the content extent the capture source reports and the
/// physical extent of the texture that backs it.
#[derive(Clone, Copy, PartialEq, Eq, Structural, Debug)]
pub struct FrameInfo {
    pub content: ContentSize,
    pub phys: TextureDesc,
}

/// Per-session mutable render state.
#[derive(Clone, Debug)]
pub struct RenderContext {
    /// The crop in screen coordinates, present in region-capture mode.
    pub source_crop: Option<PixelRect>,
    /// Content extent of the last processed frame.
    pub last_size: ContentSize,
    /// The presentation surface.
    pub swap_chain: SwapChain,
    /// The GPU-local copy of the captured frame, once one was made.
    pub intermediate: Option<TextureDesc>,
    /// Whether the shader view cached for the intermediate texture is current.
    pub cache_srv_valid: bool,
    /// Identifiers of the overlay textures currently uploaded.
    pub overlay_textures: Vec<u64>,
}

/// The mathematical content of a render context.
pub struct ContextModel {
    pub source_crop: Option<PixelRect>,
    pub last_size: ContentSize,
    pub swap_chain: SwapChain,
    pub intermediate: Option<TextureDesc>,
    pub cache_srv_valid: bool,
    pub overlay_textures: Seq<u64>,
}

impl View for RenderContext {
    type V = ContextModel;

    open spec fn view(&self) -> ContextModel {
        ContextModel {
            source_crop: self.source_crop,
            last_size: self.last_size,
            swap_chain: self.swap_chain,
            intermediate: self.intermediate,
            cache_srv_valid: self.cache_srv_valid,
            overlay_textures: self.overlay_textures@,
        }
    }
}

impl ContextModel {
    /// A cached shader view is always a view of the intermediate texture, so
    /// it cannot be current while no such texture exists. Swap-chain buffers
    /// are never allocated with a zero side.
    pub open spec fn wf(self) -> bool {
        &&& self.cache_srv_valid ==> self.intermediate is Some
        &&& self.swap_chain.width >= 1
        &&& self.swap_chain.height >= 1
    }
}

/// What the frame-arrival callback decided before rendering: whether the
/// frame pool must be reallocated, and the aspect-ratio notification to send.
#[derive(Clone, Copy, PartialEq, Eq, Structural, Debug)]
pub struct FrameArrival {
    pub recreate_pool: bool,
    pub ratio_event: Option<ContentSize>,
}

/// A content extent of at most one pixel on a side means the source window is
/// minimized and the frame carries no image worth copying.
pub open spec fn spec_minimized(c: ContentSize) -> bool {
    c.width < 2 || c.height < 2
}

/// `s` with every occurrence of `id` taken out, order kept.
pub open spec fn spec_without_id(s: Seq<u64>, id: u64) -> Seq<u64>
    decreases s.len(),
{
    if s.len() == 0 {
        Seq::empty()
    } else {
        let prefix = spec_without_id(s.drop_last(), id);
        if s.last() == id {
            prefix
        } else {
            prefix.push(s.last())
        }
    }
}

/// The context after the frame-arrival callback saw content extent `content`.
pub open spec fn spec_frame_arrival_ctx(ctx: ContextModel, content: ContentSize) -> ContextModel {
    if content != ctx.last_size {
        ContextModel { last_size: content, cache_srv_valid: false, ..ctx }
    } else {
        ctx
    }
}

/// What the callback does about a frame with content extent `content`.
pub open spec fn spec_frame_arrival_out(ctx: ContextModel, content: ContentSize) -> FrameArrival {
    if content != ctx.last_size {
        FrameArrival { recreate_pool: true, ratio_event: Some(content) }
    } else {
        FrameArrival { recreate_pool: false, ratio_event: None }
    }
}

/// The overlay state after a render step that sees content extent `content`:
/// in region mode and with a usable extent, the normalized crop is recomputed
/// from the current extent, because the extent can change between frames.
pub open spec fn spec_step_ui(source_crop: Option<PixelRect>, ui: UiState, content: ContentSize) -> UiState {
    match source_crop {
        Some(crop) => if content.width >= 1 && content.height >= 1 {
            UiState { crop: spec_uv_of_crop(crop, content), ..ui }
        } else {
            ui
        },
        None => ui,
    }
}

/// Whether a render step seeing frame `frame` reallocates the intermediate
/// texture: only when the physical extent changed (or no copy exists yet),
/// and never for a minimized source.
pub open spec fn spec_step_recreates_intermediate(ctx: ContextModel, frame: FrameInfo) -> bool {
    &&& !spec_minimized(frame.content)
    &&& match ctx.intermediate {
        Some(t) => t != frame.phys,
        None => true,
    }
}

/// The intermediate texture after the step.
pub open spec fn spec_step_intermediate(ctx: ContextModel, frame: FrameInfo) -> Option<TextureDesc> {
    if spec_step_recreates_intermediate(ctx, frame) {
        Some(frame.phys)
    } else {
        ctx.intermediate
    }
}

/// Whether the step resizes the swap-chain buffers: exactly when the
/// described size differs from the client area.
pub open spec fn spec_step_resizes_swap(ctx: ContextModel, client_w: i32, client_h: i32) -> bool {
    ctx.swap_chain.width != client_w as u32 || ctx.swap_chain.height != client_h as u32
}

/// A generation count one reallocation later.
pub open spec fn spec_next_generation(g: u64) -> u64 {
    if g == u64::MAX {
        g
    } else {
        (g + 1) as u64
    }
}

/// The swap chain after the step: the same object, its buffers reallocated
/// only on a size mismatch.
pub open spec fn spec_step_swap(ctx: ContextModel, client_w: i32, client_h: i32) -> SwapChain {
    if spec_step_resizes_swap(ctx, client_w, client_h) {
        SwapChain {
            id: ctx.swap_chain.id,
            width: client_w as u32,
            height: client_h as u32,
            buffer_generation: spec_next_generation(ctx.swap_chain.buffer_generation),
        }
    } else {
        ctx.swap_chain
    }
}

/// The whole context after one render step.
pub open spec fn spec_render_step_ctx(ctx: ContextModel, frame: FrameInfo, client_w: i32, client_h: i32) -> ContextModel {
    ContextModel {
        intermediate: spec_step_intermediate(ctx, frame),
        cache_srv_valid: spec_step_intermediate(ctx, frame) is Some,
        swap_chain: spec_step_swap(ctx, client_w, client_h),
        ..ctx
    }
}

impl RenderContext {
    /// First step of the frame-arrival callback: when the content extent
    /// changed since the last frame, remember it, invalidate the cached
    /// shader view, reallocate the pool and notify the host — all exactly
    /// once; an unchanged extent does nothing.
    pub fn on_frame_arrived(&mut self, content: ContentSize) -> (r: FrameArrival)
        ensures
            final(self)@ == spec_frame_arrival_ctx(old(self)@, content),
            r == spec_frame_arrival_out(old(self)@, content),
    {
        if content.width != self.last_size.width || content.height != self.last_size.height {
            self.last_size = content;
            self.cache_srv_valid = false;
            FrameArrival { recreate_pool: true, ratio_event: Some(content) }
        } else {
            FrameArrival { recreate_pool: false, ratio_event: None }
        }
    }

    /// Drop the shader view of an overlay texture the composer freed.
    pub fn remove_overlay_texture(&mut self, id: u64)
        ensures
            final(self)@ == (ContextModel {
                overlay_textures: spec_without_id(old(self)@.overlay_textures, id),
                ..old(self)@
            }),
    {
        let mut kept: Vec<u64> = Vec::new();
        let mut i: usize = 0;
        while i < self.overlay_textures.len()
            invariant
                i <= self.overlay_textures@.len(),
                kept@ == spec_without_id(self.overlay_textures@.take(i as int), id),
            decreases self.overlay_textures@.len() - i,
        {
            let x = self.overlay_textures[i];
            if x != id {
                kept.push(x);
            }
            proof {
                let s = self.overlay_textures@;
                assert(s.take(i + 1).drop_last() =~= s.take(i as int));
                assert(s.take(i + 1).last() == s[i as int]);
            }
            i = i + 1;
        }
        proof {
            assert(self.overlay_textures@.take(self.overlay_textures@.len() as int)
                =~= self.overlay_textures@);
        }
        self.overlay_textures = kept;
    }

    /// Record an overlay texture the composer uploaded or replaced. A
    /// replacement leaves the set of identifiers as it was.
    pub fn insert_overlay_texture(&mut self, id: u64)
        ensures
            final(self)@ == (ContextModel {
                overlay_textures: if old(self)@.overlay_textures.contains(id) {
                    old(self)@.overlay_textures
                } else {
                    old(self)@.overlay_textures.push(id)
                },
                ..old(self)@
            }),
    {
        let mut i: usize = 0;
        while i < self.overlay_textures.len()
            invariant
                i <= self.overlay_textures@.len(),
                forall|j: int| 0 <= j < i ==> self.overlay_textures@[j] != id,
            decreases self.overlay_textures@.len() - i,
        {
            if self.overlay_textures[i] == id {
                return ;
            }
            i = i + 1;
        }
        self.overlay_textures.push(id);
    }
}

/// What one render step did, besides its mesh list and draw plan.
#[derive(Clone, Debug)]
pub struct FramePlan {
    /// The source was minimized, so the placeholder was composed and the
    /// frame was not copied.
    pub minimized: bool,
    /// The intermediate texture was reallocated for a new physical extent.
    pub intermediate_recreated: bool,
    /// The captured texture was copied into the intermediate texture.
    pub copy_frame: bool,
    /// The swap-chain buffers were resized to the client area.
    pub swap_resized: bool,
    /// A shader view for the intermediate texture was (re)created.
    pub srv_created: bool,
    /// The overlay composed for this frame.
    pub meshes: Vec<Mesh>,
    /// The draw calls submitted for this frame.
    pub pass: RenderPass,
}

/// Everything a render step's outputs owe to the state it started from:
/// `ctx` and `ui` are the context and overlay state before the step.
pub open spec fn spec_plan_matches(
    plan: FramePlan,
    ctx: ContextModel,
    ui: UiState,
    frame: FrameInfo,
    client_w: i32,
    client_h: i32,
) -> bool {
    let snap = spec_step_ui(ctx.source_crop, ui, frame.content).spec_snapshot();
    let model = spec_compose_overlay(snap, client_w, client_h, spec_minimized(frame.content));
    &&& plan.minimized == spec_minimized(frame.content)
    &&& plan.intermediate_recreated == spec_step_recreates_intermediate(ctx, frame)
    &&& plan.copy_frame == (!spec_minimized(frame.content)
        && spec_step_intermediate(ctx, frame) is Some)
    &&& plan.swap_resized == spec_step_resizes_swap(ctx, client_w, client_h)
    &&& plan.srv_created == (spec_step_intermediate(ctx, frame) is Some
        && (plan.intermediate_recreated || !ctx.cache_srv_valid))
    &&& plan.meshes@.len() == model.len()
    &&& (forall|i: int| 0 <= i < plan.meshes@.len() ==> #[trigger] plan.meshes@[i]@ == model[i])
    &&& plan.pass.use_gray == ui.use_gray
    &&& plan.pass.draws@ == spec_plan_draws(spec_mesh_views(plan.meshes@), client_w, client_h)
}

impl RenderContext {
    /// Turn one captured frame into a composed, planned frame, updating the
    /// cached state the way the render step does: recompute the crop from
    /// the current content extent, keep the intermediate texture in step
    /// with the physical extent, resize the swap chain only on a client-area
    /// mismatch, recreate the cached shader view only when it is missing,
    /// and compose either the video quad or the minimized placeholder.
    pub fn render_step(&mut self, ui: &mut UiState, frame: FrameInfo, client_w: i32, client_h: i32) -> (plan: FramePlan)
        requires
            1 <= client_w,
            1 <= client_h,
            old(self)@.wf(),
        ensures
            final(self)@.wf(),
            final(self)@ == spec_render_step_ctx(old(self)@, frame, client_w, client_h),
            *final(ui) == spec_step_ui(old(self)@.source_crop, *old(ui), frame.content),
            spec_plan_matches(plan, old(self)@, *old(ui), frame, client_w, client_h),
    {
        // Region mode: the normalized crop follows the current content extent.
        if let Some(crop) = self.source_crop {
            if let Some(uv) = uv_of_crop(crop, frame.content) {
                ui.crop = uv;
            }
        }

        let minimized = frame.content.width < 2 || frame.content.height < 2;

        // Keep a GPU-local copy of the frame; reallocate it only when the
        // physical extent changed, and invalidate the cached view with it.
        let needs_new = match &self.intermediate {
            Some(t) => t.width != frame.phys.width || t.height != frame.phys.height,
            None => true,
        };
        let intermediate_recreated = needs_new && !minimized;
        if intermediate_recreated {
            self.intermediate = Some(frame.phys);
            self.cache_srv_valid = false;
        }
        let copy_frame = !minimized && self.intermediate.is_some();

        // The host window may have been resized since the last frame.
        let swap_resized = self.swap_chain.width != client_w as u32
            || self.swap_chain.height != client_h as u32;
        if swap_resized {
            let g = self.swap_chain.buffer_generation;
            self.swap_chain = SwapChain {
                id: self.swap_chain.id,
                width: client_w as u32,
                height: client_h as u32,
                buffer_generation: if g == u64::MAX { g } else { g + 1 },
            };
        }

        // Snapshot the overlay state; composition and planning read the copy.
        let snap = ui.snapshot();

        let meshes = compose_overlay(&snap, client_w, client_h, minimized);

        // Recreate the shader view only when the cached one is gone.
        let srv_created = !self.cache_srv_valid && self.intermediate.is_some();
        if srv_created {
            self.cache_srv_valid = true;
        }

        let pass = plan_draws(&meshes, client_w, client_h, snap.use_gray);

        FramePlan {
            minimized,
            intermediate_recreated,
            copy_frame,
            swap_resized,
            srv_created,
            meshes,
            pass,
        }
    }

    /// Redraw from the cached intermediate texture, without a new capture
    /// frame: used when a toggle must show at once. Returns `None` when no
    /// frame was ever copied. The context itself is left untouched.
    pub fn redraw_cached(&self, ui: &UiState, client_w: i32, client_h: i32) -> (r: Option<(Vec<Mesh>, RenderPass)>)
        requires
            1 <= client_w,
            1 <= client_h,
        ensures
            r is Some <==> self.intermediate is Some,
            spec_redraw_matches(r, *ui, client_w, client_h),
    {
        if self.intermediate.is_none() {
            return None;
        }
        let snap = ui.snapshot();
        let meshes = compose_overlay(&snap, client_w, client_h, false);
        let pass = plan_draws(&meshes, client_w, client_h, snap.use_gray);
        Some((meshes, pass))
    }
}

/// What an out-of-band redraw from the cached frame owes to the overlay
/// state it read: the video quad composed from it (never the placeholder)
/// and the draws planned under its luminance setting.
pub open spec fn spec_redraw_matches(
    r: Option<(Vec<Mesh>, RenderPass)>,
    ui: UiState,
    client_w: i32,
    client_h: i32,
) -> bool {
    r is Some ==> ({
        let (meshes, pass) = r->0;
        let model = spec_compose_overlay(ui.spec_snapshot(), client_w, client_h, false);
        &&& meshes@.len() == model.len()
        &&& (forall|i: int| 0 <= i < meshes@.len() ==> #[trigger] meshes@[i]@ == model[i])
        &&& pass.use_gray == ui.use_gray
        &&& pass.draws@ == spec_plan_draws(spec_mesh_views(meshes@), client_w, client_h)
    })
}

/// What presentation reported.
#[derive(Clone, Copy, PartialEq, Eq, Structural, Debug)]
pub enum PresentStatus {
    Presented,
    DeviceRemoved,
    DeviceReset,
    OtherFailure,
}

/// Whether the session's render loop goes on after a present.
#[derive(Clone, Copy, PartialEq, Eq, Structural, Debug)]
pub enum FrameOutcome {
    Continue,
    FatalDeviceLost,
}

/// A lost device ends the session's render loop; every other failure is
/// swallowed, since the next frame event retries naturally.
pub open spec fn spec_present_outcome(status: PresentStatus) -> FrameOutcome {
    if status is DeviceRemoved || status is DeviceReset {
        FrameOutcome::FatalDeviceLost
    } else {
        FrameOutcome::Continue
    }
}

/// Decide the fate of the render loop from what presentation reported.
pub fn present_outcome(status: PresentStatus) -> (r: FrameOutcome)
    ensures
        r == spec_present_outcome(status),
{
    match status {
        PresentStatus::DeviceRemoved => FrameOutcome::FatalDeviceLost,
        PresentStatus::DeviceReset => FrameOutcome::FatalDeviceLost,
        PresentStatus::Presented => FrameOutcome::Continue,
        PresentStatus::OtherFailure => FrameOutcome::Continue,
    }
}

/// Law: frame-arrival steps reallocate and notify exactly on a change. After
/// any arrival, a second arrival with the same extent does neither; an
/// arrival with a new extent does both, once.
pub proof fn lemma_frame_arrival_once(ctx: ContextModel, a: ContentSize, b: ContentSize)
    ensures
        spec_frame_arrival_out(spec_frame_arrival_ctx(ctx, a), a).recreate_pool == false,
        (spec_frame_arrival_out(spec_frame_arrival_ctx(ctx, a), a).ratio_event is None),
        b != a ==> spec_frame_arrival_out(spec_frame_arrival_ctx(ctx, a), b)
            == (FrameArrival { recreate_pool: true, ratio_event: Some(b) }),
{
}

} // verus!
