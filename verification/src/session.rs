//! One capture session's lifecycle: Stopped, Running, Paused. Start builds
//! the whole GPU stack; pause stops only the capture bridge and keeps the
//! swap chain, so a quick resume does not recreate it; stop releases
//! everything and is safe to repeat.
//!
//! What the platform handed back while starting or resuming — the device,
//! the resolved capture item, the swap chain, the running capture — arrives
//! as a [`Provision`]; this module holds the decisions made around it.

use vstd::prelude::*;
use crate::context::{
    ContextModel, FrameArrival, FrameInfo, FrameOutcome, FramePlan, PresentStatus, RenderContext,
    SwapChain, present_outcome, spec_frame_arrival_ctx, spec_frame_arrival_out,
    spec_next_generation, spec_plan_matches, spec_present_outcome, spec_render_step_ctx,
    spec_step_ui,
};
use crate::errors::SessionError;
use crate::geom::{ContentSize, PixelRect};
use crate::ui::UiState;

verus! {

/// Where a session stands in its life.
#[derive(Clone, Copy, PartialEq, Eq, Structural, Debug)]
pub enum SessionState {
    Stopped,
    Running,
    Paused,
}

/// Which driver the GPU device was created with: real hardware, or the
/// software emulation the pipeline falls back to.
#[derive(Clone, Copy, PartialEq, Eq, Structural, Debug)]
pub enum DriverKind {
    Hardware,
    Warp,
}

/// A created GPU device and its immediate context, by identity.
#[derive(Clone, Copy, PartialEq, Eq, Structural, Debug)]
pub struct DeviceHandle {
    pub id: u64,
    pub driver: DriverKind,
}

/// A running capture bridge: the frame pool's identity and the content
/// extent the capture item reported when it was resolved.
#[derive(Clone, Copy, PartialEq, Eq, Structural, Debug)]
pub struct CaptureHandle {
    pub pool_id: u64,
    pub item_size: ContentSize,
}

/// What a session captures: a window by handle, or the monitor region under
/// the given rectangle's top-left corner.
#[derive(Clone, Copy, PartialEq, Eq, Structural, Debug)]
pub enum CaptureTarget {
    Window(isize),
    Region(PixelRect),
}

impl CaptureTarget {
    /// Decode a host request: a target identifier of zero asks for the
    /// region capture of the rectangle at `(x, y)` of extent `w` by `h`; any
    /// other identifier is the window handle to capture.
    pub fn from_request(target_id: isize, x: i32, y: i32, w: i32, h: i32) -> (r: CaptureTarget)
        requires
            i32::MIN <= x + w <= i32::MAX,
            i32::MIN <= y + h <= i32::MAX,
        ensures
            r == (if target_id == 0 {
                CaptureTarget::Region(PixelRect {
                    left: x,
                    top: y,
                    right: (x + w) as i32,
                    bottom: (y + h) as i32,
                })
            } else {
                CaptureTarget::Window(target_id)
            }),
    {
        if target_id == 0 {
            CaptureTarget::Region(PixelRect { left: x, top: y, right: x + w, bottom: y + h })
        } else {
            CaptureTarget::Window(target_id)
        }
    }

    /// The screen-space crop a region target carries.
    pub open spec fn spec_crop(self) -> Option<PixelRect> {
        match self {
            CaptureTarget::Window(_) => None,
            CaptureTarget::Region(rect) => Some(rect),
        }
    }

    /// The screen-space crop a region target carries.
    pub fn crop(&self) -> (r: Option<PixelRect>)
        ensures
            r == self.spec_crop(),
    {
        match self {
            CaptureTarget::Window(_) => None,
            CaptureTarget::Region(rect) => Some(*rect),
        }
    }
}

/// What the platform handed back while a session was being built. A `None`
/// is the corresponding construction step failing.
#[derive(Clone, Copy, PartialEq, Eq, Structural, Debug)]
pub struct Provision {
    /// The created device, hardware preferred, emulation as fallback.
    pub device: Option<DeviceHandle>,
    /// The resolved capture item's content extent.
    pub item_size: Option<ContentSize>,
    /// The created swap chain's identity.
    pub swap_chain_id: Option<u64>,
    /// The created and started frame pool's identity.
    pub pool_id: Option<u64>,
}

/// One capture session.
#[derive(Clone, Debug)]
pub struct Session {
    pub state: SessionState,
    /// The host window the session presents into.
    pub window_handle: isize,
    /// The capture target, once one was requested.
    pub target: Option<CaptureTarget>,
    pub device: Option<DeviceHandle>,
    pub capture: Option<CaptureHandle>,
    pub context: Option<RenderContext>,
    /// Overlay state; it outlives pause and resume.
    pub ui: UiState,
}

/// The mathematical content of a session.
pub struct SessionModel {
    pub state: SessionState,
    pub window_handle: isize,
    pub target: Option<CaptureTarget>,
    pub device: Option<DeviceHandle>,
    pub capture: Option<CaptureHandle>,
    pub context: Option<ContextModel>,
    pub ui: UiState,
}

impl View for Session {
    type V = SessionModel;

    open spec fn view(&self) -> SessionModel {
        SessionModel {
            state: self.state,
            window_handle: self.window_handle,
            target: self.target,
            device: self.device,
            capture: self.capture,
            context: match self.context {
                Some(ref c) => Some(c@),
                None => None,
            },
            ui: self.ui,
        }
    }
}

impl SessionModel {
    /// Running sessions hold the full GPU stack; paused ones keep device and
    /// context (with the swap chain inside) but no capture; stopped ones
    /// hold nothing.
    pub open spec fn wf(self) -> bool {
        &&& self.state is Running ==> self.device is Some && self.capture is Some
            && self.context is Some
        &&& self.state is Paused ==> self.device is Some && self.context is Some
            && self.capture is None
        &&& self.state is Stopped ==> self.device is None && self.capture is None
            && self.context is None
        &&& match self.context {
            Some(c) => c.wf(),
            None => true,
        }
    }

    /// How many GPU objects the session still holds: device, capture bridge,
    /// swap chain, intermediate texture, and each overlay texture.
    pub open spec fn spec_gpu_resources(self) -> int {
        (if self.device is Some { 1int } else { 0int })
        + (if self.capture is Some { 1int } else { 0int })
        + match self.context {
            Some(c) => 1int
                + (if c.intermediate is Some { 1int } else { 0int })
                + c.overlay_textures.len(),
            None => 0int,
        }
    }
}

/// The session after `stop`: capture closed, swap chain, device and all
/// cached textures released, whatever state it was in.
pub open spec fn spec_stop(s: SessionModel) -> SessionModel {
    SessionModel {
        state: SessionState::Stopped,
        device: None,
        capture: None,
        context: None,
        ..s
    }
}

/// The session after `stop_capture` (a pause): only the capture bridge is closed; device,
/// context and swap chain stay, so a prompt resume does not rebuild them.
pub open spec fn spec_stop_capture(s: SessionModel) -> SessionModel {
    if s.state is Running {
        SessionModel { state: SessionState::Paused, capture: None, ..s }
    } else {
        s
    }
}

/// Which error a failed construction reports: the first step that failed, in
/// construction order — device, capture target, swap chain, capture start.
pub open spec fn spec_start_result(prov: Provision) -> Result<(), SessionError> {
    if prov.device is None {
        Err(SessionError::DeviceCreation)
    } else if prov.item_size is None {
        Err(SessionError::TargetResolution)
    } else if prov.swap_chain_id is None {
        Err(SessionError::SwapChainCreation)
    } else if prov.pool_id is None {
        Err(SessionError::CaptureCreation)
    } else {
        Ok(())
    }
}

/// A fresh render context over a fresh swap chain.
pub open spec fn spec_fresh_context(
    target: CaptureTarget,
    item_size: ContentSize,
    swap_chain: SwapChain,
) -> ContextModel {
    ContextModel {
        source_crop: target.spec_crop(),
        last_size: item_size,
        swap_chain: swap_chain,
        intermediate: None,
        cache_srv_valid: false,
        overlay_textures: Seq::empty(),
    }
}

/// The session a successful `start` leaves behind.
pub open spec fn spec_started(
    s: SessionModel,
    target: CaptureTarget,
    client_w: i32,
    client_h: i32,
    prov: Provision,
) -> SessionModel {
    SessionModel {
        state: SessionState::Running,
        target: Some(target),
        device: prov.device,
        capture: Some(CaptureHandle { pool_id: prov.pool_id->0, item_size: prov.item_size->0 }),
        context: Some(spec_fresh_context(
            target,
            prov.item_size->0,
            SwapChain {
                id: prov.swap_chain_id->0,
                width: client_w as u32,
                height: client_h as u32,
                buffer_generation: 0,
            },
        )),
        ..s
    }
}

/// The session `start` leaves behind: fully running on success, fully
/// stopped on any construction failure — no partial GPU state is retained.
pub open spec fn spec_start_state(
    s: SessionModel,
    target: CaptureTarget,
    client_w: i32,
    client_h: i32,
    prov: Provision,
) -> SessionModel {
    if spec_start_result(prov) is Ok {
        spec_started(s, target, client_w, client_h, prov)
    } else {
        spec_stop(SessionModel { target: Some(target), ..s })
    }
}

/// Whether `resume` can reuse the retained swap chain and device instead of
/// rebuilding the whole stack.
pub open spec fn spec_resume_retains(s: SessionModel) -> bool {
    s.context is Some && s.device is Some
}

/// Which error a failed resume reports. On the retained path the device and
/// swap chain already exist, so only target resolution and capture start can
/// fail; otherwise resume is a full start.
pub open spec fn spec_resume_result(s: SessionModel, prov: Provision) -> Result<(), SessionError> {
    if spec_resume_retains(s) {
        if prov.item_size is None {
            Err(SessionError::TargetResolution)
        } else if prov.pool_id is None {
            Err(SessionError::CaptureCreation)
        } else {
            Ok(())
        }
    } else {
        spec_start_result(prov)
    }
}

/// The session `resume` leaves behind. On the retained path the swap chain
/// object is carried into the rebuilt context unchanged; a failure there
/// leaves the session paused with its retained state, ready for another try.
pub open spec fn spec_resume_state(
    s: SessionModel,
    target: CaptureTarget,
    client_w: i32,
    client_h: i32,
    prov: Provision,
) -> SessionModel {
    if spec_resume_retains(s) {
        if spec_resume_result(s, prov) is Ok {
            SessionModel {
                state: SessionState::Running,
                target: Some(target),
                capture: Some(CaptureHandle {
                    pool_id: prov.pool_id->0,
                    item_size: prov.item_size->0,
                }),
                context: Some(spec_fresh_context(
                    target,
                    prov.item_size->0,
                    s.context->0.swap_chain,
                )),
                ..s
            }
        } else {
            SessionModel {
                state: SessionState::Paused,
                target: Some(target),
                capture: None,
                ..s
            }
        }
    } else {
        spec_start_state(s, target, client_w, client_h, prov)
    }
}

/// The session after one frame-arrival event and its presentation report: a
/// session that is not running ignores the event; a running one applies the
/// arrival bookkeeping and the render step, and stops if the device is gone.
pub open spec fn spec_on_frame_state(
    s: SessionModel,
    frame: FrameInfo,
    client_w: i32,
    client_h: i32,
    present: PresentStatus,
) -> SessionModel {
    if !(s.state is Running) {
        s
    } else {
        let ctx1 = spec_frame_arrival_ctx(s.context->0, frame.content);
        let stepped = SessionModel {
            context: Some(spec_render_step_ctx(ctx1, frame, client_w, client_h)),
            ui: spec_step_ui(ctx1.source_crop, s.ui, frame.content),
            ..s
        };
        if spec_present_outcome(present) is FatalDeviceLost {
            spec_stop(stepped)
        } else {
            stepped
        }
    }
}

/// The session after the swap-chain buffers were resized to `w` by `h`
/// (each at least 1): a same-size request reallocates nothing, and a session
/// that is not running ignores the request.
pub open spec fn spec_resize(s: SessionModel, w: u32, h: u32) -> SessionModel {
    if s.state is Running && s.context is Some {
        let sc = s.context->0.swap_chain;
        let w1: u32 = if w >= 1 { w } else { 1 };
        let h1: u32 = if h >= 1 { h } else { 1 };
        if sc.width == w1 && sc.height == h1 {
            s
        } else {
            SessionModel {
                context: Some(ContextModel {
                    swap_chain: SwapChain {
                        id: sc.id,
                        width: w1,
                        height: h1,
                        buffer_generation: spec_next_generation(sc.buffer_generation),
                    },
                    ..s.context->0
                }),
                ..s
            }
        }
    } else {
        s
    }
}

impl Session {
    /// What a fresh session looks like.
    pub open spec fn spec_new_model(window_handle: isize) -> SessionModel {
        SessionModel {
            state: SessionState::Stopped,
            window_handle: window_handle,
            target: None,
            device: None,
            capture: None,
            context: None,
            ui: UiState::spec_default(),
        }
    }

    /// A session bound to its host window, not yet capturing.
    pub fn new(window_handle: isize) -> (r: Session)
        ensures
            r@ == Session::spec_new_model(window_handle),
            r@.wf(),
    {
        Session {
            state: SessionState::Stopped,
            window_handle,
            target: None,
            device: None,
            capture: None,
            context: None,
            ui: UiState::default(),
        }
    }

    /// Close the capture bridge and release every GPU object. Safe to call
    /// in any state, any number of times, also from a window-destroy
    /// notification; it never fails.
    pub fn stop(&mut self)
        ensures
            final(self)@ == spec_stop(old(self)@),
            final(self)@.wf(),
            final(self)@.spec_gpu_resources() == 0,
    {
        self.state = SessionState::Stopped;
        self.device = None;
        self.capture = None;
        self.context = None;
    }

    /// Close only the capture bridge; the swap chain, device and context
    /// stay, which avoids the access-denied failures of a rapid hide and
    /// restore of the captured window. This is what a pause command does.
    pub fn stop_capture(&mut self)
        requires
            old(self)@.wf(),
        ensures
            final(self)@ == spec_stop_capture(old(self)@),
            final(self)@.wf(),
    {
        if matches!(self.state, SessionState::Running) {
            self.capture = None;
            self.state = SessionState::Paused;
        }
    }

    /// Tear down whatever ran before, then bring up the full stack for
    /// `target`: device (hardware, or emulation), capture item, swap chain
    /// sized to the client area, frame pool, capture. On any failure the
    /// session is left stopped with nothing retained, and the error names
    /// the first construction step that failed.
    pub fn start(
        &mut self,
        target: CaptureTarget,
        client_w: i32,
        client_h: i32,
        prov: Provision,
    ) -> (r: Result<(), SessionError>)
        requires
            1 <= client_w,
            1 <= client_h,
            old(self)@.wf(),
        ensures
            final(self)@.wf(),
            r == spec_start_result(prov),
            final(self)@ == spec_start_state(old(self)@, target, client_w, client_h, prov),
    {
        // Old capture and swap chain go first, so the new stack never
        // competes with them for the host surface.
        self.state = SessionState::Stopped;
        self.device = None;
        self.capture = None;
        self.context = None;
        self.target = Some(target);

        let device = match prov.device {
            Some(d) => d,
            None => {
                return Err(SessionError::DeviceCreation);
            },
        };
        let item_size = match prov.item_size {
            Some(s) => s,
            None => {
                return Err(SessionError::TargetResolution);
            },
        };
        let swap_chain_id = match prov.swap_chain_id {
            Some(id) => id,
            None => {
                return Err(SessionError::SwapChainCreation);
            },
        };
        let pool_id = match prov.pool_id {
            Some(id) => id,
            None => {
                return Err(SessionError::CaptureCreation);
            },
        };

        let swap_chain = SwapChain {
            id: swap_chain_id,
            width: client_w as u32,
            height: client_h as u32,
            buffer_generation: 0,
        };
        self.device = Some(device);
        self.capture = Some(CaptureHandle { pool_id, item_size });
        self.context = Some(RenderContext {
            source_crop: target.crop(),
            last_size: item_size,
            swap_chain,
            intermediate: None,
            cache_srv_valid: false,
            overlay_textures: Vec::new(),
        });
        self.state = SessionState::Running;
        Ok(())
    }

    /// Bring capture back after a pause. When the device and swap chain were
    /// retained, only the capture bridge and context are rebuilt around the
    /// unchanged swap chain; otherwise this is a full start.
    pub fn resume(
        &mut self,
        target: CaptureTarget,
        client_w: i32,
        client_h: i32,
        prov: Provision,
    ) -> (r: Result<(), SessionError>)
        requires
            1 <= client_w,
            1 <= client_h,
            old(self)@.wf(),
        ensures
            final(self)@.wf(),
            r == spec_resume_result(old(self)@, prov),
            final(self)@ == spec_resume_state(old(self)@, target, client_w, client_h, prov),
    {
        if self.context.is_none() || self.device.is_none() {
            return self.start(target, client_w, client_h, prov);
        }

        self.capture = None;
        self.state = SessionState::Paused;
        self.target = Some(target);

        let item_size = match prov.item_size {
            Some(s) => s,
            None => {
                return Err(SessionError::TargetResolution);
            },
        };
        let pool_id = match prov.pool_id {
            Some(id) => id,
            None => {
                return Err(SessionError::CaptureCreation);
            },
        };

        let swap_chain = match &self.context {
            Some(c) => c.swap_chain,
            None => {
                // Unreachable: the retained path was just checked.
                return Err(SessionError::CaptureCreation);
            },
        };
        self.capture = Some(CaptureHandle { pool_id, item_size });
        self.context = Some(RenderContext {
            source_crop: target.crop(),
            last_size: item_size,
            swap_chain,
            intermediate: None,
            cache_srv_valid: false,
            overlay_textures: Vec::new(),
        });
        self.state = SessionState::Running;
        Ok(())
    }

    /// One delivery of the capture source's frame-arrival event, followed by
    /// the presentation report: reallocate the pool and notify on a content
    /// size change, run the render step, and, when the present says the
    /// device is gone, end this session's render loop by stopping it — the
    /// host is expected to request a fresh start. An event that reaches a
    /// session that is not running is a no-op, as happens when a callback
    /// lands after `stop`.
    pub fn on_frame(
        &mut self,
        frame: FrameInfo,
        client_w: i32,
        client_h: i32,
        present: PresentStatus,
    ) -> (r: Option<(FrameArrival, FramePlan, FrameOutcome)>)
        requires
            1 <= client_w,
            1 <= client_h,
            old(self)@.wf(),
        ensures
            final(self)@.wf(),
            final(self)@ == spec_on_frame_state(old(self)@, frame, client_w, client_h, present),
            r is Some <==> old(self)@.state is Running,
            r is Some ==> ({
                let ctx1 = spec_frame_arrival_ctx(old(self)@.context->0, frame.content);
                &&& (r->0).0 == spec_frame_arrival_out(old(self)@.context->0, frame.content)
                &&& spec_plan_matches((r->0).1, ctx1, old(self)@.ui, frame, client_w, client_h)
                &&& (r->0).2 == spec_present_outcome(present)
            }),
    {
        if !matches!(self.state, SessionState::Running) {
            return None;
        }
        let arrival: FrameArrival;
        let plan: FramePlan;
        match &mut self.context {
            Some(ctx) => {
                arrival = ctx.on_frame_arrived(frame.content);
                plan = ctx.render_step(&mut self.ui, frame, client_w, client_h);
            },
            None => {
                // Unreachable: a running session always has a context.
                return None;
            },
        }
        let outcome = present_outcome(present);
        if matches!(outcome, FrameOutcome::FatalDeviceLost) {
            self.stop();
        }
        Some((arrival, plan, outcome))
    }

    /// Resize the swap-chain buffers to the host's new client area, at least
    /// 1 by 1. Ignored while the session is not running, and a request for
    /// the size the buffers already have reallocates nothing.
    pub fn resize(&mut self, w: u32, h: u32)
        requires
            old(self)@.wf(),
        ensures
            final(self)@ == spec_resize(old(self)@, w, h),
            final(self)@.wf(),
    {
        if !matches!(self.state, SessionState::Running) {
            return ;
        }
        let w1: u32 = if w >= 1 { w } else { 1 };
        let h1: u32 = if h >= 1 { h } else { 1 };
        if let Some(ctx) = &mut self.context {
            if ctx.swap_chain.width != w1 || ctx.swap_chain.height != h1 {
                let g = ctx.swap_chain.buffer_generation;
                ctx.swap_chain = SwapChain {
                    id: ctx.swap_chain.id,
                    width: w1,
                    height: h1,
                    buffer_generation: if g == u64::MAX { g } else { g + 1 },
                };
            }
        }
    }
}

impl Session {
    /// Redraw at once from the cached frame, without waiting for the next
    /// capture event: used when a toggle must show immediately. `None` when
    /// the session has no context or no cached frame yet.
    pub fn force_redraw(&self, client_w: i32, client_h: i32) -> (r: Option<(Vec<crate::mesh::Mesh>, crate::renderer::RenderPass)>)
        requires
            1 <= client_w,
            1 <= client_h,
        ensures
            r is Some <==> (self@.context is Some && self@.context->0.intermediate is Some),
            crate::context::spec_redraw_matches(r, self@.ui, client_w, client_h),
    {
        match &self.context {
            Some(ctx) => ctx.redraw_cached(&self.ui, client_w, client_h),
            None => None,
        }
    }
}

/// Settle which created device the session runs on: hardware when the
/// hardware attempt succeeded, the software-emulated driver as the fallback
/// that keeps the pipeline running without a GPU, and `DeviceCreation` only
/// when both attempts failed.
pub fn choose_driver(hardware: Option<u64>, warp: Option<u64>) -> (r: Result<
    DeviceHandle,
    SessionError,
>)
    ensures
        hardware is Some ==> r == Ok::<DeviceHandle, SessionError>(DeviceHandle {
            id: hardware->0,
            driver: DriverKind::Hardware,
        }),
        hardware is None && warp is Some ==> r == Ok::<DeviceHandle, SessionError>(DeviceHandle {
            id: warp->0,
            driver: DriverKind::Warp,
        }),
        hardware is None && warp is None ==> r == Err::<DeviceHandle, SessionError>(
            SessionError::DeviceCreation,
        ),
{
    match hardware {
        Some(id) => Ok(DeviceHandle { id, driver: DriverKind::Hardware }),
        None => match warp {
            Some(id) => Ok(DeviceHandle { id, driver: DriverKind::Warp }),
            None => Err(SessionError::DeviceCreation),
        },
    }
}

/// Law: `stop` owes nothing and leaks nothing — it leaves zero GPU
/// resources, and a second stop changes nothing at all.
pub proof fn lemma_stop_idempotent_and_clean(s: SessionModel)
    ensures
        spec_stop(s).spec_gpu_resources() == 0,
        spec_stop(spec_stop(s)) == spec_stop(s),
{
}

/// Law: a same-size resize is a no-op — the swap chain keeps its buffers,
/// its generation, and its identity.
pub proof fn lemma_resize_same_size_noop(s: SessionModel)
    requires
        s.wf(),
        s.context is Some,
    ensures
        spec_resize(s, s.context->0.swap_chain.width, s.context->0.swap_chain.height) == s,
{
}

/// Law: a present that reports the device removed or reset ends that
/// session's render loop — afterward the session is stopped and holds no GPU
/// resource, whatever else the frame changed.
pub proof fn lemma_device_loss_stops_session(
    s: SessionModel,
    frame: FrameInfo,
    client_w: i32,
    client_h: i32,
    present: PresentStatus,
)
    requires
        s.state is Running,
        present is DeviceRemoved || present is DeviceReset,
    ensures
        (spec_on_frame_state(s, frame, client_w, client_h, present).state is Stopped),
        spec_on_frame_state(s, frame, client_w, client_h, present).spec_gpu_resources() == 0,
{
}

/// Law: pausing and then resuming with the device and swap chain retained
/// presents into the very swap chain that was already there — same identity,
/// same buffers, same generation — and leaves the session running.
pub proof fn lemma_pause_resume_keeps_swap_chain(
    s: SessionModel,
    target: CaptureTarget,
    client_w: i32,
    client_h: i32,
    prov: Provision,
)
    requires
        s.wf(),
        s.state is Running,
        prov.item_size is Some,
        prov.pool_id is Some,
    ensures
        ({
            let resumed = spec_resume_state(spec_stop_capture(s), target, client_w, client_h, prov);
            &&& resumed.state is Running
            &&& resumed.capture is Some
            &&& resumed.context is Some
            &&& resumed.context->0.swap_chain == s.context->0.swap_chain
        }),
{
}

} // verus!
