//! The process-wide session table: active sessions keyed by identifier,
//! guarded by one lock in the host, exposed only through these lifecycle
//! commands. A command touches exactly the session it names; every other
//! session is left as it was.

use vstd::prelude::*;
use crate::context::{
    FrameArrival, FrameInfo, FrameOutcome, FramePlan, PresentStatus, spec_frame_arrival_ctx,
    spec_frame_arrival_out, spec_plan_matches, spec_present_outcome,
};
use crate::errors::SessionError;
use crate::mesh::Mesh;
use crate::renderer::RenderPass;
use crate::session::{
    CaptureTarget, Provision, Session, SessionModel, spec_on_frame_state, spec_resize,
    spec_resume_result, spec_resume_state, spec_start_result, spec_start_state, spec_stop_capture,
};
use crate::ui::UiState;

verus! {

/// One registry entry: a session under its logical identifier.
#[derive(Clone, Debug)]
pub struct Entry {
    pub id: String,
    pub session: Session,
}

/// The process-wide table of active sessions.
#[derive(Clone, Debug)]
pub struct Registry {
    pub entries: Vec<Entry>,
}

impl Registry {
    /// Identifiers are unique, and every session is well formed.
    pub open spec fn wf(self) -> bool {
        &&& forall|i: int, j: int|
            0 <= i < j < self.entries@.len()
                ==> self.entries@[i].id@ != self.entries@[j].id@
        &&& forall|i: int| 0 <= i < self.entries@.len() ==> (#[trigger] self.entries@[i]).session@.wf()
    }

    /// Whether some entry carries identifier `id`.
    pub open spec fn spec_has_id(self, id: Seq<char>) -> bool {
        exists|i: int| 0 <= i < self.entries@.len() && (#[trigger] self.entries@[i]).id@ == id
    }

    /// An empty table.
    pub fn new() -> (r: Registry)
        ensures
            r.entries@.len() == 0,
            r.wf(),
    {
        Registry { entries: Vec::new() }
    }

    /// The index of the entry for `id`, if one exists.
    fn find(&self, id: &String) -> (r: Option<usize>)
        ensures
            match r {
                Some(i) => i < self.entries@.len() && self.entries@[i as int].id@ == id@,
                None => !self.spec_has_id(id@),
            },
    {
        let mut i: usize = 0;
        while i < self.entries.len()
            invariant
                i <= self.entries@.len(),
                forall|j: int| 0 <= j < i ==> (#[trigger] self.entries@[j]).id@ != id@,
            decreases self.entries@.len() - i,
        {
            if self.entries[i].id == *id {
                return Some(i);
            }
            i = i + 1;
        }
        None
    }
}

/// Entries unchanged at every index but `i`, where only the session changed,
/// to `changed`.
pub open spec fn spec_only_session_changed(
    before: Seq<Entry>,
    after: Seq<Entry>,
    i: int,
    changed: SessionModel,
) -> bool {
    &&& after.len() == before.len()
    &&& forall|j: int| 0 <= j < before.len() && j != i ==> after[j] == before[j]
    &&& after[i].id@ == before[i].id@
    &&& after[i].session@ == changed
}

/// Start (or replace) the session under `label`: any session already
/// registered under that identifier is fully stopped and dropped first, so
/// two sessions never compete for one host surface; then a fresh session
/// bound to host window `hwnd` is built for `target` and registered — but
/// only if every construction step succeeded. On failure the error names the
/// first failed step and no session stands under `label`.
pub fn start_wgc_session(
    reg: &mut Registry,
    label: String,
    hwnd: isize,
    target: CaptureTarget,
    client_w: i32,
    client_h: i32,
    prov: Provision,
) -> (r: Result<(), SessionError>)
    requires
        1 <= client_w,
        1 <= client_h,
        old(reg).wf(),
    ensures
        final(reg).wf(),
        r == spec_start_result(prov),
        !final(reg).spec_has_id(label@) ==> r is Err,
        ({
            // The entries that survive: everything but the replaced one.
            let kept = if old(reg).spec_has_id(label@) {
                old(reg).entries@.remove(choose|i: int|
                    0 <= i < old(reg).entries@.len() && old(reg).entries@[i].id@ == label@)
            } else {
                old(reg).entries@
            };
            if r is Ok {
                &&& final(reg).entries@.len() == kept.len() + 1
                &&& final(reg).entries@.take(kept.len() as int) == kept
                &&& final(reg).entries@.last().id@ == label@
                &&& final(reg).entries@.last().session@ == spec_start_state(
                    Session::spec_new_model(hwnd),
                    target,
                    client_w,
                    client_h,
                    prov,
                )
            } else {
                final(reg).entries@ == kept
            }
        }),
{
    // Replace: the old session under this identifier is stopped before
    // anything new is built.
    let found = reg.find(&label);
    if let Some(i) = found {
        let e = &mut reg.entries[i];
        e.session.stop();
        let _ = reg.entries.remove(i);
        proof {
            let j = choose|j: int|
                0 <= j < old(reg).entries@.len() && old(reg).entries@[j].id@ == label@;
            assert(old(reg).entries@[i as int].id@ == label@);
            assert(j == i);
        }
    }

    let mut session = Session::new(hwnd);
    let result = session.start(target, client_w, client_h, prov);
    match result {
        Ok(()) => {
            let ghost kept = reg.entries@;
            reg.entries.push(Entry { id: label, session });
            proof {
                assert(final(reg).entries@.take(kept.len() as int) =~= kept);
            }
            Ok(())
        },
        Err(e) => Err(e),
    }
}

/// Stop and drop the session under `label`. A label with no session is not
/// an error: stopping is idempotent.
pub fn stop_wgc_session(reg: &mut Registry, label: &String)
    requires
        old(reg).wf(),
    ensures
        final(reg).wf(),
        !final(reg).spec_has_id(label@),
        old(reg).spec_has_id(label@) ==> final(reg).entries@ == old(reg).entries@.remove(
            choose|i: int| 0 <= i < old(reg).entries@.len() && old(reg).entries@[i].id@ == label@,
        ),
        !old(reg).spec_has_id(label@) ==> final(reg).entries@ == old(reg).entries@,
{
    let found = reg.find(label);
    if let Some(i) = found {
        let e = &mut reg.entries[i];
        e.session.stop();
        let _ = reg.entries.remove(i);
        proof {
            let j = choose|j: int|
                0 <= j < old(reg).entries@.len() && old(reg).entries@[j].id@ == label@;
            assert(old(reg).entries@[i as int].id@ == label@);
            assert(j == i);
            assert forall|k: int| 0 <= k < final(reg).entries@.len()
                implies (#[trigger] final(reg).entries@[k]).id@ != label@ by {
                if k < i {
                    assert(final(reg).entries@[k] == old(reg).entries@[k]);
                } else {
                    assert(final(reg).entries@[k] == old(reg).entries@[k + 1]);
                }
            }
        }
    }
}

/// Resize the swap-chain buffers of the session under `label` to the host's
/// new client area. Unknown labels and sessions that are not running are
/// ignored; a same-size request reallocates nothing.
pub fn update_wgc_resize(reg: &mut Registry, label: &String, w: u32, h: u32)
    requires
        old(reg).wf(),
    ensures
        final(reg).wf(),
        !old(reg).spec_has_id(label@) ==> final(reg).entries@ == old(reg).entries@,
        old(reg).spec_has_id(label@) ==> exists|i: int|
            0 <= i < old(reg).entries@.len() && old(reg).entries@[i].id@ == label@
                && spec_only_session_changed(
                old(reg).entries@,
                final(reg).entries@,
                i,
                spec_resize(old(reg).entries@[i].session@, w, h),
            ),
{
    let found = reg.find(label);
    if let Some(i) = found {
        let e = &mut reg.entries[i];
        e.session.resize(w, h);
    }
}

/// Pause the session under `label`: capture stops, the swap chain and device
/// stay for a prompt resume. Unknown labels are ignored.
pub fn pause_wgc_session(reg: &mut Registry, label: &String)
    requires
        old(reg).wf(),
    ensures
        final(reg).wf(),
        !old(reg).spec_has_id(label@) ==> final(reg).entries@ == old(reg).entries@,
        old(reg).spec_has_id(label@) ==> exists|i: int|
            0 <= i < old(reg).entries@.len() && old(reg).entries@[i].id@ == label@
                && spec_only_session_changed(
                old(reg).entries@,
                final(reg).entries@,
                i,
                spec_stop_capture(old(reg).entries@[i].session@),
            ),
{
    let found = reg.find(label);
    if let Some(i) = found {
        let e = &mut reg.entries[i];
        e.session.stop_capture();
    }
}

/// Resume the session under `label` toward `target`, reusing its retained
/// swap chain and device when they are still there. A label with no session
/// is reported: the host must use a fresh start instead.
pub fn resume_wgc_session(
    reg: &mut Registry,
    label: &String,
    target: CaptureTarget,
    client_w: i32,
    client_h: i32,
    prov: Provision,
) -> (r: Result<(), SessionError>)
    requires
        1 <= client_w,
        1 <= client_h,
        old(reg).wf(),
    ensures
        final(reg).wf(),
        !old(reg).spec_has_id(label@) ==> r == Err::<(), SessionError>(SessionError::SessionNotFound)
            && final(reg).entries@ == old(reg).entries@,
        old(reg).spec_has_id(label@) ==> exists|i: int|
            0 <= i < old(reg).entries@.len() && old(reg).entries@[i].id@ == label@
                && r == spec_resume_result(old(reg).entries@[i].session@, prov)
                && spec_only_session_changed(
                old(reg).entries@,
                final(reg).entries@,
                i,
                spec_resume_state(old(reg).entries@[i].session@, target, client_w, client_h, prov),
            ),
{
    let found = reg.find(label);
    match found {
        Some(i) => {
            let e = &mut reg.entries[i];
            e.session.resume(target, client_w, client_h, prov)
        },
        None => Err(SessionError::SessionNotFound),
    }
}

/// Turn the luminance conversion of the session under `label` on or off, and
/// redraw at once from the cached frame so the toggle shows without waiting
/// for the next capture event. Returns the redraw's composition, or `None`
/// when there is no such session or no cached frame yet.
pub fn update_wgc_filter(
    reg: &mut Registry,
    label: &String,
    use_gray: bool,
    client_w: i32,
    client_h: i32,
) -> (r: Option<(Vec<Mesh>, RenderPass)>)
    requires
        1 <= client_w,
        1 <= client_h,
        old(reg).wf(),
    ensures
        final(reg).wf(),
        !old(reg).spec_has_id(label@) ==> r is None
            && final(reg).entries@ == old(reg).entries@,
        old(reg).spec_has_id(label@) ==> exists|i: int|
            0 <= i < old(reg).entries@.len() && old(reg).entries@[i].id@ == label@
                && spec_only_session_changed(
                old(reg).entries@,
                final(reg).entries@,
                i,
                (SessionModel {
                    ui: UiState { use_gray, ..old(reg).entries@[i].session@.ui },
                    ..old(reg).entries@[i].session@
                }),
            ) && ({
                let s = final(reg).entries@[i].session@;
                &&& (r is Some <==> s.context is Some && s.context->0.intermediate is Some)
                &&& crate::context::spec_redraw_matches(r, s.ui, client_w, client_h)
            }),
{
    let found = reg.find(label);
    if let Some(i) = found {
        let e = &mut reg.entries[i];
        e.session.ui.use_gray = use_gray;
        e.session.force_redraw(client_w, client_h)
    } else {
        None
    }
}

/// Turn mirroring of the session under `label` on or off, and redraw at once
/// from the cached frame. Returns the redraw's composition, or `None` when
/// there is no such session or no cached frame yet.
pub fn update_wgc_mirror(
    reg: &mut Registry,
    label: &String,
    mirror: bool,
    client_w: i32,
    client_h: i32,
) -> (r: Option<(Vec<Mesh>, RenderPass)>)
    requires
        1 <= client_w,
        1 <= client_h,
        old(reg).wf(),
    ensures
        final(reg).wf(),
        !old(reg).spec_has_id(label@) ==> r is None
            && final(reg).entries@ == old(reg).entries@,
        old(reg).spec_has_id(label@) ==> exists|i: int|
            0 <= i < old(reg).entries@.len() && old(reg).entries@[i].id@ == label@
                && spec_only_session_changed(
                old(reg).entries@,
                final(reg).entries@,
                i,
                (SessionModel {
                    ui: UiState { mirror, ..old(reg).entries@[i].session@.ui },
                    ..old(reg).entries@[i].session@
                }),
            ) && ({
                let s = final(reg).entries@[i].session@;
                &&& (r is Some <==> s.context is Some && s.context->0.intermediate is Some)
                &&& crate::context::spec_redraw_matches(r, s.ui, client_w, client_h)
            }),
{
    let found = reg.find(label);
    if let Some(i) = found {
        let e = &mut reg.entries[i];
        e.session.ui.mirror = mirror;
        e.session.force_redraw(client_w, client_h)
    } else {
        None
    }
}

/// Deliver one frame-arrival event (and its presentation report) to the
/// session under `label`. Every other session is untouched, whatever the
/// outcome — a device lost by one session never reaches another.
pub fn wgc_frame_event(
    reg: &mut Registry,
    label: &String,
    frame: FrameInfo,
    client_w: i32,
    client_h: i32,
    present: PresentStatus,
) -> (r: Option<(FrameArrival, FramePlan, FrameOutcome)>)
    requires
        1 <= client_w,
        1 <= client_h,
        old(reg).wf(),
    ensures
        final(reg).wf(),
        !old(reg).spec_has_id(label@) ==> r is None
            && final(reg).entries@ == old(reg).entries@,
        old(reg).spec_has_id(label@) ==> exists|i: int|
            0 <= i < old(reg).entries@.len() && old(reg).entries@[i].id@ == label@
                && spec_only_session_changed(
                old(reg).entries@,
                final(reg).entries@,
                i,
                spec_on_frame_state(
                    old(reg).entries@[i].session@,
                    frame,
                    client_w,
                    client_h,
                    present,
                ),
            ) && (r is Some <==> old(reg).entries@[i].session@.state is Running)
                && (r is Some ==> ({
                let s0 = old(reg).entries@[i].session@;
                let ctx1 = spec_frame_arrival_ctx(s0.context->0, frame.content);
                &&& (r->0).0 == spec_frame_arrival_out(s0.context->0, frame.content)
                &&& spec_plan_matches((r->0).1, ctx1, s0.ui, frame, client_w, client_h)
                &&& (r->0).2 == spec_present_outcome(present)
            })),
{
    let found = reg.find(label);
    if let Some(i) = found {
        let e = &mut reg.entries[i];
        e.session.on_frame(frame, client_w, client_h, present)
    } else {
        None
    }
}

} // verus!
