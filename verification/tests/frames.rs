//! Frame events: pool reallocation and aspect notifications, overlay
//! composition, immediate redraw on toggles, device loss, draw planning.

use capture_core::context::{FrameInfo, FrameOutcome, PresentStatus, TextureDesc, present_outcome};
use capture_core::geom::{ContentSize, PixelRect, UvCoord};
use capture_core::mesh::{Mesh, TextureRef, compose_overlay};
use capture_core::registry::{
    Registry, start_wgc_session, stop_wgc_session, update_wgc_filter, update_wgc_mirror,
    wgc_frame_event,
};
use capture_core::renderer::{Renderer, plan_draws};
use capture_core::session::{
    CaptureTarget, DeviceHandle, DriverKind, Provision, Session, SessionState,
};
use capture_core::ui::{UiSnapshot, UiState};

fn full_provision() -> Provision {
    Provision {
        device: Some(DeviceHandle { id: 11, driver: DriverKind::Hardware }),
        item_size: Some(ContentSize { width: 1280, height: 720 }),
        swap_chain_id: Some(21),
        pool_id: Some(31),
    }
}

fn frame(w: i32, h: i32) -> FrameInfo {
    FrameInfo {
        content: ContentSize { width: w, height: h },
        phys: TextureDesc { width: w.max(0) as u32, height: h.max(0) as u32 },
    }
}

#[test]
fn size_change_reallocates_and_notifies_exactly_once() {
    let mut s = Session::new(7);
    s.start(CaptureTarget::Window(42), 800, 600, full_provision()).unwrap();

    // The first frame matches the item's size: no pool work, no event.
    let (a0, _, _) = s.on_frame(frame(1280, 720), 800, 600, PresentStatus::Presented).unwrap();
    assert!(!a0.recreate_pool);
    assert!(a0.ratio_event.is_none());

    // The content grows: exactly one reallocation and one notification.
    let (a1, _, _) = s.on_frame(frame(1920, 1080), 800, 600, PresentStatus::Presented).unwrap();
    assert!(a1.recreate_pool);
    assert_eq!(a1.ratio_event, Some(ContentSize { width: 1920, height: 1080 }));

    // The next frame with the same size: nothing again.
    let (a2, _, _) = s.on_frame(frame(1920, 1080), 800, 600, PresentStatus::Presented).unwrap();
    assert!(!a2.recreate_pool);
    assert!(a2.ratio_event.is_none());
}

#[test]
fn intermediate_recreated_only_on_physical_change() {
    let mut s = Session::new(7);
    s.start(CaptureTarget::Window(42), 800, 600, full_provision()).unwrap();

    let (_, p0, _) = s.on_frame(frame(1280, 720), 800, 600, PresentStatus::Presented).unwrap();
    assert!(p0.intermediate_recreated);
    assert!(p0.copy_frame);
    assert!(p0.srv_created);

    let (_, p1, _) = s.on_frame(frame(1280, 720), 800, 600, PresentStatus::Presented).unwrap();
    assert!(!p1.intermediate_recreated);
    assert!(p1.copy_frame);
    assert!(!p1.srv_created); // the cached view is reused, not rebuilt per frame
}

#[test]
fn host_resize_detected_between_frames() {
    let mut s = Session::new(7);
    s.start(CaptureTarget::Window(42), 800, 600, full_provision()).unwrap();
    let (_, p0, _) = s.on_frame(frame(1280, 720), 800, 600, PresentStatus::Presented).unwrap();
    assert!(!p0.swap_resized);
    let (_, p1, _) = s.on_frame(frame(1280, 720), 1024, 768, PresentStatus::Presented).unwrap();
    assert!(p1.swap_resized);
    let chain = s.context.as_ref().unwrap().swap_chain;
    assert_eq!((chain.width, chain.height), (1024, 768));
    assert_eq!(chain.buffer_generation, 1);
}

#[test]
fn minimized_source_shows_placeholder_and_skips_copy() {
    let mut s = Session::new(7);
    s.start(CaptureTarget::Window(42), 800, 600, full_provision()).unwrap();
    let (_, plan, _) = s.on_frame(frame(1, 1), 800, 600, PresentStatus::Presented).unwrap();
    assert!(plan.minimized);
    assert!(!plan.copy_frame);
    assert!(!plan.intermediate_recreated);
    assert_eq!(plan.meshes.len(), 1);
    assert_eq!(plan.meshes[0].texture, TextureRef::Overlay(capture_core::mesh::GLYPH_ATLAS));
}

#[test]
fn region_mode_recomputes_crop_from_current_content() {
    let mut s = Session::new(7);
    let region = CaptureTarget::Region(PixelRect { left: 100, top: 100, right: 500, bottom: 400 });
    s.start(region, 800, 600, full_provision()).unwrap();
    let _ = s.on_frame(frame(1920, 1080), 800, 600, PresentStatus::Presented).unwrap();
    let crop = s.ui.crop;
    assert_eq!(crop.u_min, UvCoord { num: 100, den: 1920 });
    assert_eq!(crop.v_min, UvCoord { num: 100, den: 1080 });
    assert_eq!(crop.u_max, UvCoord { num: 500, den: 1920 });
    assert_eq!(crop.v_max, UvCoord { num: 400, den: 1080 });
}

#[test]
fn device_removed_is_fatal_and_stops_only_that_session() {
    let mut reg = Registry::new();
    start_wgc_session(&mut reg, "s1".to_string(), 7, CaptureTarget::Window(42), 800, 600, full_provision()).unwrap();
    start_wgc_session(&mut reg, "s2".to_string(), 8, CaptureTarget::Window(43), 800, 600, full_provision()).unwrap();

    let r = wgc_frame_event(&mut reg, &"s1".to_string(), frame(1280, 720), 800, 600, PresentStatus::DeviceRemoved);
    let (_, _, outcome) = r.unwrap();
    assert_eq!(outcome, FrameOutcome::FatalDeviceLost);

    let s1 = &reg.entries.iter().find(|e| e.id == "s1").unwrap().session;
    assert_eq!(s1.state, SessionState::Stopped);
    assert!(s1.device.is_none() && s1.capture.is_none() && s1.context.is_none());

    let s2 = &reg.entries.iter().find(|e| e.id == "s2").unwrap().session;
    assert_eq!(s2.state, SessionState::Running);
    assert!(s2.device.is_some() && s2.capture.is_some() && s2.context.is_some());

    // A later event for the stopped session is a no-op, as a callback landing
    // after stop must be.
    let r2 = wgc_frame_event(&mut reg, &"s1".to_string(), frame(1280, 720), 800, 600, PresentStatus::Presented);
    assert!(r2.is_none());
}

#[test]
fn present_statuses_map_to_outcomes() {
    assert_eq!(present_outcome(PresentStatus::Presented), FrameOutcome::Continue);
    assert_eq!(present_outcome(PresentStatus::OtherFailure), FrameOutcome::Continue);
    assert_eq!(present_outcome(PresentStatus::DeviceRemoved), FrameOutcome::FatalDeviceLost);
    assert_eq!(present_outcome(PresentStatus::DeviceReset), FrameOutcome::FatalDeviceLost);
}

#[test]
fn grayscale_toggle_redraws_from_cached_frame() {
    let mut reg = Registry::new();
    start_wgc_session(&mut reg, "s1".to_string(), 7, CaptureTarget::Window(42), 800, 600, full_provision()).unwrap();
    // One frame arrives and is copied into the intermediate texture.
    wgc_frame_event(&mut reg, &"s1".to_string(), frame(1280, 720), 800, 600, PresentStatus::Presented).unwrap();

    // The toggle shows within one redraw, with no further capture event.
    let redraw = update_wgc_filter(&mut reg, &"s1".to_string(), true, 800, 600);
    let (_meshes, pass) = redraw.expect("a cached frame exists, so the redraw happens");
    assert!(pass.use_gray);
    assert_eq!(pass.draws.len(), 1);

    // Before any frame was cached, the same toggle cannot redraw.
    let mut reg2 = Registry::new();
    start_wgc_session(&mut reg2, "s1".to_string(), 7, CaptureTarget::Window(42), 800, 600, full_provision()).unwrap();
    assert!(update_wgc_filter(&mut reg2, &"s1".to_string(), true, 800, 600).is_none());
}

#[test]
fn mirror_toggle_flips_video_quad_uv() {
    let mut reg = Registry::new();
    start_wgc_session(&mut reg, "s1".to_string(), 7, CaptureTarget::Window(42), 800, 600, full_provision()).unwrap();
    wgc_frame_event(&mut reg, &"s1".to_string(), frame(1280, 720), 800, 600, PresentStatus::Presented).unwrap();

    let (meshes, _) = update_wgc_mirror(&mut reg, &"s1".to_string(), true, 800, 600).unwrap();
    assert_eq!(meshes.len(), 1);
    let m = &meshes[0];
    assert_eq!(m.texture, TextureRef::VideoSurface);
    // The full-frame crop mirrored: the left corners sample u = 1, the right
    // corners u = 0.
    assert_eq!(m.vertices[0].u, UvCoord { num: 1, den: 1 });
    assert_eq!(m.vertices[1].u, UvCoord { num: 0, den: 1 });
}

#[test]
fn stop_command_is_idempotent_across_registry() {
    let mut reg = Registry::new();
    start_wgc_session(&mut reg, "s1".to_string(), 7, CaptureTarget::Window(42), 800, 600, full_provision()).unwrap();
    stop_wgc_session(&mut reg, &"s1".to_string());
    assert!(reg.entries.is_empty());
    stop_wgc_session(&mut reg, &"s1".to_string());
    assert!(reg.entries.is_empty());
}

#[test]
fn composed_overlay_is_one_full_target_quad() {
    let snap = UiSnapshot {
        mirror: false,
        crop: capture_core::geom::UvRect::full_frame(),
        use_gray: false,
    };
    let meshes = compose_overlay(&snap, 640, 480, false);
    assert_eq!(meshes.len(), 1);
    let m = &meshes[0];
    assert_eq!(m.vertices.len(), 4);
    assert_eq!(m.indices, vec![0, 1, 2, 0, 2, 3]);
    assert_eq!((m.vertices[0].x, m.vertices[0].y), (0, 0));
    assert_eq!((m.vertices[2].x, m.vertices[2].y), (640, 480));
    assert_eq!(m.clip, PixelRect { left: 0, top: 0, right: 640, bottom: 480 });
}

#[test]
fn draw_planning_clips_skips_and_flags() {
    let snap = UiSnapshot {
        mirror: false,
        crop: capture_core::geom::UvRect::full_frame(),
        use_gray: true,
    };
    let mut meshes = compose_overlay(&snap, 640, 480, false);
    // A mesh clipped fully outside the target is skipped.
    let mut off_screen = meshes[0].clone();
    off_screen.clip = PixelRect { left: 700, top: 0, right: 900, bottom: 480 };
    // A mesh with no vertices is skipped.
    let empty = Mesh {
        vertices: Vec::new(),
        indices: Vec::new(),
        texture: TextureRef::Overlay(3),
        clip: PixelRect { left: 0, top: 0, right: 640, bottom: 480 },
    };
    // A mesh clipped partly outside is confined to the target.
    let mut wide = meshes[0].clone();
    wide.clip = PixelRect { left: -20, top: -20, right: 9000, bottom: 9000 };
    wide.texture = TextureRef::Overlay(5);
    meshes.push(off_screen);
    meshes.push(empty);
    meshes.push(wide);

    let pass = plan_draws(&meshes, 640, 480, true);
    assert!(pass.use_gray);
    assert_eq!(pass.draws.len(), 2);
    assert_eq!(pass.draws[0].mesh, 0);
    assert!(pass.draws[0].video_surface);
    assert_eq!(pass.draws[0].index_count, 6);
    assert_eq!(pass.draws[1].mesh, 3);
    assert!(!pass.draws[1].video_surface);
    assert_eq!(pass.draws[1].scissor, PixelRect { left: 0, top: 0, right: 640, bottom: 480 });
}

#[test]
fn degenerate_target_draws_nothing() {
    let snap = UiSnapshot {
        mirror: false,
        crop: capture_core::geom::UvRect::full_frame(),
        use_gray: false,
    };
    let meshes = compose_overlay(&snap, 640, 480, false);
    let pass = plan_draws(&meshes, 0, 480, false);
    assert!(pass.draws.is_empty());
    let pass2 = plan_draws(&meshes, 640, -5, false);
    assert!(pass2.draws.is_empty());
}

#[test]
fn renderer_defaults_and_render() {
    let r = Renderer::new();
    assert!(!r.use_gray);
    assert_eq!(r.gray_weights, [299, 587, 114]);
    let snap = UiSnapshot {
        mirror: false,
        crop: capture_core::geom::UvRect::full_frame(),
        use_gray: false,
    };
    let meshes = compose_overlay(&snap, 100, 100, false);
    let pass = r.render(&meshes, 100, 100);
    assert!(!pass.use_gray);
    assert_eq!(pass.draws.len(), 1);
}

#[test]
fn ui_defaults_match_fresh_session() {
    let ui = UiState::default();
    assert!(!ui.mirror);
    assert!(!ui.use_gray);
    assert!(!ui.show_crop);
    assert!(ui.is_topmost);
    assert_eq!(ui.crop.u_min, UvCoord { num: 0, den: 1 });
    assert_eq!(ui.crop.u_max, UvCoord { num: 1, den: 1 });
}

#[test]
fn overlay_texture_cache_follows_the_delta() {
    let mut s = Session::new(7);
    s.start(CaptureTarget::Window(42), 800, 600, full_provision()).unwrap();
    let ctx = s.context.as_mut().unwrap();
    ctx.insert_overlay_texture(5);
    ctx.insert_overlay_texture(9);
    ctx.insert_overlay_texture(5); // replacing an uploaded texture keeps its id once
    assert_eq!(ctx.overlay_textures, vec![5, 9]);
    ctx.remove_overlay_texture(5);
    assert_eq!(ctx.overlay_textures, vec![9]);
    ctx.remove_overlay_texture(5); // freeing an absent id is a no-op
    assert_eq!(ctx.overlay_textures, vec![9]);

    // stop() drops the whole cache with the rest of the GPU state.
    s.stop();
    assert!(s.context.is_none());
}
