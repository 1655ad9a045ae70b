//! The command surface over the session table.

use capture_core::errors::SessionError;
use capture_core::geom::ContentSize;
use capture_core::registry::{
    Registry, pause_wgc_session, resume_wgc_session, start_wgc_session, update_wgc_resize,
};
use capture_core::session::{
    CaptureTarget, DeviceHandle, DriverKind, Provision, SessionState,
};

fn full_provision() -> Provision {
    Provision {
        device: Some(DeviceHandle { id: 11, driver: DriverKind::Hardware }),
        item_size: Some(ContentSize { width: 1280, height: 720 }),
        swap_chain_id: Some(21),
        pool_id: Some(31),
    }
}

#[test]
fn starting_same_label_replaces_the_session() {
    let mut reg = Registry::new();
    start_wgc_session(&mut reg, "s1".to_string(), 7, CaptureTarget::Window(42), 800, 600, full_provision()).unwrap();
    let other = Provision { swap_chain_id: Some(99), ..full_provision() };
    start_wgc_session(&mut reg, "s1".to_string(), 7, CaptureTarget::Window(43), 800, 600, other).unwrap();
    assert_eq!(reg.entries.len(), 1);
    let s = &reg.entries[0].session;
    assert_eq!(s.context.as_ref().unwrap().swap_chain.id, 99);
    assert_eq!(s.target, Some(CaptureTarget::Window(43)));
}

#[test]
fn failed_start_leaves_no_session_under_the_label() {
    let mut reg = Registry::new();
    start_wgc_session(&mut reg, "s1".to_string(), 7, CaptureTarget::Window(42), 800, 600, full_provision()).unwrap();
    let bad = Provision { device: None, ..full_provision() };
    let r = start_wgc_session(&mut reg, "s1".to_string(), 7, CaptureTarget::Window(42), 800, 600, bad);
    assert_eq!(r, Err(SessionError::DeviceCreation));
    assert!(reg.entries.is_empty());
}

#[test]
fn resume_unknown_label_is_reported() {
    let mut reg = Registry::new();
    let r = resume_wgc_session(&mut reg, &"ghost".to_string(), CaptureTarget::Window(42), 800, 600, full_provision());
    assert_eq!(r, Err(SessionError::SessionNotFound));
}

#[test]
fn pause_and_resume_through_the_registry() {
    let mut reg = Registry::new();
    start_wgc_session(&mut reg, "s1".to_string(), 7, CaptureTarget::Window(42), 800, 600, full_provision()).unwrap();
    pause_wgc_session(&mut reg, &"s1".to_string());
    assert_eq!(reg.entries[0].session.state, SessionState::Paused);
    let r = resume_wgc_session(&mut reg, &"s1".to_string(), CaptureTarget::Window(42), 800, 600, full_provision());
    assert!(r.is_ok());
    assert_eq!(reg.entries[0].session.state, SessionState::Running);
}

#[test]
fn pause_unknown_label_is_ignored() {
    let mut reg = Registry::new();
    pause_wgc_session(&mut reg, &"ghost".to_string());
    assert!(reg.entries.is_empty());
}

#[test]
fn resize_touches_only_the_named_session() {
    let mut reg = Registry::new();
    start_wgc_session(&mut reg, "s1".to_string(), 7, CaptureTarget::Window(42), 800, 600, full_provision()).unwrap();
    start_wgc_session(&mut reg, "s2".to_string(), 8, CaptureTarget::Window(43), 800, 600, full_provision()).unwrap();
    update_wgc_resize(&mut reg, &"s1".to_string(), 1024, 768);
    let s1 = &reg.entries.iter().find(|e| e.id == "s1").unwrap().session;
    let s2 = &reg.entries.iter().find(|e| e.id == "s2").unwrap().session;
    assert_eq!(s1.context.as_ref().unwrap().swap_chain.width, 1024);
    assert_eq!(s2.context.as_ref().unwrap().swap_chain.width, 800);
}

#[test]
fn resize_clamps_to_one_pixel_least() {
    let mut reg = Registry::new();
    start_wgc_session(&mut reg, "s1".to_string(), 7, CaptureTarget::Window(42), 800, 600, full_provision()).unwrap();
    update_wgc_resize(&mut reg, &"s1".to_string(), 0, 0);
    let chain = reg.entries[0].session.context.as_ref().unwrap().swap_chain;
    assert_eq!((chain.width, chain.height), (1, 1));
}
