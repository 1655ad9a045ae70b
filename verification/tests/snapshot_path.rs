//! The snapshot encoding path: channel swizzle, PNG and base64 round trip,
//! failure cases.

use base64::Engine;
use capture_core::errors::SnapshotError;
use capture_core::snapshot::{
    ReadbackFrame, bgra_to_rgba_opaque, data_url_from_png, encode_snapshot, snapshot_from_readback,
};

#[test]
fn swizzle_reorders_channels_and_forces_opacity() {
    // Two pixels in one row, stride 12 (one padding pixel per row):
    // blue-ish (b=200, g=10, r=20, a=0) and red-ish (b=5, g=6, r=250, a=77).
    let src = vec![
        200, 10, 20, 0, 5, 6, 250, 77, 99, 99, 99, 99, // row 0 + padding
    ];
    let out = bgra_to_rgba_opaque(&src, 2, 1, 12).unwrap();
    assert_eq!(out, vec![20, 10, 200, 255, 250, 6, 5, 255]);
}

#[test]
fn swizzle_handles_multiple_strided_rows() {
    // 1 pixel wide, 2 rows, stride 8.
    let src = vec![
        1, 2, 3, 4, 0, 0, 0, 0, // row 0: b=1 g=2 r=3
        9, 8, 7, 6, 0, 0, 0, 0, // row 1: b=9 g=8 r=7
    ];
    let out = bgra_to_rgba_opaque(&src, 1, 2, 8).unwrap();
    assert_eq!(out, vec![3, 2, 1, 255, 7, 8, 9, 255]);
}

#[test]
fn swizzle_rejects_short_buffer() {
    let src = vec![0u8; 10];
    assert!(bgra_to_rgba_opaque(&src, 2, 2, 8).is_none()); // needs 16 bytes
    assert!(bgra_to_rgba_opaque(&src, 3, 1, 8).is_none()); // stride under 4*w
    assert!(bgra_to_rgba_opaque(&src, 1, 1, 8).is_some());
}

#[test]
fn encode_snapshot_round_trips_through_png_and_base64() {
    // A 2x1 frame: a pure-blue pixel and a pure-red pixel, BGRA.
    let src = vec![255, 0, 0, 0, 0, 0, 255, 0];
    let url = encode_snapshot(&src, 2, 1, 8).unwrap();

    let prefix = "data:image/png;base64,";
    assert!(url.starts_with(prefix));
    let b64 = &url[prefix.len()..];
    let png = base64::engine::general_purpose::STANDARD.decode(b64).unwrap();
    assert_eq!(&png[1..4], b"PNG");

    let decoded = image::load_from_memory(&png).unwrap().to_rgba8();
    assert_eq!(decoded.dimensions(), (2, 1));
    // Blue pixel, forced opaque.
    assert_eq!(decoded.get_pixel(0, 0).0, [0, 0, 255, 255]);
    // Red pixel, forced opaque.
    assert_eq!(decoded.get_pixel(1, 0).0, [255, 0, 0, 255]);
}

#[test]
fn encode_snapshot_reports_buffer_mismatch() {
    let src = vec![0u8; 4];
    assert_eq!(encode_snapshot(&src, 2, 1, 8), Err(SnapshotError::BufferMismatch));
}

#[test]
fn encode_snapshot_reports_encoder_refusal() {
    // A zero-extent image satisfies the buffer arithmetic but no PNG can
    // carry it: the encoder refuses.
    let src: Vec<u8> = Vec::new();
    assert_eq!(encode_snapshot(&src, 0, 0, 0), Err(SnapshotError::EncodeFailed));
}

#[test]
fn data_url_prefixes_the_base64_payload() {
    let png = vec![1u8, 2, 3];
    let url = data_url_from_png(&png).unwrap();
    let expected = format!(
        "data:image/png;base64,{}",
        base64::engine::general_purpose::STANDARD.encode(&png)
    );
    assert_eq!(url, expected);
}

#[test]
fn snapshot_times_out_without_a_frame() {
    assert_eq!(snapshot_from_readback(None), Err(SnapshotError::CaptureTimeout));
}

#[test]
fn snapshot_encodes_the_first_frame() {
    let frame = ReadbackFrame { bytes: vec![255, 0, 0, 0, 0, 0, 255, 0], width: 2, height: 1, stride: 8 };
    let direct = encode_snapshot(&frame.bytes, 2, 1, 8).unwrap();
    assert_eq!(snapshot_from_readback(Some(frame)), Ok(direct));
}

#[test]
fn every_covering_nonempty_frame_encodes() {
    // The smallest frame there is: one pixel, tightly packed.
    let src = vec![10u8, 20, 30, 40];
    let url = encode_snapshot(&src, 1, 1, 4).unwrap();
    assert!(url.starts_with("data:image/png;base64,"));
}
