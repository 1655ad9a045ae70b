//! The single-shot snapshot path: a frame read back to CPU memory arrives as
//! BGRA rows with a device-chosen stride; it leaves as a `data:` URL holding
//! a base64 PNG. The channel swizzle (forcing full opacity, so transparent
//! host windows do not punch holes into the thumbnail) is computed here; the
//! PNG and base64 encodings are the outside encoders' work.

use base64::Engine;
use vstd::prelude::*;
use vstd::arithmetic::div_mod::lemma_fundamental_div_mod;
use vstd::arithmetic::mul::lemma_mul_inequality;
use vstd::string::StringExecFns;
use crate::errors::SnapshotError;

verus! {

/// What the PNG encoder returns for an RGBA image: a function of the extent
/// and the pixels alone.
pub uninterp spec fn png_bytes_of(width: u32, height: u32, rgba: Seq<u8>) -> Seq<u8>;

/// What the standard base64 engine returns for a byte string: a function of
/// the bytes alone.
pub uninterp spec fn base64_of(data: Seq<u8>) -> Seq<char>;

/// The four output bytes of pixel `(x, y)` stand at `4 * (y * width + x)`
/// and carry the source pixel's channels reordered from BGRA to RGBA, with
/// the alpha forced to fully opaque.
pub open spec fn spec_pixel_ok(
    out: Seq<u8>,
    src: Seq<u8>,
    width: int,
    stride: int,
    y: int,
    x: int,
) -> bool {
    let o = 4 * (y * width + x);
    let s = y * stride + 4 * x;
    &&& out[o] == src[s + 2]
    &&& out[o + 1] == src[s + 1]
    &&& out[o + 2] == src[s]
    &&& out[o + 3] == 255
}

/// One byte of the converted image, by output position.
pub open spec fn spec_rgba_byte(src: Seq<u8>, width: int, stride: int, o: int) -> u8 {
    let p = o / 4;
    let c = o % 4;
    let y = p / width;
    let x = p % width;
    if c == 0 {
        src[y * stride + 4 * x + 2]
    } else if c == 1 {
        src[y * stride + 4 * x + 1]
    } else if c == 2 {
        src[y * stride + 4 * x]
    } else {
        255u8
    }
}

/// The whole converted image: tightly packed RGBA, fully opaque.
pub open spec fn spec_rgba_image(src: Seq<u8>, width: int, height: int, stride: int) -> Seq<u8> {
    Seq::new((4 * width * height) as nat, |o: int| spec_rgba_byte(src, width, stride, o))
}

/// Per-pixel correctness of a fully built output buffer amounts to equality
/// with the converted image.
proof fn lemma_pixels_form_image(out: Seq<u8>, src: Seq<u8>, width: int, height: int, stride: int)
    requires
        width >= 0,
        height >= 0,
        out.len() == 4 * width * height,
        forall|y: int, x: int|
            0 <= y < height && 0 <= x < width ==> #[trigger] spec_pixel_ok(out, src, width, stride, y, x),
    ensures
        out =~= spec_rgba_image(src, width, height, stride),
{
    assert forall|o: int| 0 <= o < out.len() implies out[o] == spec_rgba_byte(src, width, stride, o) by {
        let p = o / 4;
        let c = o % 4;
        lemma_fundamental_div_mod(o, 4);
        // The pixel index lies within the image.
        assert(0 <= p && p < width * height) by (nonlinear_arith)
            requires o == 4 * p + c, 0 <= c < 4, 0 <= o < 4 * width * height;
        let y = p / width;
        let x = p % width;
        lemma_fundamental_div_mod(p, width);
        assert(0 <= y < height) by (nonlinear_arith)
            requires p == width * y + x, 0 <= x < width, 0 <= p < width * height;
        assert(spec_pixel_ok(out, src, width, stride, y, x));
        assert(4 * (y * width + x) + c == o) by (nonlinear_arith)
            requires p == width * y + x, o == 4 * p + c;
    }
}

/// Convert one read-back frame from strided BGRA rows to tightly packed,
/// fully opaque RGBA. Returns `None` exactly when the buffer does not cover
/// `height` rows of `width` pixels at the given stride.
pub fn bgra_to_rgba_opaque(src: &Vec<u8>, width: usize, height: usize, stride: usize) -> (r: Option<
    Vec<u8>,
>)
    ensures
        r is Some <==> 4 * width <= stride && stride * height <= src@.len(),
        r is Some ==> r->0@ == spec_rgba_image(src@, width as int, height as int, stride as int),
        r is Some ==> r->0@.len() == 4 * width * height,
{
    let n = src.len();
    let four_w = match width.checked_mul(4) {
        Some(v) => v,
        None => {
            proof {
                assert(4 * width > usize::MAX >= stride);
            }
            return None;
        },
    };
    if four_w > stride {
        return None;
    }
    let total = match stride.checked_mul(height) {
        Some(v) => v,
        None => {
            proof {
                assert(stride * height > usize::MAX >= n == src@.len());
            }
            return None;
        },
    };
    if total > n {
        return None;
    }

    let mut out: Vec<u8> = Vec::new();
    let mut y: usize = 0;
    let mut row_start: usize = 0;
    while y < height
        invariant
            y <= height,
            row_start == y * stride,
            out@.len() == 4 * (y * width),
            4 * width <= stride,
            stride * height <= src@.len(),
            src@.len() <= usize::MAX,
            forall|yy: int, xx: int|
                0 <= yy < y && 0 <= xx < width
                    ==> #[trigger] spec_pixel_ok(out@, src@, width as int, stride as int, yy, xx),
        decreases height - y,
    {
        proof {
            lemma_mul_inequality(y as int + 1, height as int, stride as int);
        }
        let mut x: usize = 0;
        let mut px: usize = row_start;
        while x < width
            invariant
                x <= width,
                y < height,
                row_start == y * stride,
                px == row_start + 4 * x,
                out@.len() == 4 * (y * width) + 4 * x,
                4 * width <= stride,
                stride * height <= src@.len(),
                src@.len() <= usize::MAX,
                (y + 1) * stride <= src@.len(),
                forall|yy: int, xx: int|
                    0 <= yy < y && 0 <= xx < width
                        ==> #[trigger] spec_pixel_ok(out@, src@, width as int, stride as int, yy, xx),
                forall|xx: int|
                    0 <= xx < x
                        ==> #[trigger] spec_pixel_ok(out@, src@, width as int, stride as int, y as int, xx),
            decreases width - x,
        {
            proof {
                assert(px + 4 <= row_start + 4 * width <= row_start + stride);
                assert(row_start + stride == (y + 1) * stride) by (nonlinear_arith)
                    requires row_start == y * stride;
            }
            let b = src[px];
            let g = src[px + 1];
            let red = src[px + 2];
            let ghost before = out@;
            out.push(red);
            out.push(g);
            out.push(b);
            out.push(255);
            proof {
                let w = width as int;
                let st = stride as int;
                assert(4 * ((y as int) * w + x as int) == before.len()) by (nonlinear_arith)
                    requires before.len() == 4 * ((y as int) * w) + 4 * (x as int);
                assert((y as int) * st + 4 * (x as int) == px);
                assert(spec_pixel_ok(out@, src@, w, st, y as int, x as int));
                assert forall|yy: int, xx: int|
                    0 <= yy < y && 0 <= xx < width
                        implies #[trigger] spec_pixel_ok(out@, src@, w, st, yy, xx) by {
                    assert(spec_pixel_ok(before, src@, w, st, yy, xx));
                    assert(4 * (yy * w + xx) + 3 < before.len()) by (nonlinear_arith)
                        requires
                            0 <= yy < y as int,
                            0 <= xx < w,
                            before.len() == 4 * ((y as int) * w) + 4 * (x as int),
                            0 <= x as int;
                }
                assert forall|xx: int|
                    0 <= xx < x
                        implies #[trigger] spec_pixel_ok(out@, src@, w, st, y as int, xx) by {
                    assert(spec_pixel_ok(before, src@, w, st, y as int, xx));
                    assert(4 * ((y as int) * w + xx) + 3 < before.len()) by (nonlinear_arith)
                        requires
                            0 <= xx < x as int,
                            before.len() == 4 * ((y as int) * w) + 4 * (x as int);
                }
            }
            x = x + 1;
            px = px + 4;
        }
        proof {
            assert(4 * ((y + 1) * width) == 4 * (y * width) + 4 * width) by (nonlinear_arith);
            assert((y + 1) * stride == y * stride + stride) by (nonlinear_arith);
        }
        y = y + 1;
        row_start = row_start + stride;
    }
    proof {
        assert(4 * (height as int * width as int) == 4 * (width as int) * (height as int))
            by (nonlinear_arith);
        lemma_pixels_form_image(out@, src@, width as int, height as int, stride as int);
    }
    Some(out)
}

/// Relies on the `image` crate's PNG encoder: what it writes for an RGBA
/// image in memory is a function of the extent and the pixels alone, and
/// with a buffer of exactly the image's size it refuses only a zero width
/// or height. The input bound keeps the encoder's output comfortably under
/// the allocation cap std documents for `Vec` (`isize::MAX` bytes, half the
/// address space) — PNG framing expands its input by far less than double —
/// so the call returns instead of panicking, and what it returns fits that
/// cap.
#[verifier::external_body]
fn png_encode_rgba(width: u32, height: u32, rgba: &Vec<u8>) -> (r: Option<Vec<u8>>)
    requires
        rgba@.len() == 4 * width * height,
        rgba@.len() <= usize::MAX / 4,
    ensures
        r is Some ==> r->0@ == png_bytes_of(width, height, rgba@),
        width >= 1 && height >= 1 ==> r is Some,
        r is Some ==> r->0@.len() <= usize::MAX / 2,
{
    let img = image::ImageBuffer::<image::Rgba<u8>, Vec<u8>>::from_raw(width, height, rgba.clone())?;
    let mut out: Vec<u8> = Vec::new();
    let mut cursor = std::io::Cursor::new(&mut out);
    match img.write_to(&mut cursor, image::ImageFormat::Png) {
        Ok(()) => Some(out),
        Err(_) => None,
    }
}

/// Relies on base64's standard engine: padded encoding over the standard
/// alphabet, a function of the bytes alone, four characters for each three
/// bytes rounded up. The engine refuses (by panic) inputs whose encoding
/// would not fit in memory, so very long inputs are kept out.
#[verifier::external_body]
fn base64_encode_standard(data: &Vec<u8>) -> (r: String)
    requires
        data@.len() <= usize::MAX / 2,
    ensures
        r@ == base64_of(data@),
        r@.len() == 4 * ((data@.len() + 2) / 3),
{
    base64::engine::general_purpose::STANDARD.encode(data.as_slice())
}

/// The scheme-and-type prefix of an inline PNG.
pub open spec fn spec_data_url_prefix() -> Seq<char> {
    "data:image/png;base64,"@
}

/// The data URL carrying `png` inline. `None` exactly when the blob is too
/// long to encode (beyond half the address space — never a real PNG).
pub fn data_url_from_png(png: &Vec<u8>) -> (r: Option<String>)
    ensures
        r is Some <==> png@.len() <= usize::MAX / 2,
        r is Some ==> r->0@ == spec_data_url_prefix() + base64_of(png@),
{
    if png.len() > usize::MAX / 2 {
        return None;
    }
    let b64 = base64_encode_standard(png);
    let mut url = String::from_str("data:image/png;base64,");
    url.append(b64.as_str());
    Some(url)
}

/// The data URL a successful snapshot of a `width` by `height` frame read
/// back as `src` (BGRA rows at `stride`) encodes to.
pub open spec fn spec_snapshot_data_url(src: Seq<u8>, width: u32, height: u32, stride: int) -> Seq<
    char,
> {
    spec_data_url_prefix() + base64_of(
        png_bytes_of(width, height, spec_rgba_image(src, width as int, height as int, stride)),
    )
}

/// One frame read back from the staging texture: its pixels as BGRA rows at
/// the device-chosen row pitch.
#[derive(Clone, Debug)]
pub struct ReadbackFrame {
    pub bytes: Vec<u8>,
    pub width: u32,
    pub height: u32,
    pub stride: usize,
}

/// Finish the single-shot snapshot after the bounded wait for the first
/// frame: no frame within the wait is a `CaptureTimeout`; a frame that
/// covers its extent is encoded as an inline PNG.
pub fn snapshot_from_readback(readback: Option<ReadbackFrame>) -> (r: Result<
    String,
    SnapshotError,
>)
    ensures
        readback is None <==> r == Err::<String, SnapshotError>(SnapshotError::CaptureTimeout),
        readback is Some ==> ({
            let f = readback->0;
            &&& (!(4 * f.width <= f.stride && f.stride * f.height <= f.bytes@.len()) <==> r
                == Err::<String, SnapshotError>(SnapshotError::BufferMismatch))
            &&& (r is Err ==> r->Err_0 == SnapshotError::BufferMismatch || r->Err_0
                == SnapshotError::EncodeFailed || r->Err_0 == SnapshotError::CaptureTimeout)
            &&& (r is Ok ==> r->Ok_0@ == spec_snapshot_data_url(
                f.bytes@,
                f.width,
                f.height,
                f.stride as int,
            ))
            &&& (spec_snapshot_encodable(f.bytes@, f.width, f.height, f.stride as int) ==> r is Ok)
        }),
{
    match readback {
        Some(f) => encode_snapshot(&f.bytes, f.width, f.height, f.stride),
        None => Err(SnapshotError::CaptureTimeout),
    }
}

/// The inputs `encode_snapshot` owes a data URL for: the buffer covers the
/// extent, the extent is not empty, and the image stays within a quarter of
/// the address space — no frame a machine holds is larger.
pub open spec fn spec_snapshot_encodable(src: Seq<u8>, width: u32, height: u32, stride: int) -> bool {
    &&& 4 * width <= stride
    &&& stride * height <= src.len()
    &&& width >= 1
    &&& height >= 1
    &&& 4 * width * height <= usize::MAX / 4
}

/// Encode one read-back frame as an inline PNG for the host: swizzle the
/// strided BGRA rows to opaque RGBA, encode as PNG, wrap as a base64 data
/// URL. A buffer that does not cover the extent is `BufferMismatch`; an
/// empty extent, an image beyond a quarter of the address space, and
/// whatever else the outside encoder refuses come back as `EncodeFailed`;
/// every other frame encodes.
pub fn encode_snapshot(src: &Vec<u8>, width: u32, height: u32, stride: usize) -> (r: Result<
    String,
    SnapshotError,
>)
    ensures
        !(4 * width <= stride && stride * height <= src@.len()) <==> r == Err::<String, SnapshotError>(
            SnapshotError::BufferMismatch,
        ),
        r is Err ==> r->Err_0 == SnapshotError::BufferMismatch || r->Err_0
            == SnapshotError::EncodeFailed,
        r is Ok ==> r->Ok_0@ == spec_snapshot_data_url(src@, width, height, stride as int),
        spec_snapshot_encodable(src@, width, height, stride as int) ==> r is Ok,
{
    let w: usize = width as usize;
    let h: usize = height as usize;
    let rgba = match bgra_to_rgba_opaque(src, w, h, stride) {
        Some(v) => v,
        None => {
            return Err(SnapshotError::BufferMismatch);
        },
    };
    if width < 1 || height < 1 || rgba.len() > usize::MAX / 4 {
        return Err(SnapshotError::EncodeFailed);
    }
    let png = match png_encode_rgba(width, height, &rgba) {
        Some(v) => v,
        None => {
            return Err(SnapshotError::EncodeFailed);
        },
    };
    match data_url_from_png(&png) {
        Some(url) => Ok(url),
        None => Err(SnapshotError::EncodeFailed),
    }
}

} // verus!
