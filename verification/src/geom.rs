//! Pixel rectangles, content extents, and exact normalized texture
//! coordinates. Texture coordinates are kept as rationals over the content
//! extent, so the crop arithmetic is exact.

use vstd::prelude::*;

verus! {

/// An axis-aligned rectangle in integer pixel coordinates.
#[derive(Clone, Copy, PartialEq, Eq, Structural, Debug)]
pub struct PixelRect {
    pub left: i32,
    pub top: i32,
    pub right: i32,
    pub bottom: i32,
}

/// The extent of captured content as the capture source reports it.
/// Either side may be 0 or 1 while the source window is minimized.
#[derive(Clone, Copy, PartialEq, Eq, Structural, Debug)]
pub struct ContentSize {
    pub width: i32,
    pub height: i32,
}

/// One normalized texture coordinate, the exact rational `num / den`.
#[derive(Clone, Copy, PartialEq, Eq, Structural, Debug)]
pub struct UvCoord {
    pub num: u32,
    pub den: u32,
}

impl UvCoord {
    /// A coordinate is well formed when its value lies in [0, 1].
    pub open spec fn wf(self) -> bool {
        self.den > 0 && self.num <= self.den
    }

    /// The rational `self` is at most the rational `other`.
    pub open spec fn le(self, other: UvCoord) -> bool {
        self.num * other.den <= other.num * self.den
    }

    /// The rational `self` is strictly below the rational `other`.
    pub open spec fn lt(self, other: UvCoord) -> bool {
        self.num * other.den < other.num * self.den
    }
}

/// A normalized source rectangle for the video quad. After a horizontal
/// mirror `u_min` and `u_max` trade places, so the fields are the stored
/// corners, not ordered bounds.
#[derive(Clone, Copy, PartialEq, Eq, Structural, Debug)]
pub struct UvRect {
    pub u_min: UvCoord,
    pub v_min: UvCoord,
    pub u_max: UvCoord,
    pub v_max: UvCoord,
}

impl UvRect {
    pub open spec fn wf(self) -> bool {
        &&& self.u_min.wf()
        &&& self.u_max.wf()
        &&& self.v_min.wf()
        &&& self.v_max.wf()
        &&& self.u_min.den == self.u_max.den
        &&& self.v_min.den == self.v_max.den
    }

    /// The full source frame, `(0, 0)` to `(1, 1)`.
    pub open spec fn spec_full_frame() -> UvRect {
        UvRect {
            u_min: UvCoord { num: 0, den: 1 },
            v_min: UvCoord { num: 0, den: 1 },
            u_max: UvCoord { num: 1, den: 1 },
            v_max: UvCoord { num: 1, den: 1 },
        }
    }

    /// The full source frame, `(0, 0)` to `(1, 1)`.
    pub fn full_frame() -> (r: UvRect)
        ensures
            r == UvRect::spec_full_frame(),
            r.wf(),
    {
        UvRect {
            u_min: UvCoord { num: 0, den: 1 },
            v_min: UvCoord { num: 0, den: 1 },
            u_max: UvCoord { num: 1, den: 1 },
            v_max: UvCoord { num: 1, den: 1 },
        }
    }
}

/// `value` confined to `[0, dim]`.
pub open spec fn spec_clamp_to_extent(value: int, dim: int) -> int {
    if value < 0 {
        0
    } else if value > dim {
        dim
    } else {
        value
    }
}

/// Confine one crop edge to the content extent, as a coordinate numerator.
fn clamp_to_extent(value: i32, dim: i32) -> (r: u32)
    requires
        dim >= 1,
    ensures
        r == spec_clamp_to_extent(value as int, dim as int),
        r <= dim,
{
    if value < 0 {
        0
    } else if value > dim {
        dim as u32
    } else {
        value as u32
    }
}

/// The normalized crop of `crop` against content extent `content`: each edge
/// is confined to the extent and divided by it.
pub open spec fn spec_uv_of_crop(crop: PixelRect, content: ContentSize) -> UvRect {
    UvRect {
        u_min: UvCoord {
            num: spec_clamp_to_extent(crop.left as int, content.width as int) as u32,
            den: content.width as u32,
        },
        v_min: UvCoord {
            num: spec_clamp_to_extent(crop.top as int, content.height as int) as u32,
            den: content.height as u32,
        },
        u_max: UvCoord {
            num: spec_clamp_to_extent(crop.right as int, content.width as int) as u32,
            den: content.width as u32,
        },
        v_max: UvCoord {
            num: spec_clamp_to_extent(crop.bottom as int, content.height as int) as u32,
            den: content.height as u32,
        },
    }
}

/// Recompute the normalized crop rectangle from the current content extent.
/// Returns `None` when the extent is degenerate (a side of zero or less), in
/// which case the caller keeps its previous crop.
pub fn uv_of_crop(crop: PixelRect, content: ContentSize) -> (r: Option<UvRect>)
    ensures
        r is Some <==> content.width >= 1 && content.height >= 1,
        r is Some ==> r->0 == spec_uv_of_crop(crop, content) && r->0.wf(),
{
    if content.width >= 1 && content.height >= 1 {
        let uv = UvRect {
            u_min: UvCoord { num: clamp_to_extent(crop.left, content.width), den: content.width as u32 },
            v_min: UvCoord { num: clamp_to_extent(crop.top, content.height), den: content.height as u32 },
            u_max: UvCoord { num: clamp_to_extent(crop.right, content.width), den: content.width as u32 },
            v_max: UvCoord { num: clamp_to_extent(crop.bottom, content.height), den: content.height as u32 },
        };
        Some(uv)
    } else {
        None
    }
}

/// `uv` with its horizontal coordinates traded, which draws the quad mirrored.
pub open spec fn spec_mirror_horizontal(uv: UvRect) -> UvRect {
    UvRect { u_min: uv.u_max, u_max: uv.u_min, ..uv }
}

/// Trade the horizontal coordinates so that the video quad samples mirrored.
pub fn mirror_horizontal(uv: UvRect) -> (r: UvRect)
    ensures
        r == spec_mirror_horizontal(uv),
{
    UvRect { u_min: uv.u_max, u_max: uv.u_min, ..uv }
}

/// Law: mirroring trades only the two horizontal coordinates, so applying it
/// twice restores the original rectangle.
pub proof fn lemma_mirror_involutive(uv: UvRect)
    ensures
        spec_mirror_horizontal(spec_mirror_horizontal(uv)) == uv,
{
}

/// Law: a crop rectangle lying within the content bounds normalizes to
/// coordinates with `0 <= u_min < u_max <= 1` and `0 <= v_min < v_max <= 1`,
/// as rationals.
pub proof fn lemma_uv_crop_normalized(crop: PixelRect, content: ContentSize)
    requires
        content.width >= 1,
        content.height >= 1,
        0 <= crop.left < crop.right <= content.width,
        0 <= crop.top < crop.bottom <= content.height,
    ensures
        ({
            let uv = spec_uv_of_crop(crop, content);
            &&& uv.wf()
            &&& UvCoord { num: 0, den: 1 }.le(uv.u_min)
            &&& uv.u_min.lt(uv.u_max)
            &&& uv.u_max.le(UvCoord { num: 1, den: 1 })
            &&& UvCoord { num: 0, den: 1 }.le(uv.v_min)
            &&& uv.v_min.lt(uv.v_max)
            &&& uv.v_max.le(UvCoord { num: 1, den: 1 })
        }),
{
    let uv = spec_uv_of_crop(crop, content);
    let w = content.width as int;
    let h = content.height as int;
    assert(uv.u_min.num == crop.left && uv.u_max.num == crop.right);
    assert(uv.v_min.num == crop.top && uv.v_max.num == crop.bottom);
    assert(crop.left * w < crop.right * w) by (nonlinear_arith)
        requires crop.left < crop.right, w >= 1;
    assert(crop.top * h < crop.bottom * h) by (nonlinear_arith)
        requires crop.top < crop.bottom, h >= 1;
}

} // verus!
