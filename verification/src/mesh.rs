//! Meshes the overlay pass hands to the renderer: textured, clipped triangle
//! lists, immutable once composed and consumed once.

use vstd::prelude::*;
use crate::geom::{PixelRect, UvCoord, UvRect, spec_mirror_horizontal, mirror_horizontal};
use crate::ui::UiSnapshot;

verus! {

/// Which texture a mesh samples: the captured video surface, bound under a
/// fixed identifier, or one of the overlay textures (glyph atlas, icons).
#[derive(Clone, Copy, PartialEq, Eq, Structural, Debug)]
pub enum TextureRef {
    VideoSurface,
    Overlay(u64),
}

/// The overlay glyph atlas.
pub const GLYPH_ATLAS: u64 = 0;

/// One vertex: position in target pixels, normalized texture coordinate,
/// packed premultiplied RGBA color.
#[derive(Clone, Copy, PartialEq, Eq, Structural, Debug)]
pub struct Vertex {
    pub x: i32,
    pub y: i32,
    pub u: UvCoord,
    pub v: UvCoord,
    pub color: u32,
}

/// A triangle list with its texture and clip rectangle, in target pixels.
#[derive(Clone, Debug)]
pub struct Mesh {
    pub vertices: Vec<Vertex>,
    pub indices: Vec<u32>,
    pub texture: TextureRef,
    pub clip: PixelRect,
}

/// The mathematical content of a mesh.
pub struct MeshModel {
    pub vertices: Seq<Vertex>,
    pub indices: Seq<u32>,
    pub texture: TextureRef,
    pub clip: PixelRect,
}

impl View for Mesh {
    type V = MeshModel;

    open spec fn view(&self) -> MeshModel {
        MeshModel {
            vertices: self.vertices@,
            indices: self.indices@,
            texture: self.texture,
            clip: self.clip,
        }
    }
}

/// Opaque white: the overlay tints nothing.
pub const WHITE: u32 = 0xFFFF_FFFF;

/// The two triangles of an axis-aligned quad.
pub open spec fn spec_quad_indices() -> Seq<u32> {
    seq![0u32, 1u32, 2u32, 0u32, 2u32, 3u32]
}

/// The four corners of the rectangle `(x0, y0)`-`(x1, y1)`, with the texture
/// rectangle `uv` laid over it corner for corner.
pub open spec fn spec_quad_vertices(x0: i32, y0: i32, x1: i32, y1: i32, uv: UvRect) -> Seq<Vertex> {
    seq![
        Vertex { x: x0, y: y0, u: uv.u_min, v: uv.v_min, color: WHITE },
        Vertex { x: x1, y: y0, u: uv.u_max, v: uv.v_min, color: WHITE },
        Vertex { x: x1, y: y1, u: uv.u_max, v: uv.v_max, color: WHITE },
        Vertex { x: x0, y: y1, u: uv.u_min, v: uv.v_max, color: WHITE },
    ]
}

/// The background video quad: it spans the whole target and samples `uv`.
pub open spec fn spec_video_mesh(width: i32, height: i32, uv: UvRect) -> MeshModel {
    MeshModel {
        vertices: spec_quad_vertices(0, 0, width, height, uv),
        indices: spec_quad_indices(),
        texture: TextureRef::VideoSurface,
        clip: PixelRect { left: 0, top: 0, right: width, bottom: height },
    }
}

/// The placeholder shown while the source is minimized: a centered quad over
/// the middle half of the target, sampling the whole glyph atlas.
pub open spec fn spec_placeholder_mesh(width: i32, height: i32) -> MeshModel {
    MeshModel {
        vertices: spec_quad_vertices(
            (width / 4) as i32,
            (height / 4) as i32,
            (width - width / 4) as i32,
            (height - height / 4) as i32,
            UvRect::spec_full_frame(),
        ),
        indices: spec_quad_indices(),
        texture: TextureRef::Overlay(GLYPH_ATLAS),
        clip: PixelRect { left: 0, top: 0, right: width, bottom: height },
    }
}

/// The mesh list of one composed frame: the placeholder while the source is
/// minimized, otherwise the video quad with the snapshot's crop, mirrored
/// when the snapshot asks for it.
pub open spec fn spec_compose_overlay(
    snap: UiSnapshot,
    width: i32,
    height: i32,
    minimized: bool,
) -> Seq<MeshModel> {
    if minimized {
        seq![spec_placeholder_mesh(width, height)]
    } else {
        let uv = if snap.mirror {
            spec_mirror_horizontal(snap.crop)
        } else {
            snap.crop
        };
        seq![spec_video_mesh(width, height, uv)]
    }
}

fn quad_mesh(x0: i32, y0: i32, x1: i32, y1: i32, uv: UvRect, texture: TextureRef, clip: PixelRect) -> (r: Mesh)
    ensures
        r@.vertices == spec_quad_vertices(x0, y0, x1, y1, uv),
        r@.indices == spec_quad_indices(),
        r@.texture == texture,
        r@.clip == clip,
{
    let mut vertices: Vec<Vertex> = Vec::new();
    vertices.push(Vertex { x: x0, y: y0, u: uv.u_min, v: uv.v_min, color: WHITE });
    vertices.push(Vertex { x: x1, y: y0, u: uv.u_max, v: uv.v_min, color: WHITE });
    vertices.push(Vertex { x: x1, y: y1, u: uv.u_max, v: uv.v_max, color: WHITE });
    vertices.push(Vertex { x: x0, y: y1, u: uv.u_min, v: uv.v_max, color: WHITE });
    let mut indices: Vec<u32> = Vec::new();
    indices.push(0);
    indices.push(1);
    indices.push(2);
    indices.push(0);
    indices.push(2);
    indices.push(3);
    proof {
        assert(vertices@ =~= spec_quad_vertices(x0, y0, x1, y1, uv));
        assert(indices@ =~= spec_quad_indices());
    }
    Mesh { vertices, indices, texture, clip }
}

/// Compose the overlay for one frame.
pub fn compose_overlay(snap: &UiSnapshot, width: i32, height: i32, minimized: bool) -> (r: Vec<Mesh>)
    requires
        width >= 1,
        height >= 1,
    ensures
        ({
            let model = spec_compose_overlay(*snap, width, height, minimized);
            &&& r@.len() == model.len()
            &&& forall|i: int| 0 <= i < r@.len() ==> #[trigger] r@[i]@ == model[i]
        }),
{
    let clip = PixelRect { left: 0, top: 0, right: width, bottom: height };
    let mut out: Vec<Mesh> = Vec::new();
    if minimized {
        out.push(quad_mesh(
            width / 4,
            height / 4,
            width - width / 4,
            height - height / 4,
            UvRect::full_frame(),
            TextureRef::Overlay(GLYPH_ATLAS),
            clip,
        ));
    } else {
        let uv = if snap.mirror {
            mirror_horizontal(snap.crop)
        } else {
            snap.crop
        };
        out.push(quad_mesh(0, 0, width, height, uv, TextureRef::VideoSurface, clip));
    }
    out
}

} // verus!
