//! Draw planning for the immediate-mode renderer. The GPU executes the plan;
//! what is decided here — which meshes draw, under which scissor rectangle,
//! with which pixel-shader mode — is the renderer's logic.

use vstd::prelude::*;
use crate::geom::PixelRect;
use crate::mesh::{Mesh, MeshModel, TextureRef};

verus! {

/// One indexed draw: which mesh of the composed list, the scissor rectangle
/// it is clipped to, whether the pixel shader treats it as the captured video
/// surface (forcing full opacity), and how many indices it draws.
#[derive(Clone, Copy, PartialEq, Eq, Structural, Debug)]
pub struct DrawCall {
    pub mesh: usize,
    pub scissor: PixelRect,
    pub video_surface: bool,
    pub index_count: usize,
}

/// Everything one frame submits: clear to transparent, then the draws, with
/// the luminance conversion applied when `use_gray` is set.
#[derive(Clone, Debug)]
pub struct RenderPass {
    pub use_gray: bool,
    pub draws: Vec<DrawCall>,
}

/// A mesh's clip rectangle confined to the target bounds.
pub open spec fn spec_scissor(clip: PixelRect, width: i32, height: i32) -> PixelRect {
    PixelRect {
        left: if clip.left < 0 { 0 } else { clip.left },
        top: if clip.top < 0 { 0 } else { clip.top },
        right: if clip.right < width { clip.right } else { width },
        bottom: if clip.bottom < height { clip.bottom } else { height },
    }
}

/// A mesh draws only when it has vertices and its scissor rectangle is not
/// empty; with a degenerate target nothing draws at all.
pub open spec fn spec_mesh_drawn(m: MeshModel, width: i32, height: i32) -> bool {
    let s = spec_scissor(m.clip, width, height);
    m.vertices.len() > 0 && s.left < s.right && s.top < s.bottom
}

pub open spec fn spec_draw_of(i: int, m: MeshModel, width: i32, height: i32) -> DrawCall {
    DrawCall {
        mesh: i as usize,
        scissor: spec_scissor(m.clip, width, height),
        video_surface: m.texture is VideoSurface,
        index_count: m.indices.len() as usize,
    }
}

/// The draws of a mesh list, in order, skipping meshes that do not draw.
pub open spec fn spec_plan_draws(meshes: Seq<MeshModel>, width: i32, height: i32) -> Seq<DrawCall>
    decreases meshes.len(),
{
    if meshes.len() == 0 {
        Seq::empty()
    } else {
        let prefix = spec_plan_draws(meshes.drop_last(), width, height);
        let m = meshes.last();
        if spec_mesh_drawn(m, width, height) {
            prefix.push(spec_draw_of(meshes.len() - 1, m, width, height))
        } else {
            prefix
        }
    }
}

/// The mesh list as mathematical content.
pub open spec fn spec_mesh_views(meshes: Seq<Mesh>) -> Seq<MeshModel> {
    meshes.map_values(|m: Mesh| m@)
}

/// The renderer's own state: fixed pipeline objects are created once per
/// session and appear here only through what they are configured with — the
/// luminance weights in thousandths, and whether the luminance conversion is
/// on for the next pass.
#[derive(Clone, Copy, Debug)]
pub struct Renderer {
    /// Convert sampled colors to weighted luminance, keeping premultiplied
    /// alpha.
    pub use_gray: bool,
    /// Channel weights of the luminance sum, in thousandths.
    pub gray_weights: [u32; 3],
}

/// The default luminance weights, in thousandths: the standard luma formula.
pub open spec fn spec_default_gray_weights() -> [u32; 3] {
    [299u32, 587u32, 114u32]
}

impl Renderer {
    /// A renderer with its pipeline state as created per session: luminance
    /// conversion off, standard luma weights.
    pub fn new() -> (r: Renderer)
        ensures
            r.use_gray == false,
            r.gray_weights == spec_default_gray_weights(),
    {
        Renderer { use_gray: false, gray_weights: [299, 587, 114] }
    }

    /// Plan the draw calls for one composed frame under this renderer's
    /// settings.
    pub fn render(&self, meshes: &Vec<Mesh>, width: i32, height: i32) -> (r: RenderPass)
        ensures
            r.use_gray == self.use_gray,
            r.draws@ == spec_plan_draws(spec_mesh_views(meshes@), width, height),
    {
        plan_draws(meshes, width, height, self.use_gray)
    }
}

/// Plan the draw calls for one composed frame.
pub fn plan_draws(meshes: &Vec<Mesh>, width: i32, height: i32, use_gray: bool) -> (r: RenderPass)
    ensures
        r.use_gray == use_gray,
        r.draws@ == spec_plan_draws(spec_mesh_views(meshes@), width, height),
{
    let mut draws: Vec<DrawCall> = Vec::new();
    let mut i: usize = 0;
    while i < meshes.len()
        invariant
            i <= meshes@.len(),
            draws@ == spec_plan_draws(spec_mesh_views(meshes@).take(i as int), width, height),
        decreases meshes@.len() - i,
    {
        let m = &meshes[i];
        if m.vertices.len() > 0 {
            let left: i32 = if m.clip.left < 0 { 0 } else { m.clip.left };
            let top: i32 = if m.clip.top < 0 { 0 } else { m.clip.top };
            let right: i32 = if m.clip.right < width { m.clip.right } else { width };
            let bottom: i32 = if m.clip.bottom < height { m.clip.bottom } else { height };
            if left < right && top < bottom {
                let video_surface = match m.texture {
                    TextureRef::VideoSurface => true,
                    TextureRef::Overlay(_) => false,
                };
                draws.push(DrawCall {
                    mesh: i,
                    scissor: PixelRect { left, top, right, bottom },
                    video_surface,
                    index_count: m.indices.len(),
                });
            }
        }
        proof {
            let views = spec_mesh_views(meshes@);
            assert(views.take(i + 1).drop_last() =~= views.take(i as int));
            assert(views.take(i + 1).last() == meshes@[i as int]@);
        }
        i = i + 1;
    }
    proof {
        assert(spec_mesh_views(meshes@).take(meshes@.len() as int) =~= spec_mesh_views(meshes@));
    }
    RenderPass { use_gray, draws }
}

} // verus!
