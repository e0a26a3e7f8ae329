//! The composition assembler.
//!
//! Builds, as a pure function of its inputs, the ordered list of
//! composition layers that one frame submits to the runtime: a stereo
//! projection layer made of exactly two per-eye records (array layers 0
//! and 1, sharing one sub-image rectangle anchored at the origin with
//! the frame's resolution as extent), preceded by a passthrough layer
//! whenever one is supplied. An empty view array is the degenerate
//! no-op frame: it yields no layer at all.
//!
//! The plan is generic in the passthrough handle type, so the assembly
//! can be exercised on plain values; the swapchain instantiates it with
//! the runtime's passthrough layer handle.

use vstd::prelude::*;
use vstd::slice::slice_index_get;
use crate::lifecycle::FrameError;

verus! {

/// A render resolution in pixels, one value per frame.
#[derive(Clone, Copy, PartialEq, Eq, Structural, Debug)]
pub struct Resolution {
    pub x: u32,
    pub y: u32,
}

/// The pixel region of a swapchain image layer used for one eye's
/// output, in the runtime's signed-integer convention.
#[derive(Clone, Copy, PartialEq, Eq, Structural, Debug)]
pub struct EyeRect {
    pub offset_x: i32,
    pub offset_y: i32,
    pub width: i32,
    pub height: i32,
}

/// One eye's record inside the projection layer: the eye's pose and
/// field of view, the swapchain array layer it is drawn into, and its
/// sub-image rectangle.
#[derive(Clone, Copy)]
pub struct ProjectedEye {
    pub pose: openxr::Posef,
    pub fov: openxr::Fovf,
    pub image_array_index: u32,
    pub rect: EyeRect,
}

/// The stereo projection layer's content: the two per-eye records and
/// whether the layer blends by its texture's alpha (set exactly when a
/// passthrough layer stands underneath it).
#[derive(Clone, Copy)]
pub struct ProjectionContent {
    pub left: ProjectedEye,
    pub right: ProjectedEye,
    pub blend_texture_source_alpha: bool,
}

/// One composition layer of the submitted list.
#[derive(Clone, Copy)]
pub enum LayerPlan<H> {
    /// A passthrough layer, identified by the supplied handle.
    Passthrough(H),
    /// The stereo projection layer.
    Projection(ProjectionContent),
}

/// The sub-image rectangle for a frame of resolution `res`: anchored at
/// the origin, extending over the whole resolution. Both eyes share it.
pub open spec fn rect_for(res: Resolution) -> EyeRect {
    EyeRect { offset_x: 0, offset_y: 0, width: res.x as i32, height: res.y as i32 }
}

/// The per-eye record for `view` drawn into array layer `eye`.
pub open spec fn eye_record(view: openxr::View, eye: u32, res: Resolution) -> ProjectedEye {
    ProjectedEye { pose: view.pose, fov: view.fov, image_array_index: eye, rect: rect_for(res) }
}

/// The projection layer's content for a frame: the first two views as
/// per-eye records on array layers 0 and 1.
pub open spec fn projection_for(
    views: Seq<openxr::View>,
    res: Resolution,
    blend: bool,
) -> ProjectionContent {
    ProjectionContent {
        left: eye_record(views[0], 0, res),
        right: eye_record(views[1], 1, res),
        blend_texture_source_alpha: blend,
    }
}

/// The full layer list for one frame: empty when no view was located,
/// otherwise the projection layer over the first two views, preceded by
/// the passthrough layer when one is supplied.
pub open spec fn layers_for<H>(
    views: Seq<openxr::View>,
    res: Resolution,
    passthrough: Option<H>,
) -> Seq<LayerPlan<H>> {
    if views.len() == 0 {
        seq![]
    } else {
        let projection = LayerPlan::Projection(
            projection_for(views, res, passthrough is Some),
        );
        match passthrough {
            Some(handle) => seq![LayerPlan::Passthrough(handle), projection],
            None => seq![projection],
        }
    }
}

/// The shared sub-image rectangle for a frame of resolution
/// `resolution`. A resolution axis wider than the runtime's signed
/// extent wraps, as the runtime's integer convention prescribes.
pub fn sub_image_rect(resolution: Resolution) -> (r: EyeRect)
    ensures
        r == rect_for(resolution),
{
    EyeRect {
        offset_x: 0,
        offset_y: 0,
        #[verifier::truncate]
        width: resolution.x as i32,
        #[verifier::truncate]
        height: resolution.y as i32,
    }
}

/// Build the projection layer's content from the first two views: eye 0
/// on array layer 0 and eye 1 on array layer 1, both over the same
/// origin-anchored rectangle.
pub fn projection_content(
    views: &[openxr::View],
    resolution: Resolution,
    blend_texture_source_alpha: bool,
) -> (r: ProjectionContent)
    requires
        views@.len() >= 2,
    ensures
        r == projection_for(views@, resolution, blend_texture_source_alpha),
{
    let rect = sub_image_rect(resolution);
    let v0 = *slice_index_get(views, 0);
    let v1 = *slice_index_get(views, 1);
    ProjectionContent {
        left: ProjectedEye { pose: v0.pose, fov: v0.fov, image_array_index: 0, rect },
        right: ProjectedEye { pose: v1.pose, fov: v1.fov, image_array_index: 1, rect },
        blend_texture_source_alpha,
    }
}

/// Assemble the layer list for one frame.
///
/// With no views located this frame the list is empty: the frame
/// produces no layer submission. Otherwise the list ends in the
/// projection layer built from the first two views, with eye 0 on array
/// layer 0 and eye 1 on array layer 1, both over the same origin-anchored
/// rectangle; a supplied passthrough handle becomes a passthrough layer
/// standing first.
///
/// A view array of length one is rejected: the stereo protocol locates
/// two views, or none for the degenerate no-op frame.
pub fn plan_layers<H: Copy>(
    views: &[openxr::View],
    resolution: Resolution,
    passthrough: Option<H>,
) -> (r: Result<Vec<LayerPlan<H>>, FrameError>)
    ensures
        r is Err <==> views@.len() == 1,
        r matches Err(e) ==> e == FrameError::IncompleteStereoPair,
        r matches Ok(layers) ==> {
            &&& layers@ == layers_for(views@, resolution, passthrough)
            &&& (layers@.len() == 0 <==> views@.len() == 0)
        },
{
    let mut layers: Vec<LayerPlan<H>> = Vec::new();
    if views.len() == 0 {
        return Ok(layers);
    }
    if views.len() == 1 {
        return Err(FrameError::IncompleteStereoPair);
    }
    let projection = LayerPlan::Projection(
        projection_content(views, resolution, passthrough.is_some()),
    );
    if let Some(handle) = passthrough {
        layers.push(LayerPlan::Passthrough(handle));
    }
    layers.push(projection);
    proof {
        assert(layers@ =~= layers_for(views@, resolution, passthrough));
    }
    Ok(layers)
}

/// With views located, the layer list always ends in the projection
/// layer; a supplied passthrough handle always yields a passthrough
/// layer standing first, and nothing else is ever submitted.
pub proof fn lemma_projection_last<H>(
    views: Seq<openxr::View>,
    res: Resolution,
    passthrough: Option<H>,
)
    requires
        views.len() >= 2,
    ensures
        layers_for(views, res, passthrough).len() >= 1,
        layers_for(views, res, passthrough).last() is Projection,
        passthrough matches Some(handle) ==> layers_for(views, res, passthrough)[0]
            == LayerPlan::<H>::Passthrough(handle),
        passthrough is Some ==> layers_for(views, res, passthrough).len() == 2,
        passthrough is None ==> layers_for(views, res, passthrough).len() == 1,
{
}

/// An empty view array produces no layer at all, whatever the
/// resolution and whether or not a passthrough handle is supplied.
pub proof fn lemma_empty_views_no_layers<H>(
    views: Seq<openxr::View>,
    res: Resolution,
    passthrough: Option<H>,
)
    requires
        views.len() == 0,
    ensures
        layers_for(views, res, passthrough).len() == 0,
{
}

/// Both eyes share one and the same sub-image rectangle, whatever their
/// poses: anchored at the origin with the frame's resolution as extent.
pub proof fn lemma_sub_image_rect_shared(
    v0: openxr::View,
    v1: openxr::View,
    res: Resolution,
)
    ensures
        eye_record(v0, 0, res).rect == eye_record(v1, 1, res).rect,
        eye_record(v0, 0, res).rect == rect_for(res),
        rect_for(res).offset_x == 0,
        rect_for(res).offset_y == 0,
        rect_for(res).width == res.x as i32,
        rect_for(res).height == res.y as i32,
{
}

} // verus!
