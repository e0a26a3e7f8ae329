//! The composition assembler: layer order, the shared sub-image
//! rectangle, the degenerate empty-views frame, and the two concrete
//! end-of-frame scenarios.

use openxr::{Fovf, Posef, Quaternionf, Vector3f};
use xr_frame_core::composition::{
    plan_layers, projection_content, sub_image_rect, EyeRect, LayerPlan, Resolution,
};
use xr_frame_core::lifecycle::FrameError;

fn pose(x: f32, y: f32, z: f32) -> Posef {
    Posef {
        orientation: Quaternionf { x: 0.0, y: 0.0, z: 0.0, w: 1.0 },
        position: Vector3f { x, y, z },
    }
}

fn fov(half: f32) -> Fovf {
    Fovf { angle_left: -half, angle_right: half, angle_up: half, angle_down: -half }
}

fn stereo_views() -> Vec<openxr::View> {
    vec![
        openxr::View { pose: pose(-0.03, 1.6, 0.0), fov: fov(0.7) },
        openxr::View { pose: pose(0.03, 1.6, 0.0), fov: fov(0.8) },
    ]
}

#[test]
fn sub_image_rect_is_origin_anchored_with_resolution_extent() {
    let rect = sub_image_rect(Resolution { x: 1024, y: 1024 });
    assert_eq!(rect, EyeRect { offset_x: 0, offset_y: 0, width: 1024, height: 1024 });

    let rect = sub_image_rect(Resolution { x: 1832, y: 1920 });
    assert_eq!(rect, EyeRect { offset_x: 0, offset_y: 0, width: 1832, height: 1920 });
}

#[test]
fn both_eyes_share_the_same_rectangle() {
    let views = stereo_views();
    let content = projection_content(&views, Resolution { x: 800, y: 600 }, false);
    assert_eq!(content.left.rect, content.right.rect);
    assert_eq!(content.left.rect, EyeRect { offset_x: 0, offset_y: 0, width: 800, height: 600 });
    assert_eq!(content.left.image_array_index, 0);
    assert_eq!(content.right.image_array_index, 1);
}

#[test]
fn plan_without_passthrough_is_one_projection_layer() {
    // resolution (1024,1024), two views with their poses and fields of
    // view, no passthrough: the submission is [Projection] alone, with
    // sub-images (0, P0, F0, rect) and (1, P1, F1, rect)
    let views = stereo_views();
    let resolution = Resolution { x: 1024, y: 1024 };
    let layers = plan_layers::<u32>(&views, resolution, None).unwrap();

    assert_eq!(layers.len(), 1);
    match &layers[0] {
        LayerPlan::Projection(content) => {
            assert_eq!(content.left.pose, views[0].pose);
            assert_eq!(content.left.fov, views[0].fov);
            assert_eq!(content.left.image_array_index, 0);
            assert_eq!(
                content.left.rect,
                EyeRect { offset_x: 0, offset_y: 0, width: 1024, height: 1024 },
            );
            assert_eq!(content.right.pose, views[1].pose);
            assert_eq!(content.right.fov, views[1].fov);
            assert_eq!(content.right.image_array_index, 1);
            assert_eq!(content.right.rect, content.left.rect);
            assert!(!content.blend_texture_source_alpha);
        },
        LayerPlan::Passthrough(_) => panic!("the only layer must be the projection"),
    }
}

#[test]
fn plan_with_passthrough_puts_the_passthrough_first() {
    // same inputs plus a passthrough handle: the submission is
    // [Passthrough(H), Projection], and the projection blends by alpha
    let views = stereo_views();
    let resolution = Resolution { x: 1024, y: 1024 };
    let handle: u32 = 7;
    let layers = plan_layers(&views, resolution, Some(handle)).unwrap();

    assert_eq!(layers.len(), 2);
    match &layers[0] {
        LayerPlan::Passthrough(h) => assert_eq!(*h, 7),
        LayerPlan::Projection(_) => panic!("the passthrough layer must stand first"),
    }
    match &layers[1] {
        LayerPlan::Projection(content) => {
            assert!(content.blend_texture_source_alpha);
            assert_eq!(content.left.pose, views[0].pose);
            assert_eq!(content.right.pose, views[1].pose);
        },
        LayerPlan::Passthrough(_) => panic!("the projection layer must stand last"),
    }
}

#[test]
fn empty_views_produce_no_layer_submission() {
    let resolution = Resolution { x: 1024, y: 1024 };
    let none: Vec<openxr::View> = Vec::new();

    let layers = plan_layers::<u32>(&none, resolution, None).unwrap();
    assert_eq!(layers.len(), 0);

    // even a supplied passthrough handle yields nothing for a frame
    // without views
    let layers = plan_layers::<u32>(&none, resolution, Some(9)).unwrap();
    assert_eq!(layers.len(), 0);
}

#[test]
fn extra_views_beyond_stereo_are_ignored() {
    let mut views = stereo_views();
    views.push(openxr::View { pose: pose(9.0, 9.0, 9.0), fov: fov(0.1) });
    let layers = plan_layers::<u32>(&views, Resolution { x: 64, y: 64 }, None).unwrap();
    assert_eq!(layers.len(), 1);
    match &layers[0] {
        LayerPlan::Projection(content) => {
            assert_eq!(content.left.pose, views[0].pose);
            assert_eq!(content.right.pose, views[1].pose);
        },
        LayerPlan::Passthrough(_) => panic!("the only layer must be the projection"),
    }
}

#[test]
fn a_single_view_is_rejected_not_submitted() {
    let views = vec![stereo_views()[0]];
    let resolution = Resolution { x: 1024, y: 1024 };

    match plan_layers::<u32>(&views, resolution, None) {
        Err(e) => assert_eq!(e, FrameError::IncompleteStereoPair),
        Ok(_) => panic!("a single view must be rejected"),
    }

    // a supplied passthrough handle changes nothing about the rejection
    match plan_layers::<u32>(&views, resolution, Some(7)) {
        Err(e) => assert_eq!(e, FrameError::IncompleteStereoPair),
        Ok(_) => panic!("a single view must be rejected"),
    }
}
