use pluey::image_data::LoadedImageData;
use pluey::renderer_state::{
    DrawCall, Extent, FrameStep, RendererState, ResizeOutcome, ScaleBasis, SurfaceStatus, QUAD_VERTEX_COUNT,
};

fn ext(width: u32, height: u32) -> Extent {
    Extent { width, height }
}

#[test]
fn new_clamps_window_to_texture_limit() {
    let r = RendererState::new(5000, 700, 4096, None);
    assert_eq!(r.surface(), ext(4096, 700));
    assert_eq!(r.max_texture_dim(), 4096);
    assert_eq!(r.image(), None);
    assert!(!r.is_dragging());
}

#[test]
fn new_gives_empty_window_one_pixel() {
    let r = RendererState::new(0, 0, 2048, Some(ext(10, 20)));
    assert_eq!(r.surface(), ext(1, 1));
    assert_eq!(r.scale_basis(), ScaleBasis { surface: ext(1, 1), image: ext(10, 20) });
}

#[test]
fn scale_basis_without_image_is_zero() {
    let r = RendererState::new(800, 600, 8192, None);
    assert_eq!(r.scale_basis(), ScaleBasis { surface: ext(800, 600), image: ext(0, 0) });
}

#[test]
fn empty_resize_is_ignored() {
    let mut r = RendererState::new(800, 600, 8192, None);
    assert_eq!(r.resize(0, 300), ResizeOutcome::Ignored);
    assert_eq!(r.resize(300, 0), ResizeOutcome::Ignored);
    assert_eq!(r.surface(), ext(800, 600));
}

#[test]
fn resize_clamps_and_rescales_shown_image() {
    let mut r = RendererState::new(800, 600, 1000, Some(ext(64, 32)));
    let outcome = r.resize(1200, 900);
    assert_eq!(
        outcome,
        ResizeOutcome::Applied {
            surface: ext(1000, 900),
            rescale: Some(ScaleBasis { surface: ext(1000, 900), image: ext(64, 32) }),
        }
    );
    assert_eq!(r.surface(), ext(1000, 900));
}

#[test]
fn resize_without_image_does_not_rescale() {
    let mut r = RendererState::new(800, 600, 1000, None);
    assert_eq!(r.resize(10, 20), ResizeOutcome::Applied { surface: ext(10, 20), rescale: None });
}

#[test]
fn resize_twice_is_resize_once() {
    let mut r = RendererState::new(800, 600, 1000, None);
    let first = r.resize(1500, 40);
    let after_first = r.surface();
    let second = r.resize(1500, 40);
    assert_eq!(first, second);
    assert_eq!(r.surface(), after_first);
}

#[test]
fn latest_resize_wins() {
    let mut a = RendererState::new(800, 600, 1000, None);
    a.resize(300, 200);
    a.resize(640, 480);
    let mut b = RendererState::new(800, 600, 1000, None);
    b.resize(640, 480);
    assert_eq!(a.surface(), b.surface());
}

#[test]
fn resize_keeps_image_and_drag() {
    let mut r = RendererState::new(800, 600, 1000, Some(ext(5, 6)));
    r.start_drag();
    r.resize(100, 100);
    assert_eq!(r.image(), Some(ext(5, 6)));
    assert!(r.is_dragging());
}

#[test]
fn loaded_image_replaces_shown_one() {
    let mut r = RendererState::new(800, 600, 1000, Some(ext(5, 6)));
    let data = LoadedImageData { rgba: vec![0; 4 * 2 * 3], width: 2, height: 3 };
    let basis = r.apply_loaded_image(&data);
    assert_eq!(basis, ScaleBasis { surface: ext(800, 600), image: ext(2, 3) });
    assert_eq!(r.image(), Some(ext(2, 3)));
}

#[test]
fn cursor_moves_redraw_only_while_dragging() {
    let mut r = RendererState::new(800, 600, 1000, None);
    assert!(!r.cursor_moved());
    r.start_drag();
    assert!(r.cursor_moved());
    r.end_drag();
    assert!(!r.cursor_moved());
    r.end_drag();
    assert!(!r.is_dragging());
}

#[test]
fn frame_draws_quad_only_with_image() {
    let r = RendererState::new(800, 600, 1000, None);
    assert_eq!(r.render_step(SurfaceStatus::Success), FrameStep::Draw { draw: None });
    let r = RendererState::new(800, 600, 1000, Some(ext(1, 1)));
    assert_eq!(
        r.render_step(SurfaceStatus::Success),
        FrameStep::Draw { draw: Some(DrawCall { vertex_count: QUAD_VERTEX_COUNT, instance_count: 1 }) }
    );
    assert_eq!(QUAD_VERTEX_COUNT, 6);
}

#[test]
fn surface_trouble_skips_or_repairs_the_frame() {
    let r = RendererState::new(800, 600, 1000, Some(ext(1, 1)));
    assert_eq!(r.render_step(SurfaceStatus::Timeout), FrameStep::Skip);
    assert_eq!(r.render_step(SurfaceStatus::Occluded), FrameStep::Skip);
    assert_eq!(r.render_step(SurfaceStatus::Suboptimal), FrameStep::Reconfigure);
    assert_eq!(r.render_step(SurfaceStatus::Outdated), FrameStep::Reconfigure);
    assert_eq!(r.render_step(SurfaceStatus::Lost), FrameStep::RecreateSurface);
}
