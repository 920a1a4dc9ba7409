use fir::geometry::{Point, Rect};
use fir::gui::viewport::Viewport;

#[test]
fn new_viewport_is_centered_and_unzoomed() {
    let v = Viewport::new(100, 50);
    assert_eq!(v.zoom_level, 0);
    assert_eq!(v.zoom_factor, 2);
    assert_eq!(v.image_position, Point { x: 0, y: 0 });
    assert_eq!(v.image_rect, Rect { x: -50, y: -25, w: 100, h: 50 });
}

#[test]
fn translate_moves_within_slack() {
    // canvas 200x100 around an image 100x50: position may move +-50 / +-25
    let mut v = Viewport::new(100, 50);
    v.translate(30, 10, 200, 100);
    assert_eq!(v.image_position, Point { x: 30, y: 10 });
}

#[test]
fn translate_clamps_at_canvas_edge() {
    let mut v = Viewport::new(100, 50);
    v.translate(100, -100, 200, 100);
    assert_eq!(v.image_position, Point { x: 50, y: -25 });
}

#[test]
fn translate_clamps_to_zero_when_image_fills_canvas() {
    let mut v = Viewport::new(100, 50);
    v.translate(16, 0, 100, 50);
    assert_eq!(v.image_position, Point { x: 0, y: 0 });
    v.translate(0, 16, 100, 50);
    assert_eq!(v.image_position, Point { x: 0, y: 0 });
}

#[test]
fn translate_by_zero_is_idempotent_after_clamp() {
    let mut v = Viewport::new(100, 50);
    v.translate(1000, 1000, 200, 100);
    let clamped = v.image_position;
    v.translate(0, 0, 200, 100);
    assert_eq!(v.image_position, clamped);
}

#[test]
fn translate_slides_large_image_across_small_canvas() {
    // image 400x200 on canvas 100x50: position range is +-150 / +-75
    let mut v = Viewport::new(400, 200);
    v.translate(1000, 0, 100, 50);
    assert_eq!(v.image_position, Point { x: 150, y: 0 });
    v.translate(-1000, -1000, 100, 50);
    assert_eq!(v.image_position, Point { x: -150, y: -75 });
}

#[test]
fn zoom_changes_level_without_reclamping() {
    let mut v = Viewport::new(100, 50);
    v.zoom_in();
    assert_eq!(v.zoom_level, 1);
    v.zoom_in();
    assert_eq!(v.zoom_level, 2);
    v.zoom_out();
    v.zoom_out();
    v.zoom_out();
    assert_eq!(v.zoom_level, -1);
    // position untouched by zooming
    assert_eq!(v.image_position, Point { x: 0, y: 0 });
}

#[test]
fn zoomed_translate_uses_scaled_bounds() {
    // zoomed in once, the image is 200x100 and exactly fills canvas 200x100
    let mut v = Viewport::new(100, 50);
    v.zoom_in();
    v.translate(50, 50, 200, 100);
    assert_eq!(v.image_position, Point { x: 0, y: 0 });
}

#[test]
fn reset_restores_initial_state() {
    let mut v = Viewport::new(100, 50);
    v.translate(30, 10, 200, 100);
    v.zoom_in();
    v.zoom_in();
    v.reset();
    assert_eq!(v, Viewport::new(100, 50));
    assert_eq!(v.image_position, Point { x: 0, y: 0 });
    assert_eq!(v.zoom_level, 0);
}

#[test]
fn scaled_rect_follows_zoom() {
    let mut v = Viewport::new(100, 50);
    assert_eq!(v.scaled_rect(), Rect { x: -50, y: -25, w: 100, h: 50 });
    v.zoom_in();
    assert_eq!(v.scaled_rect(), Rect { x: -100, y: -50, w: 200, h: 100 });
    v.zoom_out();
    v.zoom_out();
    assert_eq!(v.scaled_rect(), Rect { x: -25, y: -12, w: 50, h: 25 });
}

#[test]
fn transformed_rect_is_canvas_absolute() {
    let mut v = Viewport::new(100, 50);
    assert_eq!(
        v.transformed_rect(200, 100),
        Rect { x: 50, y: 25, w: 100, h: 50 }
    );
    v.translate(10, -5, 200, 100);
    assert_eq!(
        v.transformed_rect(200, 100),
        Rect { x: 60, y: 20, w: 100, h: 50 }
    );
}

#[test]
fn transformed_rect_recomputes_for_new_canvas_size() {
    let v = Viewport::new(100, 50);
    assert_eq!(
        v.transformed_rect(300, 200),
        Rect { x: 100, y: 75, w: 100, h: 50 }
    );
}

#[test]
fn odd_sized_image_still_centers() {
    let v = Viewport::new(101, 51);
    assert_eq!(v.image_rect, Rect { x: -50, y: -25, w: 101, h: 51 });
}
