use fractal_scenes::htree::{h_tree_scene, h_tree_segments, htree_depth, Segment};
use fractal_scenes::mandelbrot::{escape_iterations, mandel_max_iter, render_mandelbrot};
use fractal_scenes::spiral::{spiral_hue_deg, spiral_steps_drawn, SPIRAL_STEPS};
use fractal_scenes::viewport::{logical_size, physical_extent, viewport_point};

#[test]
fn spiral_reveal_is_complete_at_duration() {
    assert_eq!(spiral_steps_drawn(4200), SPIRAL_STEPS);
    assert_eq!(spiral_steps_drawn(4200), 3142);
    assert_eq!(spiral_steps_drawn(10_000), 3142);
    assert_eq!(spiral_steps_drawn(u64::MAX), 3142);
}

#[test]
fn spiral_reveal_grows_from_zero() {
    assert_eq!(spiral_steps_drawn(0), 0);
    assert_eq!(spiral_steps_drawn(2100), 1571);
    assert!(spiral_steps_drawn(1000) < spiral_steps_drawn(2000));
}

#[test]
fn spiral_hue_sweeps_the_color_circle() {
    assert_eq!(spiral_hue_deg(0), 0);
    assert_eq!(spiral_hue_deg(1571), 180);
    assert_eq!(spiral_hue_deg(3141), 359);
}

#[test]
fn htree_depth_steps_every_half_second_capped_at_six() {
    assert_eq!(htree_depth(0), 0);
    assert_eq!(htree_depth(499), 0);
    assert_eq!(htree_depth(500), 1);
    assert_eq!(htree_depth(2999), 5);
    assert_eq!(htree_depth(3000), 6);
    assert_eq!(htree_depth(1_000_000), 6);
}

#[test]
fn htree_single_h_at_depth_zero() {
    let mut segs: Vec<Segment> = Vec::new();
    h_tree_segments(0, 0, 4000, 0, &mut segs);
    assert_eq!(segs.len(), 3);
    assert_eq!(segs[0], Segment { x0: -2000, y0: -2000, x1: -2000, y1: 2000 });
    assert_eq!(segs[1], Segment { x0: 2000, y0: -2000, x1: 2000, y1: 2000 });
    assert_eq!(segs[2], Segment { x0: -2000, y0: 0, x1: 2000, y1: 0 });
}

#[test]
fn htree_recurses_into_four_corners() {
    let mut segs: Vec<Segment> = Vec::new();
    h_tree_segments(0, 0, 4000, 1, &mut segs);
    // Root plus four children, three bars each.
    assert_eq!(segs.len(), 15);
    // First child is the top-left corner, half the length.
    assert_eq!(segs[3], Segment { x0: -3000, y0: -3000, x1: -3000, y1: -1000 });
}

#[test]
fn htree_recursion_halts_below_two_pixels_but_nodes_still_draw() {
    let mut segs: Vec<Segment> = Vec::new();
    // Children get half of 3999, truncated to 1999: below the 2-pixel floor,
    // so they draw their own bars but recurse no further.
    h_tree_segments(0, 0, 3999, 3, &mut segs);
    assert_eq!(segs.len(), 15);
    // A root below the floor is a single H with no children, whatever the
    // remaining depth.
    let mut tiny: Vec<Segment> = Vec::new();
    h_tree_segments(0, 0, 1999, 6, &mut tiny);
    assert_eq!(tiny.len(), 3);
    assert_eq!(tiny[0], Segment { x0: -999, y0: -999, x1: -999, y1: 999 });
    assert_eq!(tiny[1], Segment { x0: 999, y0: -999, x1: 999, y1: 999 });
    assert_eq!(tiny[2], Segment { x0: -999, y0: 0, x1: 999, y1: 0 });
}

#[test]
fn htree_scene_recursion_is_cut_by_the_length_floor() {
    // Base length 550 * 80 = 44000 milli-pixels halves to 1375 after five
    // levels; those nodes still draw but stop recursing, so the depth-6 tree
    // has 1 + 4 + 16 + 64 + 256 + 1024 nodes of three bars each.
    let segs = h_tree_scene(100, 80, 10_000);
    assert_eq!(segs.len(), 3 * 1365);
}

#[test]
fn mandelbrot_budget_at_zero_and_saturated() {
    assert_eq!(mandel_max_iter(0), 12);
    assert_eq!(mandel_max_iter(27), 12);
    assert_eq!(mandel_max_iter(28), 13);
    assert_eq!(mandel_max_iter(4144), 160);
    assert_eq!(mandel_max_iter(4143), 159);
    assert_eq!(mandel_max_iter(100_000), 160);
}

#[test]
fn escape_iteration_counts() {
    // The origin never escapes: the budget is exhausted.
    assert_eq!(escape_iterations(0, 0, 160), 160);
    // A point outside the escape radius leaves after one step.
    assert_eq!(escape_iterations(3_000_000, 0, 160), 1);
    assert_eq!(escape_iterations(-2_000_000, -1_500_000, 12), 1);
    // c = -1 cycles between -1 and 0: never escapes.
    assert_eq!(escape_iterations(-1_000_000, 0, 40), 40);
}

#[test]
fn mandelbrot_field_pixels() {
    // 4x4 surface, zoom 1.0, no pan, elapsed 0: budget 12,
    // scale = 3_000_000_000_000 / (4 * 1_000_000) = 750_000 per pixel.
    let pixels = render_mandelbrot(4, 4, 0, 0, 1_000_000, 0);
    assert_eq!(pixels.len(), 64);
    // Pixel (0, 0) maps to c = (-2.0, -1.5): escapes after one iteration,
    // palette of t = 1/12.
    assert_eq!(&pixels[0..4], &[1, 22, 139, 255]);
    // Pixel (2, 2) maps to c = (-0.5, 0.0): inside the set, dark color.
    let idx: usize = (2 * 4 + 2) * 4;
    assert_eq!(&pixels[idx..idx + 4], &[10, 10, 16, 255]);
    // Alpha is opaque everywhere.
    for k in 0usize..16 {
        assert_eq!(pixels[4 * k + 3], 255);
    }
}

#[test]
fn mandelbrot_zero_sized_surface_yields_empty_buffer() {
    assert_eq!(render_mandelbrot(0, 3, 0, 0, 1_000_000, 0).len(), 0);
    assert_eq!(render_mandelbrot(7, 0, 0, 0, 1_000_000, 0).len(), 0);
}

#[test]
fn mandelbrot_field_zoom_floor_keeps_window_finite() {
    // A zoom below the floor is treated as 0.01; the call must still fill
    // the whole buffer.
    let pixels = render_mandelbrot(2, 3, 5, -7, 0, 50_000);
    assert_eq!(pixels.len(), 24);
}

#[test]
fn viewport_identity_at_unit_zoom() {
    assert_eq!(viewport_point(0, 1_000_000, 123_456, 789_000), 789_000);
    assert_eq!(viewport_point(0, 1_000_000, -5000, -5000), -5000);
}

#[test]
fn viewport_zoom_is_anchored_at_the_center() {
    // The center maps to itself plus the pan, whatever the zoom.
    assert_eq!(viewport_point(10, 2_000_000, 100_000, 100_000), 110_000);
    // A point 50 pixels right of the center lands 100 pixels right of it
    // under zoom 2.
    assert_eq!(viewport_point(0, 2_000_000, 100_000, 150_000), 200_000);
}

#[test]
fn logical_size_prefers_canvas_then_window_then_fallback() {
    assert_eq!(logical_size(300, 200, Some(1024), Some(768)), (300, 200));
    assert_eq!(logical_size(0, 200, Some(1024), Some(768)), (1024, 768));
    assert_eq!(logical_size(0, 0, None, None), (800, 600));
}

#[test]
fn physical_extent_scales_by_device_pixel_ratio() {
    assert_eq!(physical_extent(800, 1000), 800);
    assert_eq!(physical_extent(800, 1500), 1200);
    assert_eq!(physical_extent(800, 2000), 1600);
    // Saturates at the 32-bit range instead of overflowing.
    assert_eq!(physical_extent(3_000_000, 2_000_000), u32::MAX);
}
