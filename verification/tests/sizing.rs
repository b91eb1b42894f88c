use mbar::geometry::Size;
use mbar::geometry::SurfaceGeometry;
use mbar::geometry::resolve_geometry;
use mbar::sizing::decide_resize;

#[test]
fn fit_axes_resize_to_measured_content() {
    let g = resolve_geometry(Size::Fit, Size::Fit, 1920, 1080);
    assert_eq!(decide_resize(&g, 200, 40, 1920, 1080), Some((200, 40)));
}

#[test]
fn second_identical_pass_does_not_resize_again() {
    let g = SurfaceGeometry { width: None, height: None };
    let first = decide_resize(&g, 200, 40, 1920, 1080);
    assert_eq!(first, Some((200, 40)));
    let (w, h) = first.unwrap();
    assert_eq!(decide_resize(&g, 200, 40, w, h), None);
}

#[test]
fn unchanged_measurement_is_a_no_op() {
    let g = SurfaceGeometry { width: None, height: Some(24) };
    assert_eq!(decide_resize(&g, 640, 24, 640, 24), None);
}

#[test]
fn pinned_axes_ignore_measurement() {
    let g = resolve_geometry(Size::Screen, Size::Fixed(300), 1920, 1080);
    assert_eq!(decide_resize(&g, 1, 1, 1920, 300), None);
    assert_eq!(decide_resize(&g, 5000, 5000, 1920, 300), None);
    assert_eq!(decide_resize(&g, 0, 0, 1920, 300), None);
}

#[test]
fn pinned_axis_is_restored_after_external_resize() {
    // The system resized the window; the policy still pins both axes, so the
    // next pass asks for the configured size back.
    let g = SurfaceGeometry { width: Some(1920), height: Some(300) };
    assert_eq!(decide_resize(&g, 123, 45, 800, 600), Some((1920, 300)));
}

#[test]
fn mixed_axes_only_follow_content_on_the_fit_axis() {
    let g = SurfaceGeometry { width: Some(1920), height: None };
    assert_eq!(decide_resize(&g, 200, 40, 1920, 1080), Some((1920, 40)));
    assert_eq!(decide_resize(&g, 200, 40, 1920, 40), None);
}
