use gl_bootstrap::types::GLRect;

#[test]
fn width_of_the_default_viewport() {
    let r = GLRect { x0: 0, y0: 0, x1: 800, y1: 600 };
    assert_eq!(r.width(), 800);
}

#[test]
fn height_of_the_default_viewport() {
    let r = GLRect { x0: 0, y0: 0, x1: 800, y1: 600 };
    assert_eq!(r.height(), 600);
}

#[test]
fn extents_are_differences_of_the_corners() {
    let r = GLRect { x0: -20, y0: 15, x1: 100, y1: 40 };
    assert_eq!(r.width(), 120);
    assert_eq!(r.height(), 25);
}

#[test]
fn empty_rectangle_has_no_extent() {
    let r = GLRect { x0: 7, y0: -3, x1: 7, y1: -3 };
    assert_eq!(r.width(), 0);
    assert_eq!(r.height(), 0);
}

#[test]
fn negative_extent_reads_as_a_large_unsigned_number() {
    let r = GLRect { x0: 10, y0: 1, x1: 0, y1: 0 };
    assert_eq!(r.width(), 4294967286);
    assert_eq!(r.height(), 4294967295);
}

#[test]
fn widest_extent_that_fits() {
    let r = GLRect { x0: 0, y0: -1, x1: i32::MAX, y1: i32::MAX - 1 };
    assert_eq!(r.width(), 2147483647);
    assert_eq!(r.height(), 2147483647);
}

#[test]
fn most_negative_extent_that_fits() {
    let r = GLRect { x0: 0, y0: 0, x1: i32::MIN, y1: i32::MIN };
    assert_eq!(r.width(), 2147483648);
    assert_eq!(r.height(), 2147483648);
}
