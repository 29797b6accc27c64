use termclock::layout::{compute_region, LayoutRegion, Viewport, CLOCK_HEIGHT, CLOCK_WIDTH};

#[test]
fn scenario_centered_80x24() {
    let r = compute_region(Viewport { width: 80, height: 24 }, 60, 10);
    assert_eq!(r.y, 7, "vertical padding");
    assert_eq!(r.x, 10, "horizontal padding");
    assert_eq!(r.width, 60);
    assert_eq!(r.height, 10);
}

#[test]
fn scenario_small_viewport_clamps_to_zero() {
    let r = compute_region(Viewport { width: 40, height: 5 }, 60, 10);
    assert_eq!(r.x, 0);
    assert_eq!(r.y, 0);
    assert_eq!(r.width, 40);
    assert_eq!(r.height, 5);
}

#[test]
fn viewport_equal_to_footprint_has_no_padding() {
    let r = compute_region(Viewport { width: 60, height: 10 }, 60, 10);
    assert_eq!(
        r,
        LayoutRegion { x: 0, y: 0, width: 60, height: 10 }
    );
}

#[test]
fn zero_viewport_does_not_panic() {
    let r = compute_region(Viewport { width: 0, height: 0 }, CLOCK_WIDTH, CLOCK_HEIGHT);
    assert_eq!(r, LayoutRegion { x: 0, y: 0, width: 0, height: 0 });
}

#[test]
fn region_stays_within_viewport() {
    let cases = [
        (0u16, 0u16),
        (1, 1),
        (59, 9),
        (60, 10),
        (61, 11),
        (80, 24),
        (200, 50),
        (65535, 65535),
    ];
    for (w, h) in cases {
        let r = compute_region(Viewport { width: w, height: h }, CLOCK_WIDTH, CLOCK_HEIGHT);
        assert!(u32::from(r.x) + u32::from(r.width) <= u32::from(w));
        assert!(u32::from(r.y) + u32::from(r.height) <= u32::from(h));
    }
}

#[test]
fn layout_is_idempotent() {
    let vp = Viewport { width: 123, height: 45 };
    let first = compute_region(vp, CLOCK_WIDTH, CLOCK_HEIGHT);
    let second = compute_region(vp, CLOCK_WIDTH, CLOCK_HEIGHT);
    assert_eq!(first, second);
}
