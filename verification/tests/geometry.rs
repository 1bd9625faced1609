use will_shortcut::geometry::{
    compute_position, find_containing_monitor, position_window_bottom_right,
    try_compute_position,
    AnchorCorner, MonitorDescriptor, PlacementOffsets, Point, Rectangle, Size,
};

fn monitor(x: i32, y: i32, width: u32, height: u32) -> MonitorDescriptor {
    MonitorDescriptor { position: Point { x, y }, size: Size { width, height } }
}

fn rect(x: i32, y: i32, width: u32, height: u32) -> Rectangle {
    Rectangle { x, y, width, height }
}

fn full_hd() -> Rectangle {
    rect(0, 0, 1920, 1080)
}

fn overlay() -> Size {
    Size { width: 400, height: 600 }
}

#[test]
fn default_offsets_and_anchor() {
    let offsets = PlacementOffsets::default();
    assert_eq!(offsets.taskbar_reserve, 40);
    assert_eq!(offsets.border_compensation, 8);
    assert_eq!(AnchorCorner::default(), AnchorCorner::BottomRight);
}

#[test]
fn top_left_corner() {
    let p = compute_position(&full_hd(), overlay(), AnchorCorner::TopLeft, PlacementOffsets::default());
    assert_eq!(p, Point { x: -8, y: 0 });
}

#[test]
fn top_right_corner() {
    let p = compute_position(&full_hd(), overlay(), AnchorCorner::TopRight, PlacementOffsets::default());
    assert_eq!(p, Point { x: 1528, y: 0 });
}

#[test]
fn bottom_left_corner() {
    let p = compute_position(&full_hd(), overlay(), AnchorCorner::BottomLeft, PlacementOffsets::default());
    assert_eq!(p, Point { x: -8, y: 440 });
}

#[test]
fn bottom_right_corner() {
    let p = compute_position(&full_hd(), overlay(), AnchorCorner::BottomRight, PlacementOffsets::default());
    assert_eq!(p, Point { x: 1528, y: 440 });
}

#[test]
fn position_is_relative_to_the_monitor() {
    let second = rect(1920, -200, 2560, 1440);
    let p = compute_position(&second, overlay(), AnchorCorner::BottomRight, PlacementOffsets::default());
    assert_eq!(p, Point { x: 1920 + 2560 - 400 + 8, y: -200 + 1440 - 600 - 40 });
    let q = compute_position(&second, overlay(), AnchorCorner::TopLeft, PlacementOffsets::default());
    assert_eq!(q, Point { x: 1912, y: -200 });
}

#[test]
fn custom_offsets_are_honoured() {
    let offsets = PlacementOffsets { taskbar_reserve: 0, border_compensation: 0 };
    let p = compute_position(&full_hd(), overlay(), AnchorCorner::BottomRight, offsets);
    assert_eq!(p, Point { x: 1520, y: 480 });
}

#[test]
fn checked_position_agrees_in_range() {
    let offsets = PlacementOffsets::default();
    for anchor in [
        AnchorCorner::TopLeft,
        AnchorCorner::TopRight,
        AnchorCorner::BottomLeft,
        AnchorCorner::BottomRight,
    ] {
        assert_eq!(
            try_compute_position(&full_hd(), overlay(), anchor, offsets),
            Some(compute_position(&full_hd(), overlay(), anchor, offsets))
        );
    }
}

#[test]
fn checked_position_out_of_range() {
    let offsets = PlacementOffsets::default();
    let far = rect(i32::MAX, 0, u32::MAX, 1080);
    assert_eq!(try_compute_position(&far, overlay(), AnchorCorner::TopRight, offsets), None);
    let low = rect(i32::MIN, 0, 10, 10);
    assert_eq!(try_compute_position(&low, overlay(), AnchorCorner::TopLeft, offsets), None);
    assert_eq!(
        try_compute_position(&low, Size { width: 4, height: 4 }, AnchorCorner::TopRight, offsets),
        Some(Point { x: i32::MIN + 14, y: 0 })
    );
}

#[test]
fn bottom_right_of_the_overlays_monitor() {
    let offsets = PlacementOffsets::default();
    assert_eq!(
        position_window_bottom_right(&full_hd(), overlay(), offsets),
        Some(Point { x: 1528, y: 440 })
    );
    assert_eq!(
        position_window_bottom_right(&rect(1920, -200, 2560, 1440), overlay(), offsets),
        Some(Point { x: 1920 + 2560 - 400 + 8, y: -200 + 1440 - 600 - 40 })
    );
    assert_eq!(
        position_window_bottom_right(&rect(0, 0, 100, 100), overlay(), offsets),
        Some(Point { x: -292, y: -540 })
    );
    assert_eq!(
        position_window_bottom_right(&rect(i32::MAX, 0, u32::MAX, 1080), overlay(), offsets),
        None
    );
}

#[test]
fn center_is_truncated_toward_zero() {
    assert_eq!(rect(0, 0, 5, 7).center(), (2, 3));
    assert_eq!(rect(-3, -3, 1, 1).center(), (-2, -2));
    assert_eq!(rect(-10, 10, 4, 0).center(), (-8, 10));
    assert_eq!(rect(i32::MAX, i32::MIN, u32::MAX, u32::MAX).center().0, 2147483647 + 2147483647);
}

#[test]
fn rectangle_contains_is_half_open() {
    let r = rect(10, 20, 5, 5);
    assert!(r.contains(10, 20));
    assert!(r.contains(14, 24));
    assert!(!r.contains(15, 20));
    assert!(!r.contains(10, 25));
    assert!(!r.contains(9, 20));
    assert!(!rect(0, 0, 0, 0).contains(0, 0));
}

#[test]
fn window_inside_one_monitor() {
    let monitors = vec![monitor(0, 0, 1920, 1080), monitor(1920, 0, 2560, 1440)];
    assert_eq!(
        find_containing_monitor(&rect(100, 100, 800, 600), &monitors),
        Some(monitors[0])
    );
    assert_eq!(
        find_containing_monitor(&rect(2000, 100, 800, 600), &monitors),
        Some(monitors[1])
    );
}

#[test]
fn window_straddling_goes_by_its_center() {
    let monitors = vec![monitor(0, 0, 1920, 1080), monitor(1920, 0, 1920, 1080)];
    // center x = 1500 + 400 = 1900
    assert_eq!(
        find_containing_monitor(&rect(1500, 0, 800, 600), &monitors),
        Some(monitors[0])
    );
    // center x = 1520 + 400 = 1920: the edge belongs to the second display
    assert_eq!(
        find_containing_monitor(&rect(1520, 0, 800, 600), &monitors),
        Some(monitors[1])
    );
}

#[test]
fn overlapping_monitors_first_wins() {
    let a = monitor(0, 0, 1000, 1000);
    let b = monitor(500, 500, 1000, 1000);
    let w = rect(600, 600, 100, 100);
    assert_eq!(find_containing_monitor(&w, &vec![a, b]), Some(a));
    assert_eq!(find_containing_monitor(&w, &vec![b, a]), Some(b));
    assert_eq!(
        find_containing_monitor(&w, &vec![a, b]),
        find_containing_monitor(&w, &vec![a, b])
    );
}

#[test]
fn no_monitor_for_stale_coordinates() {
    let monitors = vec![monitor(0, 0, 1920, 1080)];
    assert_eq!(find_containing_monitor(&rect(5000, 5000, 10, 10), &monitors), None);
    assert_eq!(find_containing_monitor(&rect(-500, 10, 10, 10), &monitors), None);
}

#[test]
fn no_monitor_in_empty_list() {
    assert_eq!(find_containing_monitor(&rect(0, 0, 10, 10), &Vec::new()), None);
}

#[test]
fn monitor_left_of_origin() {
    let monitors = vec![monitor(0, 0, 1920, 1080), monitor(-1920, 0, 1920, 1080)];
    assert_eq!(
        find_containing_monitor(&rect(-1000, 100, 101, 100), &monitors),
        Some(monitors[1])
    );
    assert_eq!(monitors[1].bounds(), rect(-1920, 0, 1920, 1080));
}
