//! Screen geometry: which display holds the window the user was working in,
//! and where the overlay goes on that display.
use vstd::prelude::*;

verus! {

/// A position in screen coordinates, in physical pixels.
#[derive(Clone, Copy, Debug, PartialEq, Eq, Structural)]
pub struct Point {
    pub x: i32,
    pub y: i32,
}

/// The extent of a window or of a display, in physical pixels.
#[derive(Clone, Copy, Debug, PartialEq, Eq, Structural)]
pub struct Size {
    pub width: u32,
    pub height: u32,
}

/// A rectangle in screen coordinates. Width and height are unsigned, so a
/// rectangle never has a negative extent.
#[derive(Clone, Copy, Debug, PartialEq, Eq, Structural)]
pub struct Rectangle {
    pub x: i32,
    pub y: i32,
    pub width: u32,
    pub height: u32,
}

/// One display as the platform reports it.
#[derive(Clone, Copy, Debug, PartialEq, Eq, Structural)]
pub struct MonitorDescriptor {
    pub position: Point,
    pub size: Size,
}

/// The screen corner that the overlay aligns to.
#[derive(Clone, Copy, Debug, PartialEq, Eq, Structural)]
pub enum AnchorCorner {
    TopLeft,
    TopRight,
    BottomLeft,
    BottomRight,
}

/// Fixed allowances for platform chrome: the height kept free for a taskbar,
/// and the width of the invisible resize border that the platform counts into
/// a window's size.
#[derive(Clone, Copy, Debug, PartialEq, Eq, Structural)]
pub struct PlacementOffsets {
    pub taskbar_reserve: i32,
    pub border_compensation: i32,
}

/// Half of `n`, rounded toward zero.
pub open spec fn half_toward_zero(n: int) -> int {
    if n >= 0 {
        n / 2
    } else {
        -((-n) / 2)
    }
}

/// The horizontal coordinate of the rectangle's center, truncated to a pixel.
pub open spec fn center_x(r: Rectangle) -> int {
    half_toward_zero(2 * r.x + r.width)
}

/// The vertical coordinate of the rectangle's center, truncated to a pixel.
pub open spec fn center_y(r: Rectangle) -> int {
    half_toward_zero(2 * r.y + r.height)
}

/// Whether `(px, py)` lies in `r`, whose right and bottom edges are excluded.
pub open spec fn contains_point(r: Rectangle, px: int, py: int) -> bool {
    &&& r.x <= px < r.x + r.width
    &&& r.y <= py < r.y + r.height
}

/// The rectangle that a display covers.
pub open spec fn monitor_bounds(m: MonitorDescriptor) -> Rectangle {
    Rectangle { x: m.position.x, y: m.position.y, width: m.size.width, height: m.size.height }
}

/// Whether the display holds the center of `window`.
pub open spec fn holds_center(m: MonitorDescriptor, window: Rectangle) -> bool {
    contains_point(monitor_bounds(m), center_x(window), center_y(window))
}

/// Whether `window` lies in the interior of the display: no edge of it touches
/// an edge of the display.
pub open spec fn strictly_inside(window: Rectangle, m: MonitorDescriptor) -> bool {
    &&& m.position.x < window.x
    &&& window.x + window.width < m.position.x + m.size.width
    &&& m.position.y < window.y
    &&& window.y + window.height < m.position.y + m.size.height
}

/// The index, at or after `start`, of the first display that holds the center
/// of `window`.
pub open spec fn first_holding_from(
    window: Rectangle,
    monitors: Seq<MonitorDescriptor>,
    start: int,
) -> Option<int>
    decreases monitors.len() - start,
{
    if start >= monitors.len() {
        None
    } else if holds_center(monitors[start], window) {
        Some(start)
    } else {
        first_holding_from(window, monitors, start + 1)
    }
}

/// The first display, in enumeration order, that holds the center of `window`.
pub open spec fn containing_monitor(
    window: Rectangle,
    monitors: Seq<MonitorDescriptor>,
) -> Option<MonitorDescriptor> {
    match first_holding_from(window, monitors, 0) {
        Some(i) => Some(monitors[i]),
        None => None,
    }
}

/// Where the overlay's left edge goes.
pub open spec fn position_x(
    monitor: Rectangle,
    overlay: Size,
    anchor: AnchorCorner,
    offsets: PlacementOffsets,
) -> int {
    match anchor {
        AnchorCorner::TopLeft | AnchorCorner::BottomLeft => monitor.x - offsets.border_compensation,
        AnchorCorner::TopRight | AnchorCorner::BottomRight => monitor.x + monitor.width
            - overlay.width + offsets.border_compensation,
    }
}

/// Where the overlay's top edge goes.
pub open spec fn position_y(
    monitor: Rectangle,
    overlay: Size,
    anchor: AnchorCorner,
    offsets: PlacementOffsets,
) -> int {
    match anchor {
        AnchorCorner::TopLeft | AnchorCorner::TopRight => monitor.y as int,
        AnchorCorner::BottomLeft | AnchorCorner::BottomRight => monitor.y + monitor.height
            - overlay.height - offsets.taskbar_reserve,
    }
}

/// Whether both coordinates of the overlay's position can be held in a
/// `Point`.
pub open spec fn position_fits(
    monitor: Rectangle,
    overlay: Size,
    anchor: AnchorCorner,
    offsets: PlacementOffsets,
) -> bool {
    &&& i32::MIN <= position_x(monitor, overlay, anchor, offsets) <= i32::MAX
    &&& i32::MIN <= position_y(monitor, overlay, anchor, offsets) <= i32::MAX
}

/// The overlay's position as a `Point`, where it fits into one.
pub open spec fn placement(
    monitor: Rectangle,
    overlay: Size,
    anchor: AnchorCorner,
    offsets: PlacementOffsets,
) -> Option<Point> {
    if position_fits(monitor, overlay, anchor, offsets) {
        Some(
            Point {
                x: position_x(monitor, overlay, anchor, offsets) as i32,
                y: position_y(monitor, overlay, anchor, offsets) as i32,
            },
        )
    } else {
        None
    }
}

impl Default for AnchorCorner {
    fn default() -> (r: Self)
        ensures
            r == AnchorCorner::BottomRight,
    {
        AnchorCorner::BottomRight
    }
}

impl Default for PlacementOffsets {
    fn default() -> (r: Self)
        ensures
            r.taskbar_reserve == 40,
            r.border_compensation == 8,
    {
        PlacementOffsets { taskbar_reserve: 40, border_compensation: 8 }
    }
}

impl MonitorDescriptor {
    /// The rectangle that this display covers.
    pub fn bounds(&self) -> (r: Rectangle)
        ensures
            r == monitor_bounds(*self),
    {
        Rectangle {
            x: self.position.x,
            y: self.position.y,
            width: self.size.width,
            height: self.size.height,
        }
    }
}

fn halve(n: i64) -> (h: i64)
    requires
        -0x1_0000_0000_0000 <= n <= 0x1_0000_0000_0000,
    ensures
        h == half_toward_zero(n as int),
{
    if n >= 0 {
        n / 2
    } else {
        -((-n) / 2)
    }
}

impl Rectangle {
    /// The center of the rectangle, each coordinate truncated to a pixel.
    pub fn center(&self) -> (c: (i64, i64))
        ensures
            c.0 == center_x(*self),
            c.1 == center_y(*self),
    {
        let cx: i64 = halve(2 * (self.x as i64) + (self.width as i64));
        let cy: i64 = halve(2 * (self.y as i64) + (self.height as i64));
        (cx, cy)
    }

    /// Whether the point lies in the rectangle, the right and bottom edges
    /// excluded.
    pub fn contains(&self, px: i64, py: i64) -> (b: bool)
        ensures
            b == contains_point(*self, px as int, py as int),
    {
        let left: i64 = self.x as i64;
        let top: i64 = self.y as i64;
        let right: i64 = left + (self.width as i64);
        let bottom: i64 = top + (self.height as i64);
        left <= px && px < right && top <= py && py < bottom
    }
}

/// Finds the display that holds the center of `window_bounds`. Where several
/// do, the first in enumeration order is returned; where none does, or the
/// list is empty, nothing is.
pub fn find_containing_monitor(
    window_bounds: &Rectangle,
    monitors: &Vec<MonitorDescriptor>,
) -> (r: Option<MonitorDescriptor>)
    ensures
        r == containing_monitor(*window_bounds, monitors@),
{
    let (cx, cy) = window_bounds.center();
    let mut i: usize = 0;
    while i < monitors.len()
        invariant
            i <= monitors.len(),
            cx == center_x(*window_bounds),
            cy == center_y(*window_bounds),
            first_holding_from(*window_bounds, monitors@, 0) == first_holding_from(
                *window_bounds,
                monitors@,
                i as int,
            ),
        decreases monitors.len() - i,
    {
        let m = monitors[i];
        if m.bounds().contains(cx, cy) {
            return Some(m);
        }
        i += 1;
    }
    None
}

/// Computes the overlay's top-left corner on `monitor` for the given anchor.
pub fn compute_position(
    monitor: &Rectangle,
    overlay_size: Size,
    anchor: AnchorCorner,
    offsets: PlacementOffsets,
) -> (p: Point)
    requires
        position_fits(*monitor, overlay_size, anchor, offsets),
    ensures
        p.x == position_x(*monitor, overlay_size, anchor, offsets),
        p.y == position_y(*monitor, overlay_size, anchor, offsets),
{
    let (x, y) = raw_position(monitor, overlay_size, anchor, offsets);
    Point { x: x as i32, y: y as i32 }
}

/// Computes the overlay's position as `compute_position` does, and returns
/// nothing where a coordinate is out of a `Point`'s range.
pub fn try_compute_position(
    monitor: &Rectangle,
    overlay_size: Size,
    anchor: AnchorCorner,
    offsets: PlacementOffsets,
) -> (r: Option<Point>)
    ensures
        r == placement(*monitor, overlay_size, anchor, offsets),
{
    let (x, y) = raw_position(monitor, overlay_size, anchor, offsets);
    if in_point_range(x) && in_point_range(y) {
        Some(compute_position(monitor, overlay_size, anchor, offsets))
    } else {
        None
    }
}

/// Computes the overlay's position in the bottom right corner of `monitor`,
/// and returns nothing where a coordinate is out of a `Point`'s range.
pub fn position_window_bottom_right(
    monitor: &Rectangle,
    window_size: Size,
    offsets: PlacementOffsets,
) -> (r: Option<Point>)
    ensures
        r == placement(*monitor, window_size, AnchorCorner::BottomRight, offsets),
{
    try_compute_position(monitor, window_size, AnchorCorner::BottomRight, offsets)
}

fn in_point_range(v: i64) -> (b: bool)
    ensures
        b == (i32::MIN <= v <= i32::MAX),
{
    -0x8000_0000 <= v && v <= 0x7fff_ffff
}

fn raw_position(
    monitor: &Rectangle,
    overlay_size: Size,
    anchor: AnchorCorner,
    offsets: PlacementOffsets,
) -> (c: (i64, i64))
    ensures
        c.0 == position_x(*monitor, overlay_size, anchor, offsets),
        c.1 == position_y(*monitor, overlay_size, anchor, offsets),
{
    let left: i64 = (monitor.x as i64) - (offsets.border_compensation as i64);
    let right: i64 = (monitor.x as i64) + (monitor.width as i64) - (overlay_size.width as i64)
        + (offsets.border_compensation as i64);
    let top: i64 = monitor.y as i64;
    let bottom: i64 = (monitor.y as i64) + (monitor.height as i64) - (overlay_size.height as i64)
        - (offsets.taskbar_reserve as i64);
    match anchor {
        AnchorCorner::TopLeft => (left, top),
        AnchorCorner::TopRight => (right, top),
        AnchorCorner::BottomLeft => (left, bottom),
        AnchorCorner::BottomRight => (right, bottom),
    }
}

/// What `first_holding_from` returns is the least index at or after `start`
/// whose display holds the center, and it returns nothing only where no
/// display from `start` on holds it.
pub proof fn lemma_first_holding(window: Rectangle, monitors: Seq<MonitorDescriptor>, start: int)
    requires
        0 <= start,
    ensures
        match first_holding_from(window, monitors, start) {
            Some(i) => {
                &&& start <= i < monitors.len()
                &&& holds_center(monitors[i], window)
                &&& forall|j: int| start <= j < i ==> !holds_center(#[trigger] monitors[j], window)
            },
            None => forall|j: int|
                start <= j < monitors.len() ==> !holds_center(#[trigger] monitors[j], window),
        },
    decreases monitors.len() - start,
{
    if start < monitors.len() && !holds_center(monitors[start], window) {
        lemma_first_holding(window, monitors, start + 1);
    }
}

/// The center of a rectangle lies between its left and right edges and
/// between its top and bottom edges.
pub proof fn lemma_center_within(r: Rectangle)
    ensures
        r.x <= center_x(r) <= r.x + r.width,
        r.y <= center_y(r) <= r.y + r.height,
{
}

/// A window that lies strictly inside the display at index `k`, and strictly
/// inside no other, is attributed to that display, unless an earlier display
/// overlaps the window's center: the earlier one then wins.
pub proof fn lemma_window_inside_one_monitor(
    window: Rectangle,
    monitors: Seq<MonitorDescriptor>,
    k: int,
)
    requires
        0 <= k < monitors.len(),
        strictly_inside(window, monitors[k]),
        forall|j: int|
            0 <= j < monitors.len() && j != k ==> !strictly_inside(window, #[trigger] monitors[j]),
        forall|j: int| 0 <= j < k ==> !holds_center(#[trigger] monitors[j], window),
    ensures
        containing_monitor(window, monitors) == Some(monitors[k]),
{
    lemma_center_within(window);
    lemma_first_holding(window, monitors, 0);
    assert(holds_center(monitors[k], window));
}

/// First match wins: the result is the display at the least index that holds
/// the window's center, whatever displays follow it, overlapping or adjacent.
/// The result depends on the window and the list alone.
pub proof fn lemma_first_match_wins(window: Rectangle, monitors: Seq<MonitorDescriptor>, i: int)
    requires
        0 <= i < monitors.len(),
        holds_center(monitors[i], window),
        forall|j: int| 0 <= j < i ==> !holds_center(#[trigger] monitors[j], window),
    ensures
        containing_monitor(window, monitors) == Some(monitors[i]),
{
    lemma_first_holding(window, monitors, 0);
}

/// The result goes by the window and by the displays in their order, and by
/// nothing else: two lists with the same displays at the same places give the
/// same result.
pub proof fn lemma_same_input_same_monitor(
    window: Rectangle,
    monitors: Seq<MonitorDescriptor>,
    again: Seq<MonitorDescriptor>,
)
    requires
        monitors.len() == again.len(),
        forall|i: int| 0 <= i < monitors.len() ==> monitors[i] == again[i],
    ensures
        containing_monitor(window, monitors) == containing_monitor(window, again),
{
    assert(monitors =~= again);
}

/// No display is found exactly where none holds the window's center; an empty
/// list is one such case.
pub proof fn lemma_no_monitor(window: Rectangle, monitors: Seq<MonitorDescriptor>)
    ensures
        containing_monitor(window, monitors) is None <==> forall|j: int|
            0 <= j < monitors.len() ==> !holds_center(#[trigger] monitors[j], window),
{
    lemma_first_holding(window, monitors, 0);
}

/// Two displays that lie side by side, or one above the other, never both
/// hold a window's center: the shared edge belongs to the display that starts
/// there.
pub proof fn lemma_adjacent_monitors_disjoint(
    a: MonitorDescriptor,
    b: MonitorDescriptor,
    window: Rectangle,
)
    requires
        a.position.x + a.size.width <= b.position.x || a.position.y + a.size.height
            <= b.position.y,
    ensures
        !(holds_center(a, window) && holds_center(b, window)),
{
}

} // verus!
