//! The resize zones at the rim of a borderless window, and where a window
//! stands among the monitors.

use vstd::prelude::*;

verus! {

/// The rim zone under the pointer; corners win over edges.
#[derive(Debug, Clone, Copy, PartialEq, Eq, Structural)]
pub enum ResizeZone {
    Interior,
    West,
    East,
    North,
    South,
    NorthWest,
    NorthEast,
    SouthWest,
    SouthEast,
}

/// The direction in which a drag resizes the window.
#[derive(Debug, Clone, Copy, PartialEq, Eq, Structural)]
pub enum ResizeDirection {
    West,
    East,
    North,
    South,
    NorthWest,
    NorthEast,
    SouthWest,
    SouthEast,
}

/// The pointer shapes that the application sets.
#[derive(Debug, Clone, Copy, PartialEq, Eq, Structural)]
pub enum CursorIcon {
    Default,
    Pointer,
    Grabbing,
    EwResize,
    NsResize,
    NwseResize,
    NeswResize,
}

impl ResizeZone {
    /// The zone lies at the left side.
    pub open spec fn west(self) -> bool {
        self == ResizeZone::West || self == ResizeZone::NorthWest || self == ResizeZone::SouthWest
    }

    /// The zone lies at the right side.
    pub open spec fn east(self) -> bool {
        self == ResizeZone::East || self == ResizeZone::NorthEast || self == ResizeZone::SouthEast
    }

    /// The zone lies at the top side.
    pub open spec fn north(self) -> bool {
        self == ResizeZone::North || self == ResizeZone::NorthWest || self
            == ResizeZone::NorthEast
    }

    /// The zone lies at the bottom side.
    pub open spec fn south(self) -> bool {
        self == ResizeZone::South || self == ResizeZone::SouthWest || self
            == ResizeZone::SouthEast
    }

    /// The direction of the same name; none in the interior.
    pub open spec fn pulls(self) -> Option<ResizeDirection> {
        match self {
            ResizeZone::Interior => None,
            ResizeZone::West => Some(ResizeDirection::West),
            ResizeZone::East => Some(ResizeDirection::East),
            ResizeZone::North => Some(ResizeDirection::North),
            ResizeZone::South => Some(ResizeDirection::South),
            ResizeZone::NorthWest => Some(ResizeDirection::NorthWest),
            ResizeZone::NorthEast => Some(ResizeDirection::NorthEast),
            ResizeZone::SouthWest => Some(ResizeDirection::SouthWest),
            ResizeZone::SouthEast => Some(ResizeDirection::SouthEast),
        }
    }

    /// The direction of the same name; none in the interior.
    pub fn direction(self) -> (r: Option<ResizeDirection>)
        ensures
            r == self.pulls(),
    {
        match self {
            ResizeZone::Interior => None,
            ResizeZone::West => Some(ResizeDirection::West),
            ResizeZone::East => Some(ResizeDirection::East),
            ResizeZone::North => Some(ResizeDirection::North),
            ResizeZone::South => Some(ResizeDirection::South),
            ResizeZone::NorthWest => Some(ResizeDirection::NorthWest),
            ResizeZone::NorthEast => Some(ResizeDirection::NorthEast),
            ResizeZone::SouthWest => Some(ResizeDirection::SouthWest),
            ResizeZone::SouthEast => Some(ResizeDirection::SouthEast),
        }
    }

    /// The two-headed arrow along which the zone resizes.
    pub open spec fn icon(self) -> CursorIcon {
        if self == ResizeZone::Interior {
            CursorIcon::Default
        } else if !self.north() && !self.south() {
            CursorIcon::EwResize
        } else if !self.west() && !self.east() {
            CursorIcon::NsResize
        } else if self.north() == self.west() {
            CursorIcon::NwseResize
        } else {
            CursorIcon::NeswResize
        }
    }

    /// The pointer shape over the zone.
    pub fn cursor_icon(self) -> (r: CursorIcon)
        ensures
            r == self.icon(),
    {
        match self {
            ResizeZone::Interior => CursorIcon::Default,
            ResizeZone::West | ResizeZone::East => CursorIcon::EwResize,
            ResizeZone::North | ResizeZone::South => CursorIcon::NsResize,
            ResizeZone::NorthWest | ResizeZone::SouthEast => CursorIcon::NwseResize,
            ResizeZone::NorthEast | ResizeZone::SouthWest => CursorIcon::NeswResize,
        }
    }
}

/// A coordinate in pixels, bracketed by the whole numbers around it. Both are
/// equal where it is whole.
#[derive(Debug, Clone, Copy)]
pub struct Px {
    pub floor: i64,
    pub ceil: i64,
}

impl Px {
    /// A whole coordinate.
    pub fn whole(n: i64) -> (r: Px)
        ensures
            r == (Px { floor: n, ceil: n }),
    {
        Px { floor: n, ceil: n }
    }

    /// The coordinate lies at or before the whole number `n`.
    pub open spec fn at_most(self, n: int) -> bool {
        self.ceil <= n
    }

    /// The coordinate lies at or behind the whole number `n`.
    pub open spec fn at_least(self, n: int) -> bool {
        self.floor >= n
    }
}

/// Width of the rim at an edge.
pub const EDGE: i64 = 6;

/// Extent of a corner.
pub const CORNER: i64 = 12;

/// The point lies inside the window, rim included.
pub open spec fn in_window(x: Px, y: Px, w: int, h: int) -> bool {
    x.at_least(0) && y.at_least(0) && x.at_most(w) && y.at_most(h)
}

/// The point lies in one of the four corner squares.
pub open spec fn in_corner(x: Px, y: Px, w: int, h: int) -> bool {
    (x.at_most(CORNER as int) || x.at_least(w - CORNER)) && (y.at_most(CORNER as int)
        || y.at_least(h - CORNER))
}

/// The rim zone of a window of `w` by `h` pixels under the point `(x, y)`.
pub fn resize_zone_at(x: Px, y: Px, w: u32, h: u32) -> (r: ResizeZone)
    ensures
        !in_window(x, y, w as int, h as int) ==> r == ResizeZone::Interior,
        in_window(x, y, w as int, h as int) && in_corner(x, y, w as int, h as int) ==> {
            &&& r.north() == y.at_most(CORNER as int)
            &&& r.south() == !y.at_most(CORNER as int)
            &&& r.west() == x.at_most(CORNER as int)
            &&& r.east() == !x.at_most(CORNER as int)
        },
        in_window(x, y, w as int, h as int) && !in_corner(x, y, w as int, h as int) ==> r == (
        if x.at_most(EDGE as int) {
            ResizeZone::West
        } else if x.at_least(w - EDGE) {
            ResizeZone::East
        } else if y.at_most(EDGE as int) {
            ResizeZone::North
        } else if y.at_least(h - EDGE) {
            ResizeZone::South
        } else {
            ResizeZone::Interior
        }),
{
    let w: i64 = w as i64;
    let h: i64 = h as i64;
    if x.floor < 0 || y.floor < 0 || x.ceil > w || y.ceil > h {
        return ResizeZone::Interior;
    }
    let near_left: bool = x.ceil <= CORNER;
    let near_right: bool = x.floor >= w - CORNER;
    let near_top: bool = y.ceil <= CORNER;
    let near_bottom: bool = y.floor >= h - CORNER;
    if near_top && near_left {
        ResizeZone::NorthWest
    } else if near_top && near_right {
        ResizeZone::NorthEast
    } else if near_bottom && near_left {
        ResizeZone::SouthWest
    } else if near_bottom && near_right {
        ResizeZone::SouthEast
    } else if x.ceil <= EDGE {
        ResizeZone::West
    } else if x.floor >= w - EDGE {
        ResizeZone::East
    } else if y.ceil <= EDGE {
        ResizeZone::North
    } else if y.floor >= h - EDGE {
        ResizeZone::South
    } else {
        ResizeZone::Interior
    }
}

/// A monitor's place in the desktop, in physical pixels.
#[derive(Debug, Clone, Copy)]
pub struct Monitor {
    pub x: i32,
    pub y: i32,
    pub width: u32,
    pub height: u32,
}

impl Monitor {
    /// The position lies on this monitor.
    pub open spec fn holds(self, pos: (i32, i32)) -> bool {
        &&& self.x <= pos.0 < self.x + self.width
        &&& self.y <= pos.1 < self.y + self.height
    }

    /// Whether `pos` lies on this monitor.
    pub fn contains(&self, pos: (i32, i32)) -> (r: bool)
        ensures
            r == self.holds(pos),
    {
        let x: i64 = pos.0 as i64;
        let y: i64 = pos.1 as i64;
        x >= self.x as i64 && x < self.x as i64 + self.width as i64 && y >= self.y as i64 && y
            < self.y as i64 + self.height as i64
    }
}

/// Some monitor holds the position.
pub open spec fn on_some(monitors: Seq<Monitor>, pos: (i32, i32)) -> bool {
    exists|i: int| 0 <= i < monitors.len() && #[trigger] monitors[i].holds(pos)
}

/// Whether the position lies on one of the connected monitors.
pub fn pos_on_some_monitor(monitors: &Vec<Monitor>, pos: (i32, i32)) -> (r: bool)
    ensures
        r == on_some(monitors@, pos),
{
    let mut i: usize = 0;
    while i < monitors.len()
        invariant
            0 <= i <= monitors@.len(),
            forall|j: int| 0 <= j < i ==> !#[trigger] monitors@[j].holds(pos),
        decreases monitors@.len() - i,
    {
        if monitors[i].contains(pos) {
            return true;
        }
        i = i + 1;
    }
    false
}

/// How far a window of extent `win` starts into a monitor of extent `mon`
/// when it is centred; not at all where it is the larger one.
pub open spec fn margin(mon: u32, win: u32) -> int {
    if win <= mon {
        (mon - win) / 2
    } else {
        0
    }
}

/// Where a window of `win_w` by `win_h` pixels stands in the middle of `mon`.
pub fn center_position(mon: &Monitor, win_w: u32, win_h: u32) -> (r: (i32, i32))
    requires
        mon.x + margin(mon.width, win_w) <= i32::MAX,
        mon.y + margin(mon.height, win_h) <= i32::MAX,
    ensures
        r.0 == mon.x + margin(mon.width, win_w),
        r.1 == mon.y + margin(mon.height, win_h),
{
    let x: i64 = mon.x as i64 + (mon.width.saturating_sub(win_w) / 2) as i64;
    let y: i64 = mon.y as i64 + (mon.height.saturating_sub(win_h) / 2) as i64;
    (x as i32, y as i32)
}

/// The monitor on which the window docks: the one it is on, else the first
/// that holds its last position, else the first one.
pub fn dock_monitor(
    current: Option<usize>,
    outer_pos: Option<(i32, i32)>,
    monitors: &Vec<Monitor>,
) -> (r: Option<usize>)
    ensures
        current is Some ==> r == current,
        current is None && (outer_pos is None || !on_some(monitors@, outer_pos->0)) ==> r == (
        if monitors@.len() > 0 {
            Some(0usize)
        } else {
            None
        }),
        current is None && outer_pos is Some && on_some(monitors@, outer_pos->0) ==> {
            &&& r is Some
            &&& r->0 < monitors@.len()
            &&& monitors@[r->0 as int].holds(outer_pos->0)
            &&& forall|j: int| 0 <= j < r->0 ==> !#[trigger] monitors@[j].holds(outer_pos->0)
        },
{
    if current.is_some() {
        return current;
    }
    if let Some(pos) = outer_pos {
        let mut i: usize = 0;
        while i < monitors.len()
            invariant
                0 <= i <= monitors@.len(),
                outer_pos == Some(pos),
                current is None,
                forall|j: int| 0 <= j < i ==> !#[trigger] monitors@[j].holds(pos),
            decreases monitors@.len() - i,
        {
            if monitors[i].contains(pos) {
                return Some(i);
            }
            i = i + 1;
        }
    }
    if monitors.len() > 0 {
        Some(0)
    } else {
        None
    }
}

/// A zone pulls the edges that it lies at: each direction is its own zone's,
/// and the inside pulls none.
pub proof fn law_zones_pull_their_edges(z: ResizeZone)
    ensures
        ResizeZone::West.pulls() == Some(ResizeDirection::West),
        ResizeZone::East.pulls() == Some(ResizeDirection::East),
        ResizeZone::North.pulls() == Some(ResizeDirection::North),
        ResizeZone::South.pulls() == Some(ResizeDirection::South),
        ResizeZone::NorthWest.pulls() == Some(ResizeDirection::NorthWest),
        ResizeZone::NorthEast.pulls() == Some(ResizeDirection::NorthEast),
        ResizeZone::SouthWest.pulls() == Some(ResizeDirection::SouthWest),
        ResizeZone::SouthEast.pulls() == Some(ResizeDirection::SouthEast),
        z.pulls() is None <==> z == ResizeZone::Interior,
        !(z.west() && z.east()) && !(z.north() && z.south()),
{
}

/// The cursor's shape runs the way the edge moves.
pub proof fn law_zone_cursors(z: ResizeZone)
    ensures
        ResizeZone::West.icon() == CursorIcon::EwResize,
        ResizeZone::East.icon() == CursorIcon::EwResize,
        ResizeZone::North.icon() == CursorIcon::NsResize,
        ResizeZone::South.icon() == CursorIcon::NsResize,
        ResizeZone::NorthWest.icon() == CursorIcon::NwseResize,
        ResizeZone::SouthEast.icon() == CursorIcon::NwseResize,
        ResizeZone::NorthEast.icon() == CursorIcon::NeswResize,
        ResizeZone::SouthWest.icon() == CursorIcon::NeswResize,
        z.icon() == CursorIcon::Default <==> z == ResizeZone::Interior,
{
}

/// A coordinate is compared as a whole: it is at most what its ceiling is at
/// most, at least what its floor is at least.
pub proof fn law_coordinates(x: Px, n: int)
    ensures
        x.at_most(n) <==> x.ceil <= n,
        x.at_least(n) <==> x.floor >= n,
        EDGE == 6 && CORNER == 12,
{
}

/// A corner is within twelve points of two edges that meet.
pub proof fn law_corners(x: Px, y: Px, w: int, h: int)
    requires
        x.floor <= x.ceil,
        y.floor <= y.ceil,
    ensures
        x.ceil <= 12 && y.ceil <= 12 ==> in_corner(x, y, w, h),
        x.floor >= w - 12 && y.ceil <= 12 ==> in_corner(x, y, w, h),
        x.ceil <= 12 && y.floor >= h - 12 ==> in_corner(x, y, w, h),
        x.floor >= w - 12 && y.floor >= h - 12 ==> in_corner(x, y, w, h),
        x.ceil > 12 && x.floor < w - 12 ==> !in_corner(x, y, w, h),
        y.ceil > 12 && y.floor < h - 12 ==> !in_corner(x, y, w, h),
        in_window(x, y, w, h) <==> 0 <= x.floor && x.ceil <= w && 0 <= y.floor && y.ceil <= h,
{
}

/// A monitor holds its first point and not the one past its last, and a place
/// is on some monitor if one of them holds it.
pub proof fn law_monitors_hold_their_points(monitors: Seq<Monitor>, m: Monitor, pos: (i32, i32), i: int)
    ensures
        m.width > 0 && m.height > 0 ==> m.holds((m.x, m.y)),
        pos.0 < m.x || pos.1 < m.y ==> !m.holds(pos),
        pos.0 >= m.x + m.width || pos.1 >= m.y + m.height ==> !m.holds(pos),
        m.x <= pos.0 < m.x + m.width && m.y <= pos.1 < m.y + m.height ==> m.holds(pos),
        0 <= i < monitors.len() && monitors[i].holds(pos) ==> on_some(monitors, pos),
        monitors.len() == 0 ==> !on_some(monitors, pos),
{
}

/// A window that fits leaves the same margin on both sides but for a point; one
/// that does not leaves none.
pub proof fn law_margins_are_even(mon: u32, win: u32)
    ensures
        win <= mon ==> 0 <= (mon - win) - 2 * margin(mon, win) <= 1,
        win > mon ==> margin(mon, win) == 0,
{
}

} // verus!
