//! The geometry resolver: given a monitor's pixel geometry, an edge and a
//! thickness, compute the absolute rectangle the bar window occupies.

use vstd::prelude::*;

use crate::bar::Position;
use crate::error::Error;

verus! {

/// The pixel geometry of one physical monitor, as enumerated by the display
/// server: position of its top-left corner and its size. A read-only
/// snapshot, taken once when a bar window is created.
#[derive(Debug, Clone, Copy, PartialEq, Eq, Structural)]
pub struct Monitor {
    pub x: i32,
    pub y: i32,
    pub width: u32,
    pub height: u32,
}

/// An absolute window rectangle: position of its top-left corner and size.
#[derive(Debug, Clone, Copy, PartialEq, Eq, Structural)]
pub struct Rect {
    pub x: i32,
    pub y: i32,
    pub width: u32,
    pub height: u32,
}

/// A monitor whose far corner is still addressable in 32-bit pixel
/// coordinates. Display servers hand out monitor geometry in exactly this
/// coordinate space, so every enumerated monitor satisfies it.
pub open spec fn monitor_ok(m: Monitor) -> bool {
    &&& m.x + m.width <= i32::MAX
    &&& m.y + m.height <= i32::MAX
}

/// The rectangle coordinates for `resolve(m, pos, t)` stay representable in
/// `i32`. Beyond `monitor_ok`, only a bar thicker than its monitor on a
/// right or bottom edge of a monitor at the extreme negative end of the
/// coordinate space could push an origin below `i32::MIN`.
pub open spec fn rect_fits(m: Monitor, pos: Position, t: u16) -> bool {
    &&& monitor_ok(m)
    &&& pos is Right ==> m.x + m.width - t >= i32::MIN
    &&& pos is Bottom ==> m.y + m.height - t >= i32::MIN
}

/// The rectangle a bar of thickness `t` occupies on edge `pos` of monitor
/// `m`: a strip of that thickness flush against the chosen edge, spanning
/// the monitor's full extent in the other direction.
pub open spec fn rect_for(m: Monitor, pos: Position, t: u16) -> Rect {
    match pos {
        Position::Left => Rect { x: m.x, y: m.y, width: t as u32, height: m.height },
        Position::Right => Rect {
            x: (m.x + m.width - t) as i32,
            y: m.y,
            width: t as u32,
            height: m.height,
        },
        Position::Top => Rect { x: m.x, y: m.y, width: m.width, height: t as u32 },
        Position::Bottom => Rect {
            x: m.x,
            y: (m.y + m.height - t) as i32,
            width: m.width,
            height: t as u32,
        },
    }
}

/// Compute the absolute rectangle for a bar of thickness `thickness` on edge
/// `position` of `monitor`. Pure: no side effects, and the result depends on
/// the three arguments alone. When the thickness exceeds the monitor's
/// relevant dimension the rectangle simply overhangs the opposite edge;
/// callers that care must clamp beforehand.
pub fn resolve(monitor: &Monitor, position: &Position, thickness: u16) -> (r: Rect)
    requires
        rect_fits(*monitor, *position, thickness),
    ensures
        r == rect_for(*monitor, *position, thickness),
{
    match position {
        Position::Left => Rect {
            x: monitor.x,
            y: monitor.y,
            width: thickness as u32,
            height: monitor.height,
        },
        Position::Right => Rect {
            x: ((monitor.x as i64 + monitor.width as i64 - thickness as i64) as i32),
            y: monitor.y,
            width: thickness as u32,
            height: monitor.height,
        },
        Position::Top => Rect {
            x: monitor.x,
            y: monitor.y,
            width: monitor.width,
            height: thickness as u32,
        },
        Position::Bottom => Rect {
            x: monitor.x,
            y: ((monitor.y as i64 + monitor.height as i64 - thickness as i64) as i32),
            width: monitor.width,
            height: thickness as u32,
        },
    }
}

/// Whichever of the rectangle's two dimensions realises the bar's thickness:
/// its width on a vertical edge, its height on a horizontal one.
pub open spec fn thickness_dim(r: Rect, pos: Position) -> u32 {
    match pos {
        Position::Left | Position::Right => r.width,
        Position::Top | Position::Bottom => r.height,
    }
}

/// A resolved rectangle lies entirely within its monitor whenever the
/// thickness does not exceed the monitor's extent along the bar's own
/// direction, and its thickness dimension is exactly the requested
/// thickness.
pub proof fn lemma_resolve_within_monitor(m: Monitor, pos: Position, t: u16)
    requires
        rect_fits(m, pos, t),
        pos is Left || pos is Right ==> t <= m.width,
        pos is Top || pos is Bottom ==> t <= m.height,
    ensures
        ({
            let r = rect_for(m, pos, t);
            &&& m.x <= r.x
            &&& r.x + r.width <= m.x + m.width
            &&& m.y <= r.y
            &&& r.y + r.height <= m.y + m.height
            &&& thickness_dim(r, pos) == t
        }),
{
}

/// The left edge pins the rectangle to the monitor's own x; the right edge
/// sets it back from the monitor's far side by exactly the thickness.
pub proof fn lemma_resolve_x(m: Monitor, t: u16)
    requires
        monitor_ok(m),
        m.x + m.width - t >= i32::MIN,
    ensures
        rect_for(m, Position::Left, t).x == m.x,
        rect_for(m, Position::Right, t).x == m.x + m.width - t,
{
}

/// Pick the monitor a bar was configured for out of the enumerated list. An
/// index past the end of the list is the fatal startup error, naming the
/// offending index and the number of monitors that were found.
pub fn select_monitor(monitors: &Vec<Monitor>, index: usize) -> (r: Result<Monitor, Error>)
    ensures
        index < monitors@.len() ==> r == Ok::<Monitor, Error>(monitors@[index as int]),
        index >= monitors@.len() ==> r == Err::<Monitor, Error>(
            Error::MonitorOutOfRange { index, count: monitors.len() },
        ),
{
    if index < monitors.len() {
        Ok(monitors[index])
    } else {
        Err(Error::MonitorOutOfRange { index, count: monitors.len() })
    }
}

} // verus!
