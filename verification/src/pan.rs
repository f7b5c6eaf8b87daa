//! Pan-offset bookkeeping.
//!
//! While the middle mouse button is held, each frame's pointer delta is added
//! to a persistent two-dimensional pan offset; while it is released, the
//! offset is left untouched. Coordinates are whole pointer units.

use vstd::prelude::*;

verus! {

/// One frame's worth of pointer input: whether the middle button is held and
/// the pointer movement reported for the frame.
#[derive(Clone, Copy, PartialEq, Eq, Structural, Debug)]
pub struct PanEvent {
    pub middle_down: bool,
    pub dx: i64,
    pub dy: i64,
}

/// The accumulated pan offset.
#[derive(Clone, Copy, PartialEq, Eq, Structural, Debug)]
pub struct PanOffset {
    pub x: i64,
    pub y: i64,
}

/// The offset after one event: shifted by the delta while the middle button
/// is held, unchanged while it is released.
pub open spec fn pan_after(x: int, y: int, e: PanEvent) -> (int, int) {
    if e.middle_down {
        (x + e.dx, y + e.dy)
    } else {
        (x, y)
    }
}

/// The offset after a whole sequence of events, applied in order.
pub open spec fn pan_fold(x: int, y: int, events: Seq<PanEvent>) -> (int, int)
    decreases events.len(),
{
    if events.len() == 0 {
        (x, y)
    } else {
        let p = pan_after(x, y, events[0]);
        pan_fold(p.0, p.1, events.drop_first())
    }
}

/// The sum of the horizontal deltas of the events seen while the middle
/// button was held.
pub open spec fn held_dx_sum(events: Seq<PanEvent>) -> int
    decreases events.len(),
{
    if events.len() == 0 {
        0
    } else {
        (if events[0].middle_down {
            events[0].dx as int
        } else {
            0
        }) + held_dx_sum(events.drop_first())
    }
}

/// The sum of the vertical deltas of the events seen while the middle button
/// was held.
pub open spec fn held_dy_sum(events: Seq<PanEvent>) -> int
    decreases events.len(),
{
    if events.len() == 0 {
        0
    } else {
        (if events[0].middle_down {
            events[0].dy as int
        } else {
            0
        }) + held_dy_sum(events.drop_first())
    }
}

/// For every sequence of pointer events, the accumulated pan offset equals
/// the starting offset plus the sum of the deltas reported while the middle
/// button was held; events with the button released contribute nothing.
pub proof fn lemma_pan_accumulates(x: int, y: int, events: Seq<PanEvent>)
    ensures
        pan_fold(x, y, events) == (x + held_dx_sum(events), y + held_dy_sum(events)),
    decreases events.len(),
{
    if events.len() == 0 {
    } else {
        let p = pan_after(x, y, events[0]);
        lemma_pan_accumulates(p.0, p.1, events.drop_first());
    }
}

impl PanOffset {
    /// The offset a fresh application starts with.
    pub fn origin() -> (r: PanOffset)
        ensures
            r.x == 0,
            r.y == 0,
    {
        PanOffset { x: 0, y: 0 }
    }

    /// Applies one frame's pointer input to the offset.
    pub fn step(self, e: PanEvent) -> (r: PanOffset)
        requires
            e.middle_down ==> i64::MIN <= self.x + e.dx <= i64::MAX,
            e.middle_down ==> i64::MIN <= self.y + e.dy <= i64::MAX,
        ensures
            (r.x as int, r.y as int) == pan_after(self.x as int, self.y as int, e),
    {
        if e.middle_down {
            PanOffset { x: self.x + e.dx, y: self.y + e.dy }
        } else {
            self
        }
    }
}

} // verus!
