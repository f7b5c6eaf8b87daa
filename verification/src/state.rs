//! The application's persistent CPU-side state.
//!
//! After construction the application has exactly one steady operating
//! state, re-entered identically every frame: a greeting label and the
//! accumulated pan offset. The GPU handles the application also holds are
//! opaque to this state; every decision made from the state lives here.

use vstd::prelude::*;
use crate::frame::{frame_commands, spec_frame_commands, RenderCmd};
use crate::pan::{pan_after, PanEvent, PanOffset};

verus! {

/// The mutable CPU-side state of the application.
pub struct AppCore {
    /// The example greeting shown by the UI scaffold.
    pub label: String,
    /// The accumulated pan offset, updated while the middle button is held.
    pub pan: PanOffset,
}

impl AppCore {
    /// A fresh application state: greeting set, pan offset at the origin.
    pub fn new() -> (c: AppCore)
        ensures
            c.label@ == "Hello World!"@,
            c.pan.x == 0,
            c.pan.y == 0,
    {
        AppCore { label: String::from_str("Hello World!"), pan: PanOffset::origin() }
    }

    /// Applies one frame's pointer input: the pan offset moves by the delta
    /// while the middle button is held and is unchanged while it is
    /// released; nothing else of the state changes.
    pub fn handle_pointer(&mut self, e: PanEvent)
        requires
            e.middle_down ==> i64::MIN <= old(self).pan.x + e.dx <= i64::MAX,
            e.middle_down ==> i64::MIN <= old(self).pan.y + e.dy <= i64::MAX,
        ensures
            (final(self).pan.x as int, final(self).pan.y as int) == pan_after(
                old(self).pan.x as int,
                old(self).pan.y as int,
                e,
            ),
            final(self).label == old(self).label,
    {
        self.pan = self.pan.step(e);
    }

    /// The GPU command sequence this state submits for the next frame: a
    /// function of the pan offset alone.
    pub fn render_commands(&self) -> (r: Vec<RenderCmd>)
        ensures
            r@ == spec_frame_commands(self.pan),
    {
        frame_commands(&self.pan)
    }
}

} // verus!
