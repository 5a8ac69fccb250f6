//! What the widget keeps on disk between runs.

use vstd::prelude::*;
use crate::geometry::{Position, SavedPosition};

verus! {

/// The contents of the desktop-state file: the last place the user dragged
/// the compact strip to, if any.
#[derive(Clone, Copy, Debug, PartialEq, Eq, Structural)]
pub struct DesktopState {
    pub compact_position: Option<SavedPosition>,
}

impl Default for DesktopState {
    /// A state with no remembered compact position, used when the file is
    /// missing or cannot be read.
    fn default() -> (r: DesktopState)
        ensures
            r.compact_position is None,
    {
        DesktopState { compact_position: None }
    }
}

impl DesktopState {
    /// Records `position` as the compact strip's place, replacing any earlier
    /// one.
    pub fn save_compact_position(&mut self, position: Position)
        ensures
            final(self).compact_position == Some(SavedPosition { x: position.x, y: position.y }),
    {
        self.compact_position = Some(SavedPosition::from(position));
    }
}

} // verus!
