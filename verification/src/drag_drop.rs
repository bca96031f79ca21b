//! Dragging files out of a window.

use vstd::prelude::*;

verus! {

/// What a drag does next.
#[derive(Debug, Clone, Copy, PartialEq, Eq, Structural)]
pub enum DragVerdict {
    /// The drag goes on.
    Continue,
    /// The files are dropped where the pointer is.
    Drop,
    /// The drag ends without a drop.
    Cancel,
}

/// Decides whether a drag goes on: escape ends it; letting go of the left
/// button drops.
pub fn query_continue_drag(escape_pressed: bool, left_button_down: bool) -> (verdict: DragVerdict)
    ensures
        verdict == if escape_pressed {
            DragVerdict::Cancel
        } else if !left_button_down {
            DragVerdict::Drop
        } else {
            DragVerdict::Continue
        },
{
    if escape_pressed {
        return DragVerdict::Cancel;
    }
    if !left_button_down {
        return DragVerdict::Drop;
    }
    DragVerdict::Continue
}

} // verus!
