//! The drag/hover selection state machine.

use vstd::prelude::*;

use crate::geometry::{spec_from_points, Rect};

verus! {

/// Lifecycle phase of a selection session.
#[derive(Debug, Clone, Copy, PartialEq, Eq, Structural)]
pub enum SelectionMode {
    /// Hovering, not selecting.
    Hover,
    /// Actively dragging to create a selection.
    Selecting,
    /// Selection complete.
    Complete,
}

/// Session-wide selection state.
///
/// The rectangle and the snap targets are stored in global coordinates;
/// per-output localized copies are built transiently by the scheduler.
#[derive(Debug)]
pub struct Selection {
    pub mode: SelectionMode,
    /// Current hover position (for highlighting).
    pub hover_pos: (i32, i32),
    /// Selection rectangle (if any); may have zero area mid-drag.
    pub rect: Option<Rect>,
    /// Snap target window rectangle (when hovering over a window).
    pub snap_target: Option<Rect>,
    /// Animated snap target rectangle (for smooth transitions).
    pub animated_snap_target: Option<Rect>,
}

/// The freshly created state: hovering, with no rectangle and no targets.
pub open spec fn spec_new_selection() -> Selection {
    Selection {
        mode: SelectionMode::Hover,
        hover_pos: (0, 0),
        rect: None,
        snap_target: None,
        animated_snap_target: None,
    }
}

/// What `start_selection` does: enter `Selecting` and seed a zero-area
/// rectangle at the click point.
pub open spec fn spec_start_selection(s: Selection, x: i32, y: i32) -> Selection {
    Selection {
        mode: SelectionMode::Selecting,
        hover_pos: (x, y),
        rect: Some(Rect { x, y, width: 0, height: 0 }),
        ..s
    }
}

/// What `update_drag` does: while `Selecting`, recompute the rectangle
/// from the two corner points; in any other mode, change nothing.
pub open spec fn spec_update_drag(
    s: Selection,
    start_x: i32,
    start_y: i32,
    current_x: i32,
    current_y: i32,
) -> Selection {
    if s.mode == SelectionMode::Selecting {
        Selection { rect: Some(spec_from_points(start_x, start_y, current_x, current_y)), ..s }
    } else {
        s
    }
}

/// What `get_selection` surfaces: the rectangle only once it has
/// non-zero area.
pub open spec fn spec_get_selection(s: Selection) -> Option<Rect> {
    match s.rect {
        Some(r) => if r.spec_is_valid() {
            Some(r)
        } else {
            None
        },
        None => None,
    }
}

/// The snap rectangle a renderer should show: the animated one when an
/// animation is running, else the raw detected one.
pub open spec fn spec_current_snap_target(s: Selection) -> Option<Rect> {
    if s.animated_snap_target is Some {
        s.animated_snap_target
    } else {
        s.snap_target
    }
}

/// The selection a single rectangle denotes: what starting at the
/// rectangle's origin and dragging to its far corner produces.
pub open spec fn spec_selection_from_rect(rect: Rect) -> Selection {
    spec_update_drag(
        spec_start_selection(spec_new_selection(), rect.x, rect.y),
        rect.x,
        rect.y,
        (rect.x + rect.width) as i32,
        (rect.y + rect.height) as i32,
    )
}

impl Clone for Selection {
    fn clone(&self) -> (res: Self)
        ensures
            res == *self,
    {
        Selection {
            mode: self.mode,
            hover_pos: self.hover_pos,
            rect: self.rect,
            snap_target: self.snap_target,
            animated_snap_target: self.animated_snap_target,
        }
    }
}

impl Selection {
    pub fn new() -> (s: Selection)
        ensures
            s == spec_new_selection(),
    {
        Selection {
            mode: SelectionMode::Hover,
            hover_pos: (0, 0),
            rect: None,
            snap_target: None,
            animated_snap_target: None,
        }
    }

    pub fn start_selection(&mut self, x: i32, y: i32)
        ensures
            *final(self) == spec_start_selection(*old(self), x, y),
    {
        self.mode = SelectionMode::Selecting;
        self.hover_pos = (x, y);
        self.rect = Some(Rect::new(x, y, 0, 0));
    }

    pub fn update_drag(&mut self, start_x: i32, start_y: i32, current_x: i32, current_y: i32)
        requires
            start_x - current_x <= i32::MAX,
            current_x - start_x <= i32::MAX,
            start_y - current_y <= i32::MAX,
            current_y - start_y <= i32::MAX,
        ensures
            *final(self) == spec_update_drag(*old(self), start_x, start_y, current_x, current_y),
    {
        if self.mode == SelectionMode::Selecting {
            let rect = Rect::from_points(start_x, start_y, current_x, current_y);
            self.rect = Some(rect);
        }
    }

    /// Create a selection from a rect.
    pub fn from_rect(rect: Rect) -> (s: Selection)
        requires
            i32::MIN <= rect.x + rect.width <= i32::MAX,
            i32::MIN <= rect.y + rect.height <= i32::MAX,
            rect.width > i32::MIN,
            rect.height > i32::MIN,
        ensures
            s == spec_selection_from_rect(rect),
    {
        let mut selection = Self::new();
        selection.start_selection(rect.x, rect.y);
        selection.update_drag(rect.x, rect.y, rect.x + rect.width, rect.y + rect.height);
        selection
    }

    /// Returns the selection rectangle if it has non-zero area.
    pub fn get_selection(&self) -> (r: Option<Rect>)
        ensures
            r == spec_get_selection(*self),
    {
        match self.rect {
            Some(rect) => if rect.is_valid() {
                Some(rect)
            } else {
                None
            },
            None => None,
        }
    }

    /// Returns the current rectangle (may be zero-sized during dragging).
    pub fn get_rect(&self) -> (r: Option<Rect>)
        ensures
            r == self.rect,
    {
        self.rect
    }

    pub fn set_snap_target(&mut self, target: Option<Rect>)
        ensures
            *final(self) == (Selection { snap_target: target, ..*old(self) }),
    {
        self.snap_target = target;
    }

    pub fn get_snap_target(&self) -> (r: Option<Rect>)
        ensures
            r == self.snap_target,
    {
        self.snap_target
    }

    pub fn set_animated_snap_target(&mut self, target: Option<Rect>)
        ensures
            *final(self) == (Selection { animated_snap_target: target, ..*old(self) }),
    {
        self.animated_snap_target = target;
    }

    pub fn get_animated_snap_target(&self) -> (r: Option<Rect>)
        ensures
            r == self.animated_snap_target,
    {
        self.animated_snap_target
    }

    /// Returns the snap rectangle to display: the animated one when
    /// present, else the raw one.
    pub fn get_current_snap_target(&self) -> (r: Option<Rect>)
        ensures
            r == spec_current_snap_target(*self),
    {
        match self.animated_snap_target {
            Some(rect) => Some(rect),
            None => self.snap_target,
        }
    }
}

/// After starting a drag at one point and dragging to another, a
/// selection is surfaced exactly when the two points differ on both
/// axes: a zero-width or zero-height rectangle is never reported.  When
/// one is surfaced, it is precisely the normalized rectangle of the two
/// corner points, with both sides positive.
pub proof fn lemma_zero_area_drag_hidden(s: Selection, x0: i32, y0: i32, x1: i32, y1: i32)
    requires
        x0 - x1 <= i32::MAX,
        x1 - x0 <= i32::MAX,
        y0 - y1 <= i32::MAX,
        y1 - y0 <= i32::MAX,
    ensures
        ({
            let dragged = spec_update_drag(spec_start_selection(s, x0, y0), x0, y0, x1, y1);
            &&& spec_get_selection(dragged) is Some <==> (x0 != x1 && y0 != y1)
            &&& (x0 != x1 && y0 != y1) ==> spec_get_selection(dragged) == Some(
                spec_from_points(x0, y0, x1, y1),
            ) && spec_from_points(x0, y0, x1, y1).spec_is_valid()
        }),
{
}

} // verus!
