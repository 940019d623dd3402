//! Multi-output redraw scheduling.
//!
//! Every monitor carries its own frame interval and last-render timestamp;
//! a redraw pass repaints exactly the configured outputs whose interval
//! has elapsed.  The module also builds the per-output localized view of
//! the session-wide selection that a renderer consumes.

use vstd::prelude::*;

use crate::geometry::{spec_intersects, Rect};
use crate::selection::{
    spec_current_snap_target, spec_new_selection, spec_selection_from_rect, Selection,
};

verus! {

/// The scheduling state of a single monitor's overlay surface: geometry
/// in the shared global coordinate space, whether the compositor has
/// acknowledged the surface, and repaint timing.  Timestamps and
/// intervals are in microseconds.
#[derive(Debug, Clone, Copy)]
pub struct OutputSurface {
    pub x: i32,
    pub y: i32,
    pub width: u32,
    pub height: u32,
    pub configured: bool,
    /// Timestamp of the last repaint.
    pub last_render: u64,
    /// Minimum interval between repaints, from the configured or detected
    /// frame rate.
    pub frame_time: u64,
}

impl OutputSurface {
    /// A freshly enumerated output: not yet configured, with the render
    /// clock starting at `now`.
    pub fn new(x: i32, y: i32, width: u32, height: u32, frame_time: u64, now: u64) -> (o:
        OutputSurface)
        ensures
            o == (OutputSurface {
                x,
                y,
                width,
                height,
                configured: false,
                last_render: now,
                frame_time,
            }),
    {
        OutputSurface { x, y, width, height, configured: false, last_render: now, frame_time }
    }

    /// The output's own rectangle in global coordinates.
    pub open spec fn spec_rect(self) -> Rect {
        Rect { x: self.x, y: self.y, width: self.width as i32, height: self.height as i32 }
    }
}

/// Time elapsed from `last` to `now`, never negative.
pub open spec fn spec_elapsed(last: u64, now: u64) -> int {
    if now >= last {
        now - last
    } else {
        0
    }
}

/// An output is repainted by a pass at `now` exactly when it is
/// configured and at least one frame interval has elapsed since its last
/// repaint.
pub open spec fn spec_due(o: OutputSurface, now: u64) -> bool {
    o.configured && spec_elapsed(o.last_render, now) >= o.frame_time
}

/// The frame interval for a given frame rate: one second divided by the
/// rate, with a rate of zero treated as one frame per second.
pub open spec fn spec_fps_to_duration(fps: u32) -> int {
    1_000_000int / (if fps == 0 {
        1int
    } else {
        fps as int
    })
}

/// Converts FPS to a frame duration in microseconds.
pub fn fps_to_duration(fps: u32) -> (d: u64)
    ensures
        d == spec_fps_to_duration(fps),
{
    let f: u64 = if fps == 0 {
        1
    } else {
        fps as u64
    };
    1_000_000 / f
}

/// The frame interval an output runs at: a nonzero global override wins;
/// otherwise the interval follows the output's own detected refresh rate
/// in millihertz, with 60 Hz assumed when none was detected.
pub open spec fn spec_frame_time_for_output(fps_override: u32, refresh_mhz: Option<i32>) -> int {
    if fps_override > 0 {
        spec_fps_to_duration(fps_override)
    } else {
        let refresh = match refresh_mhz {
            Some(r) => r as int,
            None => 60_000int,
        };
        spec_fps_to_duration((refresh / 1000) as u32)
    }
}

/// Compute one output's frame interval, in microseconds, from the global
/// FPS override and the refresh rate the compositor reported for it.
pub fn frame_time_for_output(fps_override: u32, refresh_mhz: Option<i32>) -> (d: u64)
    requires
        refresh_mhz matches Some(r) ==> r >= 0,
    ensures
        d == spec_frame_time_for_output(fps_override, refresh_mhz),
{
    if fps_override > 0 {
        fps_to_duration(fps_override)
    } else {
        let refresh: i32 = match refresh_mhz {
            Some(r) => r,
            None => 60_000,
        };
        fps_to_duration((refresh / 1000) as u32)
    }
}

/// The indices, in increasing order, of the outputs among the first
/// `upto` that a pass at `now` repaints.
pub open spec fn spec_due_indices(outputs: Seq<OutputSurface>, now: u64, upto: int) -> Seq<usize>
    decreases upto,
{
    if upto <= 0 {
        Seq::empty()
    } else if spec_due(outputs[upto - 1], now) {
        spec_due_indices(outputs, now, upto - 1).push((upto - 1) as usize)
    } else {
        spec_due_indices(outputs, now, upto - 1)
    }
}

/// The due-index list names exactly the due outputs, each once, in
/// increasing order.
pub proof fn lemma_due_indices_props(outputs: Seq<OutputSurface>, now: u64, upto: int)
    requires
        0 <= upto <= outputs.len(),
        upto <= usize::MAX,
    ensures
        forall|k: int|
            0 <= k < spec_due_indices(outputs, now, upto).len() ==> (#[trigger] spec_due_indices(
                outputs,
                now,
                upto,
            )[k]) < upto && spec_due(outputs[spec_due_indices(outputs, now, upto)[k] as int], now),
        forall|j: int|
            0 <= j < upto && spec_due(outputs[j], now) ==> spec_due_indices(
                outputs,
                now,
                upto,
            ).contains(j as usize),
        forall|k1: int, k2: int|
            0 <= k1 < k2 < spec_due_indices(outputs, now, upto).len() ==> spec_due_indices(
                outputs,
                now,
                upto,
            )[k1] < spec_due_indices(outputs, now, upto)[k2],
    decreases upto,
{
    if upto > 0 {
        lemma_due_indices_props(outputs, now, upto - 1);
        let prev = spec_due_indices(outputs, now, upto - 1);
        let cur = spec_due_indices(outputs, now, upto);
        if spec_due(outputs[upto - 1], now) {
            assert(cur == prev.push((upto - 1) as usize));
            assert forall|j: int|
                0 <= j < upto && spec_due(outputs[j], now) implies cur.contains(j as usize) by {
                if j < upto - 1 {
                    let k = choose|k: int| 0 <= k < prev.len() && prev[k] == j as usize;
                    assert(cur[k] == j as usize);
                } else {
                    assert(cur[cur.len() - 1] == j as usize);
                }
            }
            assert forall|k: int|
                0 <= k < cur.len() implies cur[k] < upto && spec_due(
                outputs[cur[k] as int],
                now,
            ) by {
                assert(cur[k] == prev.push((upto - 1) as usize)[k]);
                if k < prev.len() {
                    assert(cur[k] == prev[k]);
                    assert(prev[k] < upto - 1 && spec_due(outputs[prev[k] as int], now));
                } else {
                    assert(cur[k] == (upto - 1) as usize);
                }
            }
            assert forall|k1: int, k2: int|
                0 <= k1 < k2 < cur.len() implies cur[k1] < cur[k2] by {
                assert(cur[k1] == prev.push((upto - 1) as usize)[k1]);
                assert(cur[k2] == prev.push((upto - 1) as usize)[k2]);
                if k2 < prev.len() {
                    assert(cur[k1] == prev[k1] && cur[k2] == prev[k2]);
                    assert(prev[k1] < prev[k2]);
                } else {
                    assert(cur[k2] == (upto - 1) as usize);
                    assert(cur[k1] == prev[k1]);
                    assert(prev[k1] < upto - 1);
                }
            }
        } else {
            assert forall|j: int|
                0 <= j < upto && spec_due(outputs[j], now) implies cur.contains(j as usize) by {
                let k = choose|k: int| 0 <= k < prev.len() && prev[k] == j as usize;
                assert(cur[k] == j as usize);
            }
            assert forall|k: int|
                0 <= k < cur.len() implies cur[k] < upto && spec_due(
                outputs[cur[k] as int],
                now,
            ) by {
                assert(cur[k] == prev[k]);
                assert(prev[k] < upto - 1 && spec_due(outputs[prev[k] as int], now));
            }
            assert forall|k1: int, k2: int|
                0 <= k1 < k2 < cur.len() implies cur[k1] < cur[k2] by {
                assert(cur[k1] == prev[k1] && cur[k2] == prev[k2]);
                assert(prev[k1] < prev[k2]);
            }
        }
    }
}

/// One redraw pass over every output, with independent per-monitor
/// throttling: each due output has its render clock reset to `now`, and
/// the indices of the due outputs come back in increasing order for the
/// caller to repaint.  Skipped outputs are left untouched; a skipped tick
/// is lost, not deferred.
pub fn redraw_all(outputs: &mut Vec<OutputSurface>, now: u64) -> (due: Vec<usize>)
    ensures
        final(outputs)@.len() == old(outputs)@.len(),
        forall|i: int|
            0 <= i < old(outputs)@.len() ==> final(outputs)@[i] == (if spec_due(
                old(outputs)@[i],
                now,
            ) {
                OutputSurface { last_render: now, ..old(outputs)@[i] }
            } else {
                old(outputs)@[i]
            }),
        due@ == spec_due_indices(old(outputs)@, now, old(outputs)@.len() as int),
        forall|k: int|
            0 <= k < due@.len() ==> (#[trigger] due@[k]) < old(outputs)@.len() && spec_due(
                old(outputs)@[due@[k] as int],
                now,
            ),
        forall|i: int|
            0 <= i < old(outputs)@.len() && spec_due(old(outputs)@[i], now) ==> due@.contains(
                i as usize,
            ),
        forall|k1: int, k2: int| 0 <= k1 < k2 < due@.len() ==> due@[k1] < due@[k2],
{
    let ghost orig = outputs@;
    let mut due: Vec<usize> = Vec::new();
    let n = outputs.len();
    let mut i: usize = 0;
    while i < n
        invariant
            i <= n,
            n == outputs@.len(),
            orig.len() == n,
            forall|j: int| i <= j < n ==> outputs@[j] == orig[j],
            forall|j: int|
                0 <= j < i ==> outputs@[j] == (if spec_due(orig[j], now) {
                    OutputSurface { last_render: now, ..orig[j] }
                } else {
                    orig[j]
                }),
            due@ == spec_due_indices(orig, now, i as int),
        decreases n - i,
    {
        let o = outputs[i];
        let elapsed: u64 = if now >= o.last_render {
            now - o.last_render
        } else {
            0
        };
        if o.configured && elapsed >= o.frame_time {
            let mut updated = o;
            updated.last_render = now;
            outputs.set(i, updated);
            due.push(i);
        }
        i = i + 1;
    }
    proof {
        lemma_due_indices_props(orig, now, n as int);
    }
    due
}

/// A repaint at `t1` throttles the next: any second pass that comes less
/// than one frame interval after it repaints nothing on that output.
pub proof fn lemma_second_pass_throttled(o: OutputSurface, t1: u64, t2: u64)
    requires
        t1 <= t2 < t1 + o.frame_time,
    ensures
        !spec_due((OutputSurface { last_render: t1, ..o }), t2),
{
}

/// What translating a rectangle into an output-local coordinate space
/// does: the origin moves by the output's offset, the size is unchanged.
pub open spec fn spec_translate_rect(rect: Rect, offset_x: int, offset_y: int) -> Rect {
    Rect {
        x: (rect.x - offset_x) as i32,
        y: (rect.y - offset_y) as i32,
        width: rect.width,
        height: rect.height,
    }
}

/// Translates global rectangle coordinates to local output coordinates.
pub fn translate_rect_to_local(rect: Rect, offset_x: i32, offset_y: i32) -> (r: Rect)
    requires
        i32::MIN <= rect.x - offset_x <= i32::MAX,
        i32::MIN <= rect.y - offset_y <= i32::MAX,
    ensures
        r == spec_translate_rect(rect, offset_x as int, offset_y as int),
{
    Rect::new(rect.x - offset_x, rect.y - offset_y, rect.width, rect.height)
}

/// Creates a local selection from a global rectangle by translating
/// coordinates.
pub fn create_local_selection(global_rect: Rect, offset_x: i32, offset_y: i32) -> (s: Selection)
    requires
        i32::MIN <= global_rect.x - offset_x <= i32::MAX,
        i32::MIN <= global_rect.y - offset_y <= i32::MAX,
        i32::MIN <= global_rect.x - offset_x + global_rect.width <= i32::MAX,
        i32::MIN <= global_rect.y - offset_y + global_rect.height <= i32::MAX,
        global_rect.width > i32::MIN,
        global_rect.height > i32::MIN,
    ensures
        s == spec_selection_from_rect(
            spec_translate_rect(global_rect, offset_x as int, offset_y as int),
        ),
{
    let local_rect = translate_rect_to_local(global_rect, offset_x, offset_y);
    Selection::from_rect(local_rect)
}

/// The localized selection view an output's renderer is handed: a
/// selection rectangle that intersects the output is translated whole
/// (not clipped) into local coordinates, for visual continuity across
/// monitors; otherwise a present snap target (animated preferred) is
/// shown as a local-only preview; otherwise the view is empty and only
/// the dim layer is drawn.
pub open spec fn spec_local_selection_view(s: Selection, o: OutputSurface) -> Selection {
    match s.rect {
        Some(rect) => if spec_intersects(rect, o.spec_rect()) {
            spec_selection_from_rect(spec_translate_rect(rect, o.x as int, o.y as int))
        } else {
            spec_snap_only_view(s, o)
        },
        None => spec_snap_only_view(s, o),
    }
}

/// The view used when no selection rectangle lies on this output: the
/// translated snap preview when one exists, else the empty view.
pub open spec fn spec_snap_only_view(s: Selection, o: OutputSurface) -> Selection {
    match spec_current_snap_target(s) {
        Some(snap) => Selection {
            animated_snap_target: Some(spec_translate_rect(snap, o.x as int, o.y as int)),
            ..spec_new_selection()
        },
        None => spec_new_selection(),
    }
}

/// Build the localized view of the session selection for one output.
pub fn local_selection_view(selection: &Selection, out: &OutputSurface) -> (v: Selection)
    requires
        out.width <= i32::MAX,
        out.height <= i32::MAX,
        selection.rect matches Some(rect) ==> {
            &&& i32::MIN <= rect.x - out.x <= i32::MAX
            &&& i32::MIN <= rect.y - out.y <= i32::MAX
            &&& i32::MIN <= rect.x - out.x + rect.width <= i32::MAX
            &&& i32::MIN <= rect.y - out.y + rect.height <= i32::MAX
            &&& rect.width > i32::MIN
            &&& rect.height > i32::MIN
        },
        spec_current_snap_target(*selection) matches Some(snap) ==> {
            &&& i32::MIN <= snap.x - out.x <= i32::MAX
            &&& i32::MIN <= snap.y - out.y <= i32::MAX
        },
    ensures
        v == spec_local_selection_view(*selection, *out),
{
    let output_rect = Rect::new(out.x, out.y, out.width as i32, out.height as i32);
    if let Some(rect) = selection.get_rect() {
        if rect.intersects(&output_rect) {
            return create_local_selection(rect, out.x, out.y);
        }
    }
    match selection.get_current_snap_target() {
        Some(snap) => {
            let local_snap = translate_rect_to_local(snap, out.x, out.y);
            let mut local_selection = Selection::new();
            local_selection.set_animated_snap_target(Some(local_snap));
            local_selection
        },
        None => Selection::new(),
    }
}

/// The first output whose rectangle the given one intersects, if any:
/// the output a finished selection is captured from.
pub fn find_intersecting_output(outputs: &Vec<OutputSurface>, rect: &Rect) -> (r: Option<usize>)
    requires
        forall|i: int|
            0 <= i < outputs@.len() ==> (#[trigger] outputs@[i]).width <= i32::MAX
                && outputs@[i].height <= i32::MAX,
    ensures
        match r {
            Some(idx) => idx < outputs@.len() && spec_intersects(
                *rect,
                outputs@[idx as int].spec_rect(),
            ) && forall|j: int|
                0 <= j < idx ==> !spec_intersects(*rect, (#[trigger] outputs@[j]).spec_rect()),
            None => forall|j: int|
                0 <= j < outputs@.len() ==> !spec_intersects(
                    *rect,
                    (#[trigger] outputs@[j]).spec_rect(),
                ),
        },
{
    let n = outputs.len();
    let mut i: usize = 0;
    while i < n
        invariant
            i <= n,
            n == outputs@.len(),
            forall|j: int|
                0 <= j < outputs@.len() ==> (#[trigger] outputs@[j]).width <= i32::MAX
                    && outputs@[j].height <= i32::MAX,
            forall|j: int|
                0 <= j < i ==> !spec_intersects(*rect, (#[trigger] outputs@[j]).spec_rect()),
        decreases n - i,
    {
        let o = outputs[i];
        let output_rect = Rect::new(o.x, o.y, o.width as i32, o.height as i32);
        if rect.intersects(&output_rect) {
            return Some(i);
        }
        i = i + 1;
    }
    None
}

} // verus!
