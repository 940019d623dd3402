use gulp::geometry::Rect;
use gulp::scheduler::{
    find_intersecting_output, fps_to_duration, frame_time_for_output, local_selection_view,
    redraw_all, translate_rect_to_local, OutputSurface,
};
use gulp::selection::Selection;

fn output(x: i32, y: i32, width: u32, height: u32) -> OutputSurface {
    let mut o = OutputSurface::new(x, y, width, height, 16_666, 0);
    o.configured = true;
    o
}

#[test]
fn test_fps_to_duration() {
    assert_eq!(fps_to_duration(60), 16_666);
    assert_eq!(fps_to_duration(120), 8_333);
    assert_eq!(fps_to_duration(1), 1_000_000);
    // A rate of zero is clamped to one frame per second.
    assert_eq!(fps_to_duration(0), 1_000_000);
}

#[test]
fn test_frame_time_for_output() {
    // A nonzero override wins over the detected refresh rate.
    assert_eq!(frame_time_for_output(30, Some(144_000)), 33_333);
    // Without an override the output's own refresh rate decides.
    assert_eq!(frame_time_for_output(0, Some(144_000)), 6_944);
    // Undetectable refresh rates fall back to 60 Hz.
    assert_eq!(frame_time_for_output(0, None), 16_666);
}

#[test]
fn test_redraw_all_throttles_per_output() {
    let mut outputs = vec![output(0, 0, 1920, 1080), output(1920, 0, 1920, 1080)];
    outputs[1].frame_time = 40_000;

    // First pass at t=20000: only the 16.6ms output is due.
    let due = redraw_all(&mut outputs, 20_000);
    assert_eq!(due, vec![0]);
    assert_eq!(outputs[0].last_render, 20_000);
    assert_eq!(outputs[1].last_render, 0);

    // A second pass less than one interval after each repaint
    // repaints nothing at all.
    let due = redraw_all(&mut outputs, 30_000);
    assert!(due.is_empty());
    assert_eq!(outputs[0].last_render, 20_000);

    // One interval later the fast output repaints; the slow one
    // is still waiting.
    let due = redraw_all(&mut outputs, 37_000);
    assert_eq!(due, vec![0]);
    assert_eq!(outputs[1].last_render, 0);

    // Eventually both intervals have elapsed.
    let due = redraw_all(&mut outputs, 78_000);
    assert_eq!(due, vec![0, 1]);
    assert_eq!(outputs[1].last_render, 78_000);
}

#[test]
fn test_redraw_all_skips_unconfigured() {
    let mut o = output(0, 0, 100, 100);
    o.configured = false;
    let mut outputs = vec![o];
    let due = redraw_all(&mut outputs, 1_000_000);
    assert!(due.is_empty());
    assert_eq!(outputs[0].last_render, 0);
}

#[test]
fn test_translate_rect_to_local() {
    let r = translate_rect_to_local(Rect::new(2000, 500, 300, 200), 1920, 0);
    assert_eq!(r, Rect::new(80, 500, 300, 200));
}

#[test]
fn test_local_selection_view_translates_selection() {
    // A drag on the second monitor, translated into its local space.
    let mut sel = Selection::new();
    sel.start_selection(2000, 100);
    sel.update_drag(2000, 100, 2100, 200);
    let out = output(1920, 0, 1920, 1080);

    let view = local_selection_view(&sel, &out);
    let rect = view.get_selection().expect("selection lies on this output");
    assert_eq!(rect, Rect::new(80, 100, 100, 100));
}

#[test]
fn test_local_selection_view_keeps_whole_rect_across_outputs() {
    // A selection spanning the boundary is translated whole, not clipped.
    let mut sel = Selection::new();
    sel.start_selection(1900, 0);
    sel.update_drag(1900, 0, 2000, 50);
    let right = output(1920, 0, 1920, 1080);

    let view = local_selection_view(&sel, &right);
    let rect = view.get_selection().expect("selection reaches this output");
    assert_eq!(rect, Rect::new(-20, 0, 100, 50));
}

#[test]
fn test_local_selection_view_snap_preview() {
    // No selection rectangle: a snap target is previewed instead.
    let mut sel = Selection::new();
    sel.set_snap_target(Some(Rect::new(100, 100, 50, 50)));
    let out = output(0, 0, 1920, 1080);

    let view = local_selection_view(&sel, &out);
    assert!(view.get_rect().is_none());
    assert_eq!(view.get_animated_snap_target(), Some(Rect::new(100, 100, 50, 50)));

    // An animated rectangle takes precedence over the raw target.
    sel.set_animated_snap_target(Some(Rect::new(110, 100, 50, 50)));
    let view = local_selection_view(&sel, &out);
    assert_eq!(view.get_animated_snap_target(), Some(Rect::new(110, 100, 50, 50)));
}

#[test]
fn test_local_selection_view_empty() {
    let sel = Selection::new();
    let out = output(0, 0, 100, 100);
    let view = local_selection_view(&sel, &out);
    assert!(view.get_rect().is_none());
    assert!(view.get_current_snap_target().is_none());
}

#[test]
fn test_find_intersecting_output() {
    let outputs = vec![output(0, 0, 1920, 1080), output(1920, 0, 1920, 1080)];
    let rect = Rect::new(2000, 10, 50, 50);
    assert_eq!(find_intersecting_output(&outputs, &rect), Some(1));

    let spanning = Rect::new(1900, 10, 50, 50);
    assert_eq!(find_intersecting_output(&outputs, &spanning), Some(0));

    let outside = Rect::new(5000, 5000, 10, 10);
    assert_eq!(find_intersecting_output(&outputs, &outside), None);
}
