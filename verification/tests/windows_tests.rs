use std::collections::HashMap;

use gulp::geometry::Rect;
use gulp::windows::{
    collect_active_workspaces, BackendError, HyprlandWindow, NullBackend, WindowBackend,
    WindowInfo, WindowManager, WorkspaceInfo,
};

fn window(rect: Rect, monitor_id: i32, workspace_id: i32) -> WindowInfo {
    WindowInfo { rect, monitor_id, workspace_id, mapped: true, hidden: false, fullscreen: false }
}

fn manager_with(windows: Vec<WindowInfo>, active: &[(i32, i32)]) -> WindowManager<NullBackend> {
    let mut wm = WindowManager::new(NullBackend).expect("null backend never fails");
    let mut workspaces = HashMap::new();
    for (monitor, workspace) in active {
        workspaces.insert(*monitor, *workspace);
    }
    wm.install_snapshot(windows, workspaces);
    wm
}

#[test]
fn test_install_snapshot_replaces_both_caches() {
    let mut wm = manager_with(vec![window(Rect::new(0, 0, 10, 10), 0, 1)], &[(0, 1), (1, 2)]);
    assert_eq!(wm.windows.len(), 1);
    assert_eq!(wm.active_workspaces.len(), 2);

    // A new snapshot replaces both caches wholesale.
    let mut workspaces = HashMap::new();
    workspaces.insert(5, 7);
    wm.install_snapshot(Vec::new(), workspaces);
    assert!(wm.windows.is_empty());
    assert_eq!(wm.active_workspaces.get(&5), Some(&7));
    assert_eq!(wm.active_workspaces.len(), 1);
}

#[test]
fn test_is_snappable_rules() {
    let mut w = window(Rect::new(0, 0, 10, 10), 0, 1);
    assert!(w.is_snappable());
    // Fullscreen windows are still eligible.
    w.fullscreen = true;
    assert!(w.is_snappable());
    w.hidden = true;
    assert!(!w.is_snappable());
    w.hidden = false;
    w.mapped = false;
    assert!(!w.is_snappable());
}

#[test]
fn test_find_window_at_point() {
    let a = window(Rect::new(0, 0, 100, 100), 0, 1);
    let b = window(Rect::new(50, 50, 100, 100), 0, 1);
    let wm = manager_with(vec![a, b], &[(0, 1)]);

    // Containment is half-open: the far edges are outside.
    assert!(wm.find_window_at_point(0, 0).is_some());
    assert!(wm.find_window_at_point(100, 100).is_some());
    assert!(wm.find_window_at_point(150, 150).is_none());

    // Overlap resolves to the first window in cache order.
    let hit = wm.find_window_at_point(60, 60).expect("inside both");
    assert_eq!(hit.rect, a.rect);
}

#[test]
fn test_find_window_at_point_respects_workspaces() {
    // The window sits on workspace 2 but workspace 1 is active there.
    let w = window(Rect::new(0, 0, 100, 100), 0, 2);
    let wm = manager_with(vec![w], &[(0, 1)]);
    assert!(wm.find_window_at_point(10, 10).is_none());

    // No workspace data at all for the monitor: nothing is snappable.
    let w2 = window(Rect::new(0, 0, 100, 100), 3, 1);
    let wm2 = manager_with(vec![w2], &[]);
    assert!(wm2.find_window_at_point(10, 10).is_none());
}

#[test]
fn test_find_nearest_window_distance() {
    // Window at {x:100, y:100, w:200, h:150}, monitor 0, workspace 1 active.
    // The cursor at (310, 170) is 10 units right of the window's edge.
    let w = window(Rect::new(100, 100, 200, 150), 0, 1);
    let wm = manager_with(vec![w], &[(0, 1)]);

    let hit = wm.find_nearest_window(310, 170, 50).expect("within threshold");
    assert_eq!(hit.rect, Rect::new(100, 100, 200, 150));

    // The distance is exactly 10: a threshold of 10 still reaches it,
    // a threshold of 9 does not.
    assert!(wm.find_nearest_window(310, 170, 10).is_some());
    assert!(wm.find_nearest_window(310, 170, 9).is_none());
}

#[test]
fn test_find_nearest_window_diagonal_distance() {
    // 30 right of and 40 below the corner: Euclidean distance 50.
    let w = window(Rect::new(0, 0, 100, 100), 0, 1);
    let wm = manager_with(vec![w], &[(0, 1)]);
    assert!(wm.find_nearest_window(130, 140, 50).is_some());
    assert!(wm.find_nearest_window(130, 140, 49).is_none());
}

#[test]
fn test_find_nearest_window_prefers_containing() {
    // The point is inside `inner` even though `other` is very close by.
    let inner = window(Rect::new(0, 0, 100, 100), 0, 1);
    let other = window(Rect::new(95, -5, 20, 4), 0, 1);
    let wm = manager_with(vec![other, inner], &[(0, 1)]);

    let hit = wm.find_nearest_window(96, 0, 50).expect("inside a window");
    assert_eq!(hit.rect, inner.rect);
}

#[test]
fn test_find_nearest_window_nearest_wins_first_on_tie() {
    let far = window(Rect::new(200, 0, 50, 50), 0, 1);
    let near = window(Rect::new(60, 0, 50, 50), 0, 1);
    let wm = manager_with(vec![far, near], &[(0, 1)]);

    // The point (50, 25) is 10 units left of `near` and 150 of `far`.
    let hit = wm.find_nearest_window(50, 25, 50).expect("near window in range");
    assert_eq!(hit.rect, near.rect);

    // Two windows at the same distance: the first in cache order wins.
    let left = window(Rect::new(0, 0, 40, 50), 0, 1);
    let right = window(Rect::new(60, 0, 40, 50), 0, 1);
    let wm2 = manager_with(vec![left, right], &[(0, 1)]);
    let hit2 = wm2.find_nearest_window(50, 25, 50).expect("both in range");
    assert_eq!(hit2.rect, left.rect);
}

#[test]
fn test_find_nearest_window_none_when_all_far() {
    let w = window(Rect::new(100, 100, 10, 10), 0, 1);
    let wm = manager_with(vec![w], &[(0, 1)]);
    assert!(wm.find_nearest_window(0, 0, 50).is_none());
}

struct FailingBackend;

impl WindowBackend for FailingBackend {
    fn fetch_windows(&mut self) -> Result<Vec<WindowInfo>, BackendError> {
        Err(BackendError::QueryFailed)
    }

    fn get_cursor_position(&self) -> Result<(i32, i32), BackendError> {
        Err(BackendError::Unavailable)
    }

    fn get_active_workspaces(&self) -> HashMap<i32, i32> {
        HashMap::new()
    }

    fn is_available() -> bool {
        false
    }
}

#[test]
fn test_refresh_failure_keeps_caches() {
    let mut wm = WindowManager::new(NullBackend).expect("null backend never fails");
    wm.windows = vec![window(Rect::new(0, 0, 10, 10), 0, 1)];
    wm.active_workspaces.insert(0, 1);

    // Swap in a failing backend: refresh must propagate the error and
    // leave the previous snapshot untouched.
    let mut failing = WindowManager {
        backend: FailingBackend,
        windows: wm.windows.clone(),
        active_workspaces: wm.active_workspaces.clone(),
    };
    assert_eq!(failing.refresh(), Err(BackendError::QueryFailed));
    assert_eq!(failing.windows.len(), 1);
    assert_eq!(failing.active_workspaces.get(&0), Some(&1));
    assert_eq!(failing.get_cursor_position(), Err(BackendError::Unavailable));
}

#[test]
fn test_window_manager_new_failure() {
    assert!(WindowManager::new(FailingBackend).is_err());
}

#[test]
fn test_null_backend_reports_nothing() {
    assert!(NullBackend::is_available());
    let wm = WindowManager::new(NullBackend).expect("null backend never fails");
    assert!(wm.windows.is_empty());
    assert!(wm.active_workspaces.is_empty());
    assert_eq!(wm.get_cursor_position(), Ok((0, 0)));
    assert!(wm.find_nearest_window(0, 0, 50).is_none());
}

#[test]
fn test_hyprland_window_conversions() {
    let hw = HyprlandWindow {
        at: [100, 200],
        size: [300, 400],
        workspace: WorkspaceInfo { id: 7, name: String::from("web") },
        monitor: 2,
        mapped: true,
        hidden: false,
        fullscreen: 1,
    };
    assert_eq!(hw.to_rect(), Rect::new(100, 200, 300, 400));
    // Fullscreen windows stay eligible for snapping.
    assert!(hw.is_snappable());
    // The backend-agnostic cache representation keeps them too.
    let info = hw.to_window_info();
    assert_eq!(info.rect, Rect::new(100, 200, 300, 400));
    assert_eq!(info.monitor_id, 2);
    assert_eq!(info.workspace_id, 7);
    assert!(info.fullscreen);
    assert!(info.is_snappable());
}

#[test]
fn test_collect_active_workspaces() {
    let monitors = vec![(0, 1), (1, 4), (0, 3)];
    let map = collect_active_workspaces(&monitors);
    // The later entry for monitor 0 overrides the earlier one.
    assert_eq!(map.get(&0), Some(&3));
    assert_eq!(map.get(&1), Some(&4));
    assert_eq!(map.len(), 2);
}
