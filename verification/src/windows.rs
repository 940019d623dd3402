//! Compositor-agnostic window management for snap-to-window queries.
//!
//! A `WindowBackend` supplies the raw data: the window list, the cursor
//! position and the active workspace of each monitor.  The `WindowManager`
//! owns one backend, caches the last fetched snapshot, and answers
//! point-containment and nearest-window queries over that cache, restricted
//! to windows visible on their monitor's active workspace.

use vstd::prelude::*;

use std::collections::HashMap;

use crate::geometry::Rect;

verus! {

broadcast use vstd::std_specs::hash::group_hash_axioms;

/// Common window representation across all backends.
#[derive(Debug, Clone, Copy)]
pub struct WindowInfo {
    pub rect: Rect,
    pub monitor_id: i32,
    pub workspace_id: i32,
    pub mapped: bool,
    pub hidden: bool,
    pub fullscreen: bool,
}

impl WindowInfo {
    /// A window can be snapped to when it is mapped and not hidden;
    /// fullscreen windows are deliberately eligible.
    pub open spec fn spec_is_snappable(self) -> bool {
        self.mapped && !self.hidden
    }

    /// Checks if this window should be considered for snap targeting.
    pub fn is_snappable(&self) -> (r: bool)
        ensures
            r == self.spec_is_snappable(),
    {
        self.mapped && !self.hidden
    }
}

/// Why a backend query failed.
#[derive(Debug, Clone, Copy, PartialEq, Eq, Structural)]
pub enum BackendError {
    /// The compositor endpoint could not be reached.
    Unavailable,
    /// The compositor was reached but the query failed.
    QueryFailed,
    /// The compositor answered, but the answer could not be decoded.
    ParseFailed,
}

/// A source of window, cursor and workspace data, implemented once per
/// supported compositor.  No contract constrains the answers: they come
/// from outside the program, and everything proved about the queries on
/// the cache holds whatever a backend returns.
pub trait WindowBackend {
    /// Fetch all visible windows from the compositor.
    fn fetch_windows(&mut self) -> Result<Vec<WindowInfo>, BackendError>;

    /// Get the current cursor position.
    fn get_cursor_position(&self) -> Result<(i32, i32), BackendError>;

    /// Get the active workspace per monitor.
    fn get_active_workspaces(&self) -> HashMap<i32, i32>;

    /// Check if this backend is available (compositor detection).
    fn is_available() -> bool where Self: Sized;
}

/// Fallback backend used when no supported compositor is detected:
/// it reports no windows, so snapping is silently disabled.
pub struct NullBackend;

impl WindowBackend for NullBackend {
    fn fetch_windows(&mut self) -> (r: Result<Vec<WindowInfo>, BackendError>)
        ensures
            r matches Ok(w) && w@.len() == 0,
    {
        Ok(Vec::new())
    }

    fn get_cursor_position(&self) -> (r: Result<(i32, i32), BackendError>)
        ensures
            r matches Ok(p) && p == (0i32, 0i32),
    {
        Ok((0, 0))
    }

    fn get_active_workspaces(&self) -> (r: HashMap<i32, i32>)
        ensures
            r@ == Map::<i32, i32>::empty(),
    {
        HashMap::new()
    }

    fn is_available() -> (r: bool)
        ensures
            r,
    {
        true
    }
}

/// Distance from a coordinate to the interval `[lo, hi]`, along one axis.
pub open spec fn spec_axis_gap(v: int, lo: int, hi: int) -> int {
    if v < lo {
        lo - v
    } else if v > hi {
        v - hi
    } else {
        0
    }
}

/// Squared Euclidean distance from a point to the rectangle's boundary;
/// zero when the point lies inside.
pub open spec fn spec_dist_sq(x: int, y: int, r: Rect) -> int {
    let dx = spec_axis_gap(x, r.x as int, r.x + r.width);
    let dy = spec_axis_gap(y, r.y as int, r.y + r.height);
    dx * dx + dy * dy
}

/// The integer square root: the greatest `r` with `r * r <= n`
/// (and `0` for a non-positive argument).
pub open spec fn spec_floor_sqrt(n: int) -> int
    decreases n,
{
    if n <= 0 {
        0
    } else {
        let r = spec_floor_sqrt(n - 1);
        if (r + 1) * (r + 1) <= n {
            r + 1
        } else {
            r
        }
    }
}

pub proof fn lemma_floor_sqrt_bounds(n: int)
    requires
        n >= 0,
    ensures
        0 <= spec_floor_sqrt(n),
        spec_floor_sqrt(n) * spec_floor_sqrt(n) <= n,
        n < (spec_floor_sqrt(n) + 1) * (spec_floor_sqrt(n) + 1),
    decreases n,
{
    if n > 0 {
        lemma_floor_sqrt_bounds(n - 1);
        let r = spec_floor_sqrt(n - 1);
        if (r + 1) * (r + 1) <= n {
            assert(spec_floor_sqrt(n) == r + 1);
            assert(n <= (r + 1) * (r + 1));
            assert(n < (spec_floor_sqrt(n) + 1) * (spec_floor_sqrt(n) + 1)) by (nonlinear_arith)
                requires
                    0 <= r,
                    spec_floor_sqrt(n) == r + 1,
                    n <= (r + 1) * (r + 1),
            ;
        } else {
            assert(spec_floor_sqrt(n) == r);
        }
    }
}

pub proof fn lemma_floor_sqrt_unique(n: int, r: int)
    requires
        0 <= r,
        r * r <= n,
        n < (r + 1) * (r + 1),
    ensures
        r == spec_floor_sqrt(n),
{
    lemma_floor_sqrt_bounds(n);
    let s = spec_floor_sqrt(n);
    if r < s {
        assert((r + 1) * (r + 1) <= s * s) by (nonlinear_arith)
            requires
                0 <= r,
                r + 1 <= s,
        ;
    } else if s < r {
        assert((s + 1) * (s + 1) <= r * r) by (nonlinear_arith)
            requires
                0 <= s,
                s + 1 <= r,
        ;
    }
}

/// Integer square root by bisection.  Distances are truncated to whole
/// units, and truncating the exact square root of an integer gives
/// exactly this floor square root, so no real-valued arithmetic is
/// needed anywhere.
fn isqrt_u128(n: u128) -> (r: u128)
    ensures
        r == spec_floor_sqrt(n as int),
        r * r <= n < (r + 1) * (r + 1),
{
    let mut lo: u128 = 0;
    let mut hi: u128 = 0x1_0000_0000_0000_0000;
    proof {
        assert((hi as int) * (hi as int) > u128::MAX as int) by (nonlinear_arith)
            requires
                hi == 0x1_0000_0000_0000_0000u128,
        ;
    }
    while lo + 1 < hi
        invariant
            lo < hi <= 0x1_0000_0000_0000_0000u128,
            (lo as int) * (lo as int) <= n as int,
            (n as int) < (hi as int) * (hi as int),
        decreases hi - lo,
    {
        let mid = lo + (hi - lo) / 2;
        proof {
            assert((mid as int) * (mid as int) <= (0xffff_ffff_ffff_ffffu128 as int) * (
            0xffff_ffff_ffff_ffffu128 as int)) by (nonlinear_arith)
                requires
                    0 <= mid <= 0xffff_ffff_ffff_ffffu128,
            ;
        }
        if mid * mid <= n {
            lo = mid;
        } else {
            hi = mid;
        }
    }
    proof {
        lemma_floor_sqrt_unique(n as int, lo as int);
    }
    lo
}

/// Euclidean distance from a point to a window rectangle's boundary,
/// truncated to an integer; zero when the point lies inside.
pub open spec fn spec_distance_to_rect(x: int, y: int, r: Rect) -> int {
    spec_floor_sqrt(spec_dist_sq(x, y, r))
}

/// Calculate the distance from a point to a rectangle's edge.
fn distance_to_rect(x: i32, y: i32, rect: &Rect) -> (d: u64)
    ensures
        d == spec_distance_to_rect(x as int, y as int, *rect),
{
    let right: i64 = rect.x as i64 + rect.width as i64;
    let bottom: i64 = rect.y as i64 + rect.height as i64;
    let dx: i64 = if (x as i64) < rect.x as i64 {
        rect.x as i64 - x as i64
    } else if (x as i64) > right {
        x as i64 - right
    } else {
        0
    };
    let dy: i64 = if (y as i64) < rect.y as i64 {
        rect.y as i64 - y as i64
    } else if (y as i64) > bottom {
        y as i64 - bottom
    } else {
        0
    };
    proof {
        assert(0 <= dx < 0x2_0000_0000i64);
        assert(0 <= dy < 0x2_0000_0000i64);
        assert((dx as int) * (dx as int) + (dy as int) * (dy as int) < 0x8_0000_0000_0000_0000int)
            by (nonlinear_arith)
            requires
                0 <= (dx as int) && (dx as int) < 0x2_0000_0000,
                0 <= (dy as int) && (dy as int) < 0x2_0000_0000,
        ;
    }
    let n: u128 = (dx as u128) * (dx as u128) + (dy as u128) * (dy as u128);
    let r = isqrt_u128(n);
    proof {
        assert(r < 0x1_0000_0000_0000_0000) by (nonlinear_arith)
            requires
                (r as int) * (r as int) <= n as int,
                n as int <= u128::MAX as int,
                n < 0x1_0000_0000_0000_0000u128 * 0x1_0000_0000_0000_0000u128,
        ;
    }
    r as u64
}

/// A cached window sits on the active workspace of its monitor.
pub open spec fn spec_on_active_workspace(w: WindowInfo, ws: Map<i32, i32>) -> bool {
    ws.dom().contains(w.monitor_id) && ws[w.monitor_id] == w.workspace_id
}

/// A cached window is a snap candidate when it is snappable and sits on
/// the active workspace of its monitor.
pub open spec fn spec_snap_candidate(w: WindowInfo, ws: Map<i32, i32>) -> bool {
    w.spec_is_snappable() && spec_on_active_workspace(w, ws)
}

/// Half-open containment: the rectangle covers `[x, x+width) x [y, y+height)`.
pub open spec fn spec_contains_point(r: Rect, x: int, y: int) -> bool {
    r.x <= x < r.x + r.width && r.y <= y < r.y + r.height
}

/// The first snap candidate in cache order whose rectangle contains the
/// point, if any.
pub open spec fn spec_find_at_point(
    windows: Seq<WindowInfo>,
    ws: Map<i32, i32>,
    x: int,
    y: int,
) -> Option<WindowInfo>
    decreases windows.len(),
{
    if windows.len() == 0 {
        None
    } else if spec_snap_candidate(windows[0], ws) && spec_contains_point(windows[0].rect, x, y) {
        Some(windows[0])
    } else {
        spec_find_at_point(windows.drop_first(), ws, x, y)
    }
}

/// The snap candidate within `threshold` of the point that a left-to-right
/// scan keeps: a later window replaces the current best only when its
/// truncated distance is strictly smaller, so ties go to cache order.
pub open spec fn spec_nearest_scan(
    windows: Seq<WindowInfo>,
    ws: Map<i32, i32>,
    x: int,
    y: int,
    threshold: int,
) -> Option<WindowInfo>
    decreases windows.len(),
{
    if windows.len() == 0 {
        None
    } else {
        let prev = spec_nearest_scan(windows.drop_last(), ws, x, y, threshold);
        let w = windows.last();
        if spec_snap_candidate(w, ws) && spec_distance_to_rect(x, y, w.rect) <= threshold && (
        prev is None || spec_distance_to_rect(x, y, w.rect) < spec_distance_to_rect(
            x,
            y,
            prev.unwrap().rect,
        )) {
            Some(w)
        } else {
            prev
        }
    }
}

/// What `find_nearest_window` returns: a containing window always wins
/// (distance zero); otherwise the nearest candidate within the threshold.
pub open spec fn spec_find_nearest(
    windows: Seq<WindowInfo>,
    ws: Map<i32, i32>,
    x: int,
    y: int,
    threshold: int,
) -> Option<WindowInfo> {
    match spec_find_at_point(windows, ws, x, y) {
        Some(w) => Some(w),
        None => spec_nearest_scan(windows, ws, x, y, threshold),
    }
}

/// A workspace as the Hyprland compositor reports it.
#[derive(Debug, Clone)]
pub struct WorkspaceInfo {
    pub id: i32,
    pub name: String,
}

/// A window as the Hyprland compositor reports it: position and size as
/// coordinate pairs, plus workspace, monitor and visibility flags.
#[derive(Debug, Clone)]
pub struct HyprlandWindow {
    pub at: [i32; 2],
    pub size: [i32; 2],
    pub workspace: WorkspaceInfo,
    pub monitor: i32,
    pub mapped: bool,
    pub hidden: bool,
    pub fullscreen: i32,
}

impl HyprlandWindow {
    /// Convert to a Rect.
    pub fn to_rect(&self) -> (r: Rect)
        ensures
            r == (Rect {
                x: self.at[0],
                y: self.at[1],
                width: self.size[0],
                height: self.size[1],
            }),
    {
        Rect::new(self.at[0], self.at[1], self.size[0], self.size[1])
    }

    /// Check if this window should be considered for snapping: mapped
    /// and not hidden.  Fullscreen windows are deliberately eligible,
    /// exactly as in the backend-agnostic `WindowInfo` rule.
    pub fn is_snappable(&self) -> (r: bool)
        ensures
            r == (self.mapped && !self.hidden),
    {
        self.mapped && !self.hidden
    }

    /// The backend-agnostic view of this window, as the window list cache
    /// stores it.
    pub fn to_window_info(&self) -> (w: WindowInfo)
        ensures
            w == (WindowInfo {
                rect: Rect {
                    x: self.at[0],
                    y: self.at[1],
                    width: self.size[0],
                    height: self.size[1],
                },
                monitor_id: self.monitor,
                workspace_id: self.workspace.id,
                mapped: self.mapped,
                hidden: self.hidden,
                fullscreen: self.fullscreen != 0,
            }),
    {
        WindowInfo {
            rect: self.to_rect(),
            monitor_id: self.monitor,
            workspace_id: self.workspace.id,
            mapped: self.mapped,
            hidden: self.hidden,
            fullscreen: self.fullscreen != 0,
        }
    }
}

/// The monitor-to-workspace map that a sequence of (monitor, active
/// workspace) reports builds up: later entries for one monitor override
/// earlier ones.
pub open spec fn spec_workspace_map(entries: Seq<(i32, i32)>) -> Map<i32, i32>
    decreases entries.len(),
{
    if entries.len() == 0 {
        Map::empty()
    } else {
        spec_workspace_map(entries.drop_last()).insert(entries.last().0, entries.last().1)
    }
}

/// Build the monitor-to-active-workspace map from the per-monitor pairs a
/// compositor query reported.
pub fn collect_active_workspaces(monitors: &Vec<(i32, i32)>) -> (m: HashMap<i32, i32>)
    ensures
        m@ == spec_workspace_map(monitors@),
{
    let ghost entries = monitors@;
    let mut m: HashMap<i32, i32> = HashMap::new();
    let n = monitors.len();
    let mut i: usize = 0;
    proof {
        assert(entries.take(0) =~= Seq::<(i32, i32)>::empty());
    }
    while i < n
        invariant
            i <= n,
            n == monitors@.len(),
            entries == monitors@,
            m@ == spec_workspace_map(entries.take(i as int)),
        decreases n - i,
    {
        let (monitor_id, workspace_id) = monitors[i];
        m.insert(monitor_id, workspace_id);
        proof {
            assert(entries.take(i as int + 1).drop_last() =~= entries.take(i as int));
            assert(entries.take(i as int + 1).last() == entries[i as int]);
        }
        i = i + 1;
    }
    proof {
        assert(entries.take(n as int) =~= entries);
    }
    m
}

/// A point inside a rectangle is at distance zero from it.
pub proof fn lemma_contained_point_distance_zero(x: int, y: int, r: Rect)
    requires
        spec_contains_point(r, x, y),
    ensures
        spec_distance_to_rect(x, y, r) == 0,
{
    assert(spec_dist_sq(x, y, r) == 0);
}

proof fn lemma_find_at_point_finds(windows: Seq<WindowInfo>, ws: Map<i32, i32>, x: int, y: int)
    requires
        exists|i: int|
            0 <= i < windows.len() && spec_snap_candidate(#[trigger] windows[i], ws)
                && spec_contains_point(windows[i].rect, x, y),
    ensures
        spec_find_at_point(windows, ws, x, y) is Some,
        spec_contains_point(spec_find_at_point(windows, ws, x, y).unwrap().rect, x, y),
    decreases windows.len(),
{
    if spec_snap_candidate(windows[0], ws) && spec_contains_point(windows[0].rect, x, y) {
    } else {
        let i = choose|i: int|
            0 <= i < windows.len() && spec_snap_candidate(#[trigger] windows[i], ws)
                && spec_contains_point(windows[i].rect, x, y);
        assert(i != 0);
        assert(windows.drop_first()[i - 1] == windows[i]);
        lemma_find_at_point_finds(windows.drop_first(), ws, x, y);
    }
}

/// A point strictly inside some snap candidate is never reported as
/// empty: the nearest-window query returns a window whose rectangle
/// contains the point, in preference to any window that merely comes
/// within the threshold.
pub proof fn lemma_point_inside_returns_window(
    windows: Seq<WindowInfo>,
    ws: Map<i32, i32>,
    x: int,
    y: int,
    threshold: int,
)
    requires
        exists|i: int|
            0 <= i < windows.len() && spec_snap_candidate(#[trigger] windows[i], ws)
                && spec_contains_point(windows[i].rect, x, y),
    ensures
        spec_find_nearest(windows, ws, x, y, threshold) is Some,
        spec_contains_point(spec_find_nearest(windows, ws, x, y, threshold).unwrap().rect, x, y),
{
    lemma_find_at_point_finds(windows, ws, x, y);
}

proof fn lemma_far_at_point_none(
    windows: Seq<WindowInfo>,
    ws: Map<i32, i32>,
    x: int,
    y: int,
    threshold: int,
)
    requires
        threshold >= 0,
        forall|i: int|
            0 <= i < windows.len() ==> spec_snap_candidate(#[trigger] windows[i], ws)
                ==> spec_distance_to_rect(x, y, windows[i].rect) > threshold,
    ensures
        spec_find_at_point(windows, ws, x, y) is None,
    decreases windows.len(),
{
    if windows.len() > 0 {
        if spec_snap_candidate(windows[0], ws) && spec_contains_point(windows[0].rect, x, y) {
            lemma_contained_point_distance_zero(x, y, windows[0].rect);
        } else {
            assert forall|j: int|
                0 <= j < windows.drop_first().len() && spec_snap_candidate(
                    #[trigger] windows.drop_first()[j],
                    ws,
                ) implies spec_distance_to_rect(x, y, windows.drop_first()[j].rect)
                > threshold by {
                assert(windows.drop_first()[j] == windows[j + 1]);
            }
            lemma_far_at_point_none(windows.drop_first(), ws, x, y, threshold);
        }
    }
}

proof fn lemma_far_scan_none(
    windows: Seq<WindowInfo>,
    ws: Map<i32, i32>,
    x: int,
    y: int,
    threshold: int,
)
    requires
        forall|i: int|
            0 <= i < windows.len() ==> spec_snap_candidate(#[trigger] windows[i], ws)
                ==> spec_distance_to_rect(x, y, windows[i].rect) > threshold,
    ensures
        spec_nearest_scan(windows, ws, x, y, threshold) is None,
    decreases windows.len(),
{
    if windows.len() > 0 {
        assert forall|j: int|
            0 <= j < windows.drop_last().len() && spec_snap_candidate(
                #[trigger] windows.drop_last()[j],
                ws,
            ) implies spec_distance_to_rect(x, y, windows.drop_last()[j].rect) > threshold by {
            assert(windows.drop_last()[j] == windows[j]);
        }
        lemma_far_scan_none(windows.drop_last(), ws, x, y, threshold);
        assert(windows.last() == windows[windows.len() - 1]);
    }
}

/// When every snap candidate lies strictly farther than the
/// (non-negative) threshold from the point, the nearest-window query
/// reports nothing.
pub proof fn lemma_all_candidates_far_returns_none(
    windows: Seq<WindowInfo>,
    ws: Map<i32, i32>,
    x: int,
    y: int,
    threshold: int,
)
    requires
        threshold >= 0,
        forall|i: int|
            0 <= i < windows.len() ==> spec_snap_candidate(#[trigger] windows[i], ws)
                ==> spec_distance_to_rect(x, y, windows[i].rect) > threshold,
    ensures
        spec_find_nearest(windows, ws, x, y, threshold) is None,
{
    lemma_far_at_point_none(windows, ws, x, y, threshold);
    lemma_far_scan_none(windows, ws, x, y, threshold);
}

/// High-level interface over a backend: caches the last snapshot and
/// answers snap queries from it.
pub struct WindowManager<B: WindowBackend> {
    pub backend: B,
    pub windows: Vec<WindowInfo>,
    pub active_workspaces: HashMap<i32, i32>,
}

impl<B: WindowBackend> WindowManager<B> {
    /// Create a new `WindowManager` over the given backend and fetch the
    /// first snapshot from it, through one `refresh`.  Whether that
    /// refresh succeeds depends on the backend alone, whose answers have
    /// no contract, so no clause here can name what the returned
    /// manager's caches hold; the installation itself is the contracted
    /// `install_snapshot` step inside `refresh`.
    pub fn new(backend: B) -> (r: Result<WindowManager<B>, BackendError>) {
        let mut manager = WindowManager {
            backend,
            windows: Vec::new(),
            active_workspaces: HashMap::new(),
        };
        match manager.refresh() {
            Ok(()) => Ok(manager),
            Err(e) => Err(e),
        }
    }

    /// Install one complete fetched snapshot: both caches are replaced
    /// wholesale, so no partial update is ever visible to queries, and
    /// the backend is untouched.  This is the sole seam through which
    /// backend answers reach the cache the snap queries are proved over.
    pub fn install_snapshot(&mut self, windows: Vec<WindowInfo>, workspaces: HashMap<i32, i32>)
        ensures
            final(self).windows == windows,
            final(self).active_workspaces == workspaces,
            final(self).backend == old(self).backend,
    {
        self.windows = windows;
        self.active_workspaces = workspaces;
    }

    /// Refresh the caches from the backend.  A successful window fetch
    /// has the fetched snapshot installed through `install_snapshot`,
    /// whose contract pins the replacement; the backend's answers
    /// themselves have no contract, so nothing more can be promised of
    /// the success case here.  When the window fetch fails, the error
    /// propagates and the previous caches stay untouched.
    pub fn refresh(&mut self) -> (r: Result<(), BackendError>)
        ensures
            r is Err ==> final(self).windows == old(self).windows,
            r is Err ==> final(self).active_workspaces == old(self).active_workspaces,
    {
        match self.backend.fetch_windows() {
            Ok(windows) => {
                let workspaces = self.backend.get_active_workspaces();
                self.install_snapshot(windows, workspaces);
                Ok(())
            },
            Err(e) => Err(e),
        }
    }

    /// Get the current cursor position from the backend.
    pub fn get_cursor_position(&self) -> Result<(i32, i32), BackendError> {
        self.backend.get_cursor_position()
    }

    /// Checks whether a cached window is a snap candidate: snappable and
    /// on the active workspace of its monitor.
    fn is_snap_candidate(&self, w: &WindowInfo) -> (r: bool)
        ensures
            r == spec_snap_candidate(*w, self.active_workspaces@),
    {
        if !w.is_snappable() {
            return false;
        }
        match self.active_workspaces.get(&w.monitor_id) {
            Some(ws_id) => *ws_id == w.workspace_id,
            None => false,
        }
    }

    /// Find the window at a specific point (x, y) on the active workspace
    /// of its monitor.
    pub fn find_window_at_point(&self, x: i32, y: i32) -> (r: Option<&WindowInfo>)
        ensures
            match r {
                Some(w) => spec_find_at_point(
                    self.windows@,
                    self.active_workspaces@,
                    x as int,
                    y as int,
                ) == Some(*w),
                None => spec_find_at_point(
                    self.windows@,
                    self.active_workspaces@,
                    x as int,
                    y as int,
                ) is None,
            },
    {
        let ghost full = self.windows@;
        let ghost ws = self.active_workspaces@;
        let n = self.windows.len();
        let mut i: usize = 0;
        proof {
            assert(full.skip(0) =~= full);
        }
        while i < n
            invariant
                i <= n,
                n == self.windows@.len(),
                full == self.windows@,
                ws == self.active_workspaces@,
                spec_find_at_point(full, ws, x as int, y as int) == spec_find_at_point(
                    full.skip(i as int),
                    ws,
                    x as int,
                    y as int,
                ),
            decreases n - i,
        {
            let w = self.windows[i];
            let right: i64 = w.rect.x as i64 + w.rect.width as i64;
            let bottom: i64 = w.rect.y as i64 + w.rect.height as i64;
            let contains = (x as i64) >= (w.rect.x as i64) && (x as i64) < right && (y as i64)
                >= (w.rect.y as i64) && (y as i64) < bottom;
            proof {
                assert(full.skip(i as int)[0] == full[i as int]);
            }
            if self.is_snap_candidate(&w) && contains {
                return Some(&self.windows[i]);
            }
            proof {
                assert(full.skip(i as int).drop_first() =~= full.skip(i as int + 1));
            }
            i = i + 1;
        }
        proof {
            assert(full.skip(n as int) =~= Seq::<WindowInfo>::empty());
        }
        None
    }

    /// Find the nearest window within a threshold distance on the active
    /// workspace of its monitor.  A window containing the point always
    /// wins; otherwise the candidate with the smallest truncated distance
    /// is chosen, earliest in cache order on ties.
    pub fn find_nearest_window(&self, x: i32, y: i32, threshold: i32) -> (r: Option<&WindowInfo>)
        ensures
            match r {
                Some(w) => spec_find_nearest(
                    self.windows@,
                    self.active_workspaces@,
                    x as int,
                    y as int,
                    threshold as int,
                ) == Some(*w),
                None => spec_find_nearest(
                    self.windows@,
                    self.active_workspaces@,
                    x as int,
                    y as int,
                    threshold as int,
                ) is None,
            },
    {
        if let Some(window) = self.find_window_at_point(x, y) {
            return Some(window);
        }
        let ghost full = self.windows@;
        let ghost ws = self.active_workspaces@;
        let n = self.windows.len();
        let mut best: Option<usize> = None;
        let mut best_dist: u64 = 0;
        let mut i: usize = 0;
        proof {
            assert(full.take(0) =~= Seq::<WindowInfo>::empty());
        }
        while i < n
            invariant
                i <= n,
                n == self.windows@.len(),
                full == self.windows@,
                ws == self.active_workspaces@,
                match best {
                    Some(bi) => bi < i && spec_nearest_scan(
                        full.take(i as int),
                        ws,
                        x as int,
                        y as int,
                        threshold as int,
                    ) == Some(full[bi as int]) && best_dist == spec_distance_to_rect(
                        x as int,
                        y as int,
                        full[bi as int].rect,
                    ),
                    None => spec_nearest_scan(
                        full.take(i as int),
                        ws,
                        x as int,
                        y as int,
                        threshold as int,
                    ) is None,
                },
            decreases n - i,
        {
            let w = self.windows[i];
            proof {
                assert(full.take(i as int + 1).drop_last() =~= full.take(i as int));
                assert(full.take(i as int + 1).last() == full[i as int]);
            }
            if self.is_snap_candidate(&w) {
                let d = distance_to_rect(x, y, &w.rect);
                let qualifies = threshold >= 0 && d <= threshold as u64;
                let better = match best {
                    Some(_) => d < best_dist,
                    None => true,
                };
                if qualifies && better {
                    best = Some(i);
                    best_dist = d;
                }
            }
            i = i + 1;
        }
        proof {
            assert(full.take(n as int) =~= full);
        }
        match best {
            Some(bi) => Some(&self.windows[bi]),
            None => None,
        }
    }
}

} // verus!
