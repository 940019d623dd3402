//! Decision rules of the cooperative main loop.
//!
//! A `Session` holds the state the loop mutates between events: the
//! selection, the last pointer position, button state, and the redraw and
//! exit flags.  Pointer and button events come in as plain values (the
//! display plumbing converts surface-local coordinates to global ones and
//! queries the window manager); the session decides what changes, and
//! reports what the caller must do: retarget the snap animation, repaint,
//! or finish.  The spring physics itself lives with the caller; the
//! session only consumes each animation frame's output.

use vstd::prelude::*;
use vstd::string::*;

use crate::geometry::Rect;
use crate::selection::{
    spec_get_selection, spec_new_selection, spec_start_selection, spec_update_drag, Selection,
};

verus! {

/// Poll timeout when an animation exists but has settled: a slow idle
/// repaint cadence, in milliseconds.
pub const IDLE_FRAME_TIMEOUT_MS: u64 = 33;

/// Poll timeout while an animation is in motion, in milliseconds.
pub const ANIMATION_FRAME_TIMEOUT_MS: u64 = 8;

/// How long the event loop may block waiting for input: forever when no
/// animation exists, briskly while one is moving, and lazily once it has
/// settled.
pub fn poll_timeout(has_animation: bool, settled: bool) -> (t: Option<u64>)
    ensures
        t == (if !has_animation {
            Option::<u64>::None
        } else if settled {
            Some(IDLE_FRAME_TIMEOUT_MS)
        } else {
            Some(ANIMATION_FRAME_TIMEOUT_MS)
        }),
{
    if has_animation {
        if settled {
            Some(IDLE_FRAME_TIMEOUT_MS)
        } else {
            Some(ANIMATION_FRAME_TIMEOUT_MS)
        }
    } else {
        None
    }
}

/// What a pointer-move event asked of the caller.
#[derive(Debug, Clone, Copy)]
pub enum PointerMoveAction {
    /// The drag rectangle was updated; repaint.
    Dragged,
    /// The snap target changed to the carried rectangle (or away from
    /// one): retarget or drop the snap animation, and repaint.
    SnapChanged(Option<Rect>),
    /// Nothing changed.
    NoChange,
}

/// What a button event asked of the caller.
#[derive(Debug, Clone, Copy)]
pub enum ButtonOutcome {
    /// A drag began at the current pointer position.
    Started,
    /// The session finished with this selection rectangle.
    Completed(Rect),
    /// Nothing to do.
    Nothing,
}

/// The state the main loop carries between events.
#[derive(Debug)]
pub struct Session {
    pub selection: Selection,
    /// Last known pointer position, in global coordinates.
    pub pointer_position: (i32, i32),
    pub mouse_pressed: bool,
    /// Where the current drag began, while one is in progress.
    pub selection_start: Option<(i32, i32)>,
    /// At least one output should be repainted.
    pub needs_redraw: bool,
    /// The session is over and the loop should stop.
    pub exit: bool,
}

impl Session {
    pub fn new() -> (s: Session)
        ensures
            s == (Session {
                selection: spec_new_selection(),
                pointer_position: (0, 0),
                mouse_pressed: false,
                selection_start: None::<(i32, i32)>,
                needs_redraw: false,
                exit: false,
            }),
    {
        Session {
            selection: Selection::new(),
            pointer_position: (0, 0),
            mouse_pressed: false,
            selection_start: None,
            needs_redraw: false,
            exit: false,
        }
    }

    /// Handle a pointer move to a global position, given the nearest
    /// snappable window at that position (as the window manager reports
    /// it; `None` also when snapping is disabled).  While the button is
    /// held the drag rectangle follows the pointer; otherwise a change of
    /// snap target is recorded, and only a change: repeated moves over
    /// the same target ask for no redraw.
    pub fn handle_pointer_move(&mut self, global_x: i32, global_y: i32, nearest: Option<Rect>) -> (
        act: PointerMoveAction)
        requires
            old(self).mouse_pressed ==> (old(self).selection_start matches Some(p) ==> p.0
                - global_x <= i32::MAX && global_x - p.0 <= i32::MAX && p.1 - global_y <= i32::MAX
                && global_y - p.1 <= i32::MAX),
        ensures
            final(self).pointer_position == (global_x, global_y),
            final(self).mouse_pressed == old(self).mouse_pressed,
            final(self).selection_start == old(self).selection_start,
            final(self).exit == old(self).exit,
            old(self).mouse_pressed ==> match old(self).selection_start {
                Some(p) => final(self).selection == spec_update_drag(
                    old(self).selection,
                    p.0,
                    p.1,
                    global_x,
                    global_y,
                ) && final(self).needs_redraw && act is Dragged,
                None => final(self).selection == old(self).selection && final(self).needs_redraw
                    == old(self).needs_redraw && act is NoChange,
            },
            !old(self).mouse_pressed ==> (if nearest == old(self).selection.snap_target {
                final(self).selection == old(self).selection && final(self).needs_redraw == old(
                    self,
                ).needs_redraw && act is NoChange
            } else {
                final(self).selection == (Selection {
                    snap_target: nearest,
                    ..old(self).selection
                }) && final(self).needs_redraw && act == PointerMoveAction::SnapChanged(nearest)
            }),
    {
        self.pointer_position = (global_x, global_y);
        if self.mouse_pressed {
            match self.selection_start {
                Some((start_x, start_y)) => {
                    self.selection.update_drag(start_x, start_y, global_x, global_y);
                    self.needs_redraw = true;
                    PointerMoveAction::Dragged
                },
                None => PointerMoveAction::NoChange,
            }
        } else {
            let current = self.selection.get_snap_target();
            if option_rect_eq(&nearest, &current) {
                PointerMoveAction::NoChange
            } else {
                self.selection.set_snap_target(nearest);
                self.needs_redraw = true;
                PointerMoveAction::SnapChanged(nearest)
            }
        }
    }

    /// Handle a button press or release.  A press starts a selection at
    /// the current pointer position.  A release finalizes a valid drag;
    /// when no drag produced a valid rectangle but a snap target is
    /// present, a selection equal to the snap target is synthesized and
    /// finalized instead.
    pub fn handle_pointer_button(&mut self, pressed: bool) -> (out: ButtonOutcome)
        requires
            !pressed ==> (old(self).selection.snap_target matches Some(s) ==> i32::MIN <= s.x
                + s.width <= i32::MAX && i32::MIN <= s.y + s.height <= i32::MAX && s.width
                > i32::MIN && s.height > i32::MIN),
        ensures
            final(self).needs_redraw,
            final(self).pointer_position == old(self).pointer_position,
            final(self).mouse_pressed == pressed,
            pressed ==> {
                &&& final(self).selection_start == Some(old(self).pointer_position)
                &&& final(self).selection == spec_start_selection(
                    old(self).selection,
                    old(self).pointer_position.0,
                    old(self).pointer_position.1,
                )
                &&& final(self).exit == old(self).exit
                &&& out is Started
            },
            !pressed ==> final(self).selection_start == old(self).selection_start,
            !pressed ==> match spec_get_selection(old(self).selection) {
                Some(r) => final(self).selection == old(self).selection && final(self).exit && out
                    == ButtonOutcome::Completed(r),
                None => match old(self).selection.snap_target {
                    Some(snap) => {
                        let synth = spec_update_drag(
                            spec_start_selection(old(self).selection, snap.x, snap.y),
                            snap.x,
                            snap.y,
                            (snap.x + snap.width) as i32,
                            (snap.y + snap.height) as i32,
                        );
                        &&& final(self).selection == synth
                        &&& match spec_get_selection(synth) {
                            Some(r2) => final(self).exit && out == ButtonOutcome::Completed(r2),
                            None => final(self).exit == old(self).exit && out is Nothing,
                        }
                    },
                    None => final(self).selection == old(self).selection && final(self).exit == old(
                        self,
                    ).exit && out is Nothing,
                },
            },
    {
        let out = if pressed {
            self.mouse_pressed = true;
            self.selection_start = Some(self.pointer_position);
            let (px, py) = self.pointer_position;
            self.selection.start_selection(px, py);
            ButtonOutcome::Started
        } else {
            self.mouse_pressed = false;
            match self.selection.get_selection() {
                Some(rect) => {
                    self.exit = true;
                    ButtonOutcome::Completed(rect)
                },
                None => match self.selection.get_snap_target() {
                    Some(snap) => {
                        self.selection.start_selection(snap.x, snap.y);
                        self.selection.update_drag(
                            snap.x,
                            snap.y,
                            snap.x + snap.width,
                            snap.y + snap.height,
                        );
                        match self.selection.get_selection() {
                            Some(rect) => {
                                self.exit = true;
                                ButtonOutcome::Completed(rect)
                            },
                            None => ButtonOutcome::Nothing,
                        }
                    },
                    None => ButtonOutcome::Nothing,
                },
            }
        };
        self.needs_redraw = true;
        out
    }

    /// Consume one animation frame: show the animated rectangle as the
    /// current snap preview, and ask for a repaint while motion is still
    /// ongoing.
    pub fn apply_animation_frame(&mut self, animated: Rect, settled: bool)
        ensures
            final(self).selection == (Selection {
                animated_snap_target: Some(animated),
                ..old(self).selection
            }),
            final(self).needs_redraw == (old(self).needs_redraw || !settled),
            final(self).pointer_position == old(self).pointer_position,
            final(self).mouse_pressed == old(self).mouse_pressed,
            final(self).selection_start == old(self).selection_start,
            final(self).exit == old(self).exit,
    {
        self.selection.set_animated_snap_target(Some(animated));
        if !settled {
            self.needs_redraw = true;
        }
    }
}

/// The character for one decimal digit.
pub open spec fn spec_digit_char(d: int) -> char {
    if d == 0 {
        '0'
    } else if d == 1 {
        '1'
    } else if d == 2 {
        '2'
    } else if d == 3 {
        '3'
    } else if d == 4 {
        '4'
    } else if d == 5 {
        '5'
    } else if d == 6 {
        '6'
    } else if d == 7 {
        '7'
    } else if d == 8 {
        '8'
    } else {
        '9'
    }
}

/// The decimal digits of a non-negative number, most significant first.
pub open spec fn spec_decimal_digits(n: int) -> Seq<char>
    decreases n,
{
    if n < 10 {
        seq![spec_digit_char(n)]
    } else {
        spec_decimal_digits(n / 10).push(spec_digit_char(n % 10))
    }
}

/// The decimal rendering of an integer, with a leading minus sign when
/// negative.
pub open spec fn spec_decimal(v: int) -> Seq<char> {
    if v < 0 {
        seq!['-'] + spec_decimal_digits(-v)
    } else {
        spec_decimal_digits(v)
    }
}

/// The coordinate line reported for a finished selection:
/// `x,y widthxheight`.
pub open spec fn spec_format_output(x: int, y: int, w: int, h: int) -> Seq<char> {
    spec_decimal(x) + seq![','] + spec_decimal(y) + seq![' '] + spec_decimal(w) + seq!['x']
        + spec_decimal(h)
}

/// Append one decimal digit to a string.
fn push_digit(s: &mut String, d: u64)
    requires
        d < 10,
    ensures
        final(s)@ == old(s)@.push(spec_digit_char(d as int)),
{
    proof {
        reveal_strlit("0");
        reveal_strlit("1");
        reveal_strlit("2");
        reveal_strlit("3");
        reveal_strlit("4");
        reveal_strlit("5");
        reveal_strlit("6");
        reveal_strlit("7");
        reveal_strlit("8");
        reveal_strlit("9");
    }
    let ghost orig = s@;
    if d == 0 {
        s.append("0");
        proof {
            assert(orig + "0"@ =~= orig.push('0'));
        }
    } else if d == 1 {
        s.append("1");
        proof {
            assert(orig + "1"@ =~= orig.push('1'));
        }
    } else if d == 2 {
        s.append("2");
        proof {
            assert(orig + "2"@ =~= orig.push('2'));
        }
    } else if d == 3 {
        s.append("3");
        proof {
            assert(orig + "3"@ =~= orig.push('3'));
        }
    } else if d == 4 {
        s.append("4");
        proof {
            assert(orig + "4"@ =~= orig.push('4'));
        }
    } else if d == 5 {
        s.append("5");
        proof {
            assert(orig + "5"@ =~= orig.push('5'));
        }
    } else if d == 6 {
        s.append("6");
        proof {
            assert(orig + "6"@ =~= orig.push('6'));
        }
    } else if d == 7 {
        s.append("7");
        proof {
            assert(orig + "7"@ =~= orig.push('7'));
        }
    } else if d == 8 {
        s.append("8");
        proof {
            assert(orig + "8"@ =~= orig.push('8'));
        }
    } else {
        s.append("9");
        proof {
            assert(orig + "9"@ =~= orig.push('9'));
        }
    }
}

/// The decimal digits of a number, as a string.
fn u64_decimal(n: u64) -> (s: String)
    ensures
        s@ == spec_decimal_digits(n as int),
    decreases n,
{
    if n < 10 {
        let mut s = String::new();
        push_digit(&mut s, n);
        proof {
            assert(Seq::<char>::empty().push(spec_digit_char(n as int)) =~= seq![
                spec_digit_char(n as int),
            ]);
        }
        s
    } else {
        let mut s = u64_decimal(n / 10);
        push_digit(&mut s, n % 10);
        s
    }
}

/// The decimal rendering of a signed coordinate, as a string.
fn i32_decimal(v: i32) -> (s: String)
    ensures
        s@ == spec_decimal(v as int),
{
    if v >= 0 {
        u64_decimal(v as u64)
    } else {
        proof {
            reveal_strlit("-");
        }
        let mut s = String::from_str("-");
        let magnitude: u64 = (-(v as i64)) as u64;
        let digits = u64_decimal(magnitude);
        s.append(digits.as_str());
        proof {
            assert("-"@ =~= seq!['-']);
        }
        s
    }
}

/// Format a finished selection's geometry as the coordinate line
/// `x,y widthxheight`.
pub fn format_output(x: i32, y: i32, width: i32, height: i32) -> (s: String)
    ensures
        s@ == spec_format_output(x as int, y as int, width as int, height as int),
{
    proof {
        reveal_strlit(",");
        reveal_strlit(" ");
        reveal_strlit("x");
    }
    let mut s = i32_decimal(x);
    s.append(",");
    let ys = i32_decimal(y);
    s.append(ys.as_str());
    s.append(" ");
    let ws = i32_decimal(width);
    s.append(ws.as_str());
    s.append("x");
    let hs = i32_decimal(height);
    s.append(hs.as_str());
    proof {
        assert(","@ =~= seq![',']);
        assert(" "@ =~= seq![' ']);
        assert("x"@ =~= seq!['x']);
        assert(s@ =~= spec_format_output(x as int, y as int, width as int, height as int));
    }
    s
}

/// Structural equality of two optional rectangles.
fn option_rect_eq(a: &Option<Rect>, b: &Option<Rect>) -> (r: bool)
    ensures
        r == (*a == *b),
{
    match (a, b) {
        (None, None) => true,
        (Some(ra), Some(rb)) => *ra == *rb,
        _ => false,
    }
}

} // verus!
