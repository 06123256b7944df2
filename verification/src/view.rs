//! Orbit/zoom camera control from raw pointer and scroll input.
//!
//! All quantities are exact fixed-point integers.  Pointer positions,
//! pointer thresholds and rotation angles are in centi-units (a value of
//! 100 is 1.0); zoom is in milli-units, so the rule "zoom advances by a
//! tenth of the scroll delta" is the exact identity `zoom_milli +=
//! scroll_centi`.  The two rotation axes deliberately keep the viewer's
//! historical asymmetry: a horizontal step is 0.05 units, a vertical step
//! is a full 1.0 unit with the opposite sign convention.

use vstd::prelude::*;

verus! {

/// Pointer movement (in centi-units) on an axis that must be exceeded —
/// strictly — since the last committed position before a rotation step.
pub const X_MOVE_THRESHOLD: i64 = 1000;

/// The vertical axis uses the same threshold.
pub const Y_MOVE_THRESHOLD: i64 = 1000;

/// Horizontal rotation advances in steps of 0.05 units.
pub const ROTATE_X_STEP: i64 = 5;

/// Vertical rotation advances in whole 1.0-unit steps.
pub const ROTATE_Y_STEP: i64 = 100;

/// Magnitude bound on controller state and frame input, leaving headroom
/// so one frame's additions cannot overflow an `i64`.
pub const ACCUM_LIMIT: i64 = 0x2000_0000_0000_0000;

/// Mathematical view of the controller state.
pub ghost struct ViewModel {
    /// Accumulated zoom, in milli-units.
    pub zoom: int,
    /// Accumulated horizontal orbit angle, in centi-units.
    pub rotate_x: int,
    /// Accumulated vertical orbit angle, in centi-units.
    pub rotate_y: int,
    /// Pointer x position at the last committed horizontal step.
    pub last_x: int,
    /// Pointer y position at the last committed vertical step.
    pub last_y: int,
}

/// One frame's polled input: an optional scroll delta (centi-units), an
/// optional pointer position (centi-units), and the primary button state.
pub ghost struct FrameInput {
    pub scroll: Option<int>,
    pub pointer: Option<(int, int)>,
    pub left_down: bool,
}

/// The magnitude of a value.
pub open spec fn abs_val(a: int) -> int {
    if a < 0 {
        -a
    } else {
        a
    }
}

/// One axis of the drag state machine.  A rotation step is committed only
/// when the pointer has moved strictly beyond `threshold` since the last
/// committed position `last`; the step is `step_down` when the pointer
/// moved down-axis, `step_up` when up-axis, and the committed position
/// advances to `cur`.  Below the threshold nothing changes — in
/// particular, `last` is not re-anchored.
pub open spec fn axis_update(
    rot: int,
    last: int,
    cur: int,
    threshold: int,
    step_down: int,
    step_up: int,
) -> (int, int) {
    if abs_val(last - cur) > threshold {
        (
            if cur < last {
                rot + step_down
            } else if cur > last {
                rot + step_up
            } else {
                rot
            },
            cur,
        )
    } else {
        (rot, last)
    }
}

/// Zoom after one frame: a present scroll delta (centi-units) advances the
/// milli-unit zoom by exactly the delta, i.e. by a tenth of its value.
pub open spec fn zoom_update(zoom: int, scroll: Option<int>) -> int {
    match scroll {
        Option::Some(s) => zoom + s,
        Option::None => zoom,
    }
}

/// The controller state after one frame tick.  Zoom accumulates whenever a
/// scroll delta is present.  Rotation advances only while the primary
/// button is held and a pointer position is known; releasing the button
/// leaves the committed pointer positions where they were.
pub open spec fn step(m: ViewModel, inp: FrameInput) -> ViewModel {
    let zoom = zoom_update(m.zoom, inp.scroll);
    match inp.pointer {
        Option::Some(p) => {
            if inp.left_down {
                let hx = axis_update(
                    m.rotate_x,
                    m.last_x,
                    p.0,
                    X_MOVE_THRESHOLD as int,
                    ROTATE_X_STEP as int,
                    -(ROTATE_X_STEP as int),
                );
                let hy = axis_update(
                    m.rotate_y,
                    m.last_y,
                    p.1,
                    Y_MOVE_THRESHOLD as int,
                    -(ROTATE_Y_STEP as int),
                    ROTATE_Y_STEP as int,
                );
                ViewModel {
                    zoom,
                    rotate_x: hx.0,
                    last_x: hx.1,
                    rotate_y: hy.0,
                    last_y: hy.1,
                }
            } else {
                ViewModel { zoom, ..m }
            }
        },
        Option::None => ViewModel { zoom, ..m },
    }
}

/// All controller state within the accumulation bound.
pub open spec fn state_bounded(m: ViewModel) -> bool {
    &&& abs_val(m.zoom) <= ACCUM_LIMIT
    &&& abs_val(m.rotate_x) <= ACCUM_LIMIT
    &&& abs_val(m.rotate_y) <= ACCUM_LIMIT
    &&& abs_val(m.last_x) <= ACCUM_LIMIT
    &&& abs_val(m.last_y) <= ACCUM_LIMIT
}

/// All frame input within the accumulation bound.
pub open spec fn input_bounded(inp: FrameInput) -> bool {
    &&& match inp.scroll {
        Option::Some(s) => abs_val(s) <= ACCUM_LIMIT,
        Option::None => true,
    }
    &&& match inp.pointer {
        Option::Some(p) => abs_val(p.0) <= ACCUM_LIMIT && abs_val(p.1) <= ACCUM_LIMIT,
        Option::None => true,
    }
}

/// The frame input named by one `update` call.
pub open spec fn input_view(
    scroll: Option<i64>,
    pointer: Option<(i64, i64)>,
    left_down: bool,
) -> FrameInput {
    FrameInput {
        scroll: match scroll {
            Option::Some(s) => Option::Some(s as int),
            Option::None => Option::None,
        },
        pointer: match pointer {
            Option::Some(p) => Option::Some((p.0 as int, p.1 as int)),
            Option::None => Option::None,
        },
        left_down,
    }
}

/// Accumulated orbit and zoom state, fed one frame of raw input at a time.
pub struct ViewController {
    zoom: i64,
    rotate_x: i64,
    rotate_y: i64,
    last_mouse_x: i64,
    last_mouse_y: i64,
}

impl View for ViewController {
    type V = ViewModel;

    closed spec fn view(&self) -> ViewModel {
        ViewModel {
            zoom: self.zoom as int,
            rotate_x: self.rotate_x as int,
            rotate_y: self.rotate_y as int,
            last_x: self.last_mouse_x as int,
            last_y: self.last_mouse_y as int,
        }
    }
}

impl ViewController {
    /// A fresh controller: no zoom, no rotation, committed pointer at the
    /// origin.
    pub fn new() -> (r: ViewController)
        ensures
            r@ == (ViewModel { zoom: 0, rotate_x: 0, rotate_y: 0, last_x: 0, last_y: 0 }),
    {
        ViewController { zoom: 0, rotate_x: 0, rotate_y: 0, last_mouse_x: 0, last_mouse_y: 0 }
    }

    /// The accumulated zoom, in milli-units.
    pub fn zoom(&self) -> (r: i64)
        ensures
            r == self@.zoom,
    {
        self.zoom
    }

    /// The accumulated orbit angles `(x, y)`, in centi-units.
    pub fn rotate(&self) -> (r: (i64, i64))
        ensures
            r.0 == self@.rotate_x,
            r.1 == self@.rotate_y,
    {
        (self.rotate_x, self.rotate_y)
    }

    /// The pointer position `(x, y)` at which steps were last committed,
    /// in centi-units.
    pub fn last_committed(&self) -> (r: (i64, i64))
        ensures
            r.0 == self@.last_x,
            r.1 == self@.last_y,
    {
        (self.last_mouse_x, self.last_mouse_y)
    }

    /// Feeds one frame of polled input; the new state is exactly [`step`]
    /// of the old.
    pub fn update(&mut self, scroll: Option<i64>, pointer: Option<(i64, i64)>, left_down: bool)
        requires
            state_bounded(old(self)@),
            input_bounded(input_view(scroll, pointer, left_down)),
        ensures
            final(self)@ == step(old(self)@, input_view(scroll, pointer, left_down)),
    {
        if let Some(s) = scroll {
            self.zoom = self.zoom + s;
        }
        if let Some(p) = pointer {
            if left_down {
                let x: i64 = p.0;
                let y: i64 = p.1;
                let dx: i64 = self.last_mouse_x - x;
                if dx > X_MOVE_THRESHOLD || -dx > X_MOVE_THRESHOLD {
                    if x < self.last_mouse_x {
                        self.rotate_x = self.rotate_x + ROTATE_X_STEP;
                    } else if x > self.last_mouse_x {
                        self.rotate_x = self.rotate_x - ROTATE_X_STEP;
                    }
                    self.last_mouse_x = x;
                }
                let dy: i64 = self.last_mouse_y - y;
                if dy > Y_MOVE_THRESHOLD || -dy > Y_MOVE_THRESHOLD {
                    if y < self.last_mouse_y {
                        self.rotate_y = self.rotate_y - ROTATE_Y_STEP;
                    } else if y > self.last_mouse_y {
                        self.rotate_y = self.rotate_y + ROTATE_Y_STEP;
                    }
                    self.last_mouse_y = y;
                }
            }
        }
    }
}

/// A drag whose pointer has moved no further than the thresholds on either
/// axis commits nothing: rotation and the committed pointer positions are
/// untouched.
pub proof fn lemma_drag_below_threshold(m: ViewModel, inp: FrameInput)
    requires
        inp.pointer is Some,
        inp.left_down,
        abs_val(m.last_x - (inp.pointer->0).0) <= X_MOVE_THRESHOLD,
        abs_val(m.last_y - (inp.pointer->0).1) <= Y_MOVE_THRESHOLD,
    ensures
        step(m, inp).rotate_x == m.rotate_x,
        step(m, inp).rotate_y == m.rotate_y,
        step(m, inp).last_x == m.last_x,
        step(m, inp).last_y == m.last_y,
{
}

/// A drag beyond a threshold commits exactly one step on that axis, with
/// the documented magnitudes and sign conventions — 0.05 toward smaller x,
/// a full unit with the opposite convention on y — and re-anchors that
/// axis's committed position at the pointer.
pub proof fn lemma_drag_step_sizes(m: ViewModel, inp: FrameInput)
    requires
        inp.pointer is Some,
        inp.left_down,
    ensures
        ({
            let p = inp.pointer->0;
            let after = step(m, inp);
            &&& (abs_val(m.last_x - p.0) > X_MOVE_THRESHOLD && p.0 < m.last_x ==> after.rotate_x
                == m.rotate_x + ROTATE_X_STEP && after.last_x == p.0)
            &&& (abs_val(m.last_x - p.0) > X_MOVE_THRESHOLD && p.0 > m.last_x ==> after.rotate_x
                == m.rotate_x - ROTATE_X_STEP && after.last_x == p.0)
            &&& (abs_val(m.last_y - p.1) > Y_MOVE_THRESHOLD && p.1 < m.last_y ==> after.rotate_y
                == m.rotate_y - ROTATE_Y_STEP && after.last_y == p.1)
            &&& (abs_val(m.last_y - p.1) > Y_MOVE_THRESHOLD && p.1 > m.last_y ==> after.rotate_y
                == m.rotate_y + ROTATE_Y_STEP && after.last_y == p.1)
        }),
{
}

/// While the button is up — or no pointer position is known — rotation
/// stops, and the committed pointer positions are deliberately not reset:
/// the next drag resumes measuring from where the last one committed.
pub proof fn lemma_release_keeps_anchor(m: ViewModel, inp: FrameInput)
    requires
        !inp.left_down || inp.pointer is None,
    ensures
        step(m, inp).rotate_x == m.rotate_x,
        step(m, inp).rotate_y == m.rotate_y,
        step(m, inp).last_x == m.last_x,
        step(m, inp).last_y == m.last_y,
{
}

/// Zoom accumulates by exactly the scroll delta each frame — a tenth of
/// the delta in the delta's own units — independent of pointer and button
/// state.
pub proof fn lemma_zoom_accumulates(m: ViewModel, inp: FrameInput)
    ensures
        step(m, inp).zoom == zoom_update(m.zoom, inp.scroll),
        inp.scroll is Some ==> step(m, inp).zoom == m.zoom + inp.scroll->0,
        inp.scroll is None ==> step(m, inp).zoom == m.zoom,
{
}

} // verus!
