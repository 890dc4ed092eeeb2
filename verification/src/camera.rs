//! The free-look camera input controller.
//!
//! The controller is a pure input-accumulation state machine: it tracks
//! which movement keys are held, whether mouse look is enabled, and the
//! mouse motion accumulated since the last frame.  Once per frame the host
//! drains it with [`CameraController::advance`] and applies the returned
//! movement direction and look deltas to the camera pose; the pose itself
//! (positions, quaternions) is floating-point state owned by the host.
//!
//! Mouse deltas are measured in fixed subpixel units chosen by the host;
//! the controller only accumulates them, saturating at the `i64` range.

use vstd::prelude::*;

verus! {

/// A key the controller may react to, decoded by the host from the raw
/// keyboard event.
#[derive(Clone, Copy, Debug, PartialEq, Eq, Structural)]
pub enum CameraKey {
    /// Holds mouse look enabled.
    ShiftLeft,
    /// Move forward.
    KeyW,
    /// Move backward.
    KeyS,
    /// Move left.
    KeyA,
    /// Move right.
    KeyD,
    /// Any key the controller does not consume.
    Other,
}

/// Input state accumulated between two frames.
#[derive(Clone, Copy, Debug, PartialEq, Eq, Structural)]
pub struct CameraController {
    pub look_around: bool,
    pub move_forward: bool,
    pub move_backward: bool,
    pub move_left: bool,
    pub move_right: bool,
    pub mouse_delta_x: i64,
    pub mouse_delta_y: i64,
}

/// What one frame takes out of the controller: the raw local movement
/// direction (right-handed: `x` grows to the right, `z` grows backward,
/// each component in `-1..=1`) and the accumulated look deltas.
#[derive(Clone, Copy, Debug, PartialEq, Eq, Structural)]
pub struct FrameInput {
    pub move_x: i64,
    pub move_z: i64,
    pub delta_x: i64,
    pub delta_y: i64,
}

/// `a + b` clamped to the `i64` range.
pub open spec fn sat_add64(a: int, b: int) -> i64 {
    if a + b > i64::MAX {
        i64::MAX
    } else if a + b < i64::MIN {
        i64::MIN
    } else {
        (a + b) as i64
    }
}

/// The sideways component of the raw movement direction.
pub open spec fn spec_move_x(c: CameraController) -> int {
    (if c.move_right { 1int } else { 0int }) - (if c.move_left { 1int } else { 0int })
}

/// The depth component of the raw movement direction (forward is negative,
/// as in a right-handed camera space).
pub open spec fn spec_move_z(c: CameraController) -> int {
    (if c.move_backward { 1int } else { 0int }) - (if c.move_forward { 1int } else { 0int })
}

/// What processing one key event does to the controller, and whether the
/// event is consumed.
pub open spec fn spec_process_key(
    c: CameraController,
    key: CameraKey,
    pressed: bool,
) -> (CameraController, bool) {
    match key {
        CameraKey::ShiftLeft => (CameraController { look_around: pressed, ..c }, true),
        CameraKey::KeyW => (CameraController { move_forward: pressed, ..c }, true),
        CameraKey::KeyS => (CameraController { move_backward: pressed, ..c }, true),
        CameraKey::KeyA => (CameraController { move_left: pressed, ..c }, true),
        CameraKey::KeyD => (CameraController { move_right: pressed, ..c }, true),
        CameraKey::Other => (c, false),
    }
}

/// What accumulating one mouse delta does to the controller: motion is
/// added only while look is enabled and is discarded otherwise, so that
/// background mouse movement cannot drift the camera.
pub open spec fn spec_process_mouse_delta(c: CameraController, dx: i64, dy: i64) -> CameraController {
    if !c.look_around {
        c
    } else {
        CameraController {
            mouse_delta_x: sat_add64(c.mouse_delta_x as int, dx as int),
            mouse_delta_y: sat_add64(c.mouse_delta_y as int, dy as int),
            ..c
        }
    }
}

/// What one frame's advance does: the accumulated deltas and the current
/// movement direction are handed out, and the accumulator is reset; the
/// key flags keep their state.
pub open spec fn spec_advance(c: CameraController) -> (CameraController, FrameInput) {
    (
        CameraController { mouse_delta_x: 0, mouse_delta_y: 0, ..c },
        FrameInput {
            move_x: spec_move_x(c) as i64,
            move_z: spec_move_z(c) as i64,
            delta_x: c.mouse_delta_x,
            delta_y: c.mouse_delta_y,
        },
    )
}

fn sat_add(a: i64, b: i64) -> (r: i64)
    ensures
        r == sat_add64(a as int, b as int),
{
    if b >= 0 {
        if a > i64::MAX - b {
            i64::MAX
        } else {
            a + b
        }
    } else {
        if a < i64::MIN - b {
            i64::MIN
        } else {
            a + b
        }
    }
}

impl CameraController {
    /// A controller with no key held, look disabled and nothing
    /// accumulated.
    pub fn new() -> (r: CameraController)
        ensures
            r == (CameraController {
                look_around: false,
                move_forward: false,
                move_backward: false,
                move_left: false,
                move_right: false,
                mouse_delta_x: 0,
                mouse_delta_y: 0,
            }),
    {
        CameraController {
            look_around: false,
            move_forward: false,
            move_backward: false,
            move_left: false,
            move_right: false,
            mouse_delta_x: 0,
            mouse_delta_y: 0,
        }
    }

    /// Sets the flag the key controls and reports whether the event was
    /// consumed.
    pub fn process_input_events(&mut self, key: CameraKey, pressed: bool) -> (consumed: bool)
        ensures
            (*final(self), consumed) == spec_process_key(*old(self), key, pressed),
    {
        match key {
            CameraKey::ShiftLeft => {
                self.look_around = pressed;
                true
            },
            CameraKey::KeyW => {
                self.move_forward = pressed;
                true
            },
            CameraKey::KeyS => {
                self.move_backward = pressed;
                true
            },
            CameraKey::KeyA => {
                self.move_left = pressed;
                true
            },
            CameraKey::KeyD => {
                self.move_right = pressed;
                true
            },
            CameraKey::Other => false,
        }
    }

    /// Accumulates a mouse motion delta while look is enabled; discards it
    /// otherwise.
    pub fn process_mouse_delta(&mut self, dx: i64, dy: i64)
        ensures
            *final(self) == spec_process_mouse_delta(*old(self), dx, dy),
    {
        if !self.look_around {
            return ;
        }
        self.mouse_delta_x = sat_add(self.mouse_delta_x, dx);
        self.mouse_delta_y = sat_add(self.mouse_delta_y, dy);
    }

    /// Drains the controller for one frame: returns the movement direction
    /// and the accumulated look deltas, and resets the accumulator to zero.
    pub fn advance(&mut self) -> (r: FrameInput)
        ensures
            (*final(self), r) == spec_advance(*old(self)),
    {
        let mut move_x: i64 = 0;
        let mut move_z: i64 = 0;
        if self.move_forward {
            move_z = move_z - 1;
        }
        if self.move_backward {
            move_z = move_z + 1;
        }
        if self.move_left {
            move_x = move_x - 1;
        }
        if self.move_right {
            move_x = move_x + 1;
        }

        let delta_x = self.mouse_delta_x;
        let delta_y = self.mouse_delta_y;
        self.mouse_delta_x = 0;
        self.mouse_delta_y = 0;

        FrameInput { move_x, move_z, delta_x, delta_y }
    }
}

/// Law: for every combination of direction flags, the raw movement vector
/// has squared magnitude at most 2, and it is zero exactly when opposite
/// flags cancel out.  In particular a nonzero raw vector has squared
/// magnitude at least 1, so normalizing it (done by the host in floating
/// point) yields a vector of magnitude exactly 1, never more.
pub proof fn lemma_move_vector_magnitude(c: CameraController)
    ensures
        0 <= spec_move_x(c) * spec_move_x(c) + spec_move_z(c) * spec_move_z(c) <= 2,
        (spec_move_x(c) == 0 && spec_move_z(c) == 0) <==> (c.move_forward == c.move_backward
            && c.move_left == c.move_right),
        (spec_move_x(c) != 0 || spec_move_z(c) != 0) ==> spec_move_x(c) * spec_move_x(c)
            + spec_move_z(c) * spec_move_z(c) >= 1,
{
    let mx = spec_move_x(c);
    let mz = spec_move_z(c);
    assert(-1 <= mx <= 1);
    assert(-1 <= mz <= 1);
    assert(mx * mx == if mx == 0 { 0int } else { 1int }) by (nonlinear_arith)
        requires
            -1 <= mx <= 1,
    ;
    assert(mz * mz == if mz == 0 { 0int } else { 1int }) by (nonlinear_arith)
        requires
            -1 <= mz <= 1,
    ;
}

/// Law: two mouse deltas accumulated while look is enabled, with no frame
/// boundary between them, add up componentwise; the advance that then
/// consumes them hands out exactly that sum and resets the accumulator to
/// `(0, 0)`.  Stated for sums within the `i64` range, where the saturating
/// accumulation is plain addition.
pub proof fn lemma_mouse_look_accumulation(
    c: CameraController,
    dx1: i64,
    dy1: i64,
    dx2: i64,
    dy2: i64,
)
    requires
        c.look_around,
        c.mouse_delta_x == 0,
        c.mouse_delta_y == 0,
        i64::MIN <= dx1 + dx2 <= i64::MAX,
        i64::MIN <= dy1 + dy2 <= i64::MAX,
    ensures
        ({
            let c1 = spec_process_mouse_delta(c, dx1, dy1);
            let c2 = spec_process_mouse_delta(c1, dx2, dy2);
            let (c3, input) = spec_advance(c2);
            &&& c2.mouse_delta_x == dx1 + dx2
            &&& c2.mouse_delta_y == dy1 + dy2
            &&& input.delta_x == dx1 + dx2
            &&& input.delta_y == dy1 + dy2
            &&& c3.mouse_delta_x == 0
            &&& c3.mouse_delta_y == 0
        }),
{
}

} // verus!
