//! Gamepad input state: button edge detection with debouncing, and the
//! consumer handle fed by the input-device thread.
//!
//! Command axes are fixed point in millionths, matching the angles and
//! velocities they combine with; time is milliseconds.

use vstd::prelude::*;

verus! {

use crate::sensor_channel::LatestReceiver;
use crate::sensor_channel::send_stop;

/// Debounce interval: a trigger is suppressed for this long after the
/// previous one, in milliseconds.
pub const DEBOUNCE_MS: i64 = 200;

/// Upper bound on timestamps the button logic accepts, far beyond any
/// process lifetime, so the debounce subtraction cannot overflow.
pub const MAX_TIME_MS: i64 = 1_000_000_000_000;

/// Button state with debounce and trigger detection.
///
/// A button is "triggered" only on a pressed transition that follows a
/// full release and comes at least the debounce interval after the
/// previous trigger; rapid re-presses register as pressed but not
/// triggered, and a sustained press never re-triggers.
#[derive(Clone, Copy)]
pub struct ButtonState {
    /// Level: the button is currently down.
    pub is_pressed: bool,
    /// Edge: this update was an accepted press transition.
    pub triggered: bool,
    /// The button has been fully released since the last press.
    pub released: bool,
    /// When the last accepted trigger happened, milliseconds.
    pub last_pressed_time: i64,
}

/// The state a fresh button starts in: up, untriggered, and counted as
/// released so the first press can trigger.
pub open spec fn initial_button() -> ButtonState {
    ButtonState { is_pressed: false, triggered: false, released: true, last_pressed_time: 0 }
}

/// The whole update step of the button state machine.
pub open spec fn button_update_spec(b: ButtonState, value: bool, now_ms: i64) -> ButtonState {
    let released_seen = b.released || (b.is_pressed && !value);
    let fires = released_seen && value && now_ms - b.last_pressed_time > DEBOUNCE_MS;
    ButtonState {
        is_pressed: value,
        triggered: fires,
        released: released_seen && !value,
        last_pressed_time: if fires {
            now_ms
        } else {
            b.last_pressed_time
        },
    }
}

impl ButtonState {
    /// The timestamp stays inside the range the arithmetic is safe for.
    pub open spec fn well_formed(&self) -> bool {
        0 <= self.last_pressed_time <= MAX_TIME_MS
    }

    /// A fresh button: up and ready to trigger on the first press.
    pub fn new() -> (r: Self)
        ensures
            r == initial_button(),
            r.well_formed(),
    {
        ButtonState { is_pressed: false, triggered: false, released: true, last_pressed_time: 0 }
    }

    /// Feed one sampled level at the given time.
    pub fn update(&mut self, value: bool, now_ms: i64)
        requires
            old(self).well_formed(),
            0 <= now_ms <= MAX_TIME_MS,
        ensures
            *final(self) == button_update_spec(*old(self), value, now_ms),
            final(self).well_formed(),
    {
        if self.is_pressed && !value {
            self.released = true;
        }
        self.is_pressed = value;
        if self.released && self.is_pressed && now_ms - self.last_pressed_time > DEBOUNCE_MS {
            self.triggered = true;
            self.last_pressed_time = now_ms;
        } else {
            self.triggered = false;
        }
        if self.is_pressed {
            self.released = false;
        }
    }
}

/// A press after a full release and past the debounce window triggers.
pub proof fn lemma_press_triggers(b: ButtonState, t: i64)
    requires
        b.released,
        t - b.last_pressed_time > DEBOUNCE_MS,
    ensures
        button_update_spec(b, true, t).triggered,
{
}

/// Button debounce: a press, a release, and a second press within the
/// debounce window trigger only once.
pub proof fn lemma_rapid_represses_trigger_once(b0: ButtonState, t1: i64, tr: i64, t2: i64)
    requires
        b0.released,
        t1 - b0.last_pressed_time > DEBOUNCE_MS,
        t1 <= tr <= t2,
        t2 - t1 <= DEBOUNCE_MS,
    ensures
        ({
            let b1 = button_update_spec(b0, true, t1);
            let b2 = button_update_spec(b1, false, tr);
            let b3 = button_update_spec(b2, true, t2);
            b1.triggered && !b2.triggered && !b3.triggered
        }),
{
}

/// Button debounce: two presses separated by more than the debounce
/// interval, with a release in between, trigger twice.
pub proof fn lemma_spaced_represses_trigger_twice(b0: ButtonState, t1: i64, tr: i64, t2: i64)
    requires
        b0.released,
        t1 - b0.last_pressed_time > DEBOUNCE_MS,
        t1 <= tr <= t2,
        t2 - t1 > DEBOUNCE_MS,
    ensures
        ({
            let b1 = button_update_spec(b0, true, t1);
            let b2 = button_update_spec(b1, false, tr);
            let b3 = button_update_spec(b2, true, t2);
            b1.triggered && !b2.triggered && b3.triggered
        }),
{
}

/// A press sustained without release never re-triggers, however much
/// time passes.
pub proof fn lemma_sustained_press_never_retriggers(b0: ButtonState, t1: i64, t2: i64)
    ensures
        ({
            let b1 = button_update_spec(b0, true, t1);
            let b2 = button_update_spec(b1, true, t2);
            !b2.triggered
        }),
{
}

/// All gamepad button states.
#[derive(Clone, Copy)]
pub struct Buttons {
    /// Face button A.
    pub a: ButtonState,
    /// Face button B.
    pub b: ButtonState,
    /// Face button X.
    pub x: ButtonState,
    /// Face button Y.
    pub y: ButtonState,
    /// Left bumper.
    pub lb: ButtonState,
    /// Right bumper.
    pub rb: ButtonState,
    /// Directional pad up.
    pub dpad_up: ButtonState,
    /// Directional pad down.
    pub dpad_down: ButtonState,
}

impl Buttons {
    /// Every button starts fresh.
    pub fn new() -> (r: Self)
        ensures
            r.a == initial_button(),
            r.b == initial_button(),
            r.x == initial_button(),
            r.y == initial_button(),
            r.lb == initial_button(),
            r.rb == initial_button(),
            r.dpad_up == initial_button(),
            r.dpad_down == initial_button(),
    {
        Buttons {
            a: ButtonState::new(),
            b: ButtonState::new(),
            x: ButtonState::new(),
            y: ButtonState::new(),
            lb: ButtonState::new(),
            rb: ButtonState::new(),
            dpad_up: ButtonState::new(),
            dpad_down: ButtonState::new(),
        }
    }
}

/// Snapshot of the human-input state, produced once per sampling tick:
/// seven continuous command axes in millionths
/// (`[lin_vel_x, lin_vel_y, ang_vel, neck_pitch, head_pitch, head_yaw,
/// head_roll]`, velocities in micro-units and head angles in
/// microradians), the button states, and the two trigger axes.
#[derive(Clone, Copy)]
pub struct ControllerOutput {
    /// The seven command axes, millionths.
    pub commands: [i64; 7],
    /// Button states with edge detection.
    pub buttons: Buttons,
    /// Left analog trigger, millionths in `[0, 1_000_000]`.
    pub left_trigger: i64,
    /// Right analog trigger, millionths in `[0, 1_000_000]`.
    pub right_trigger: i64,
}

impl ControllerOutput {
    /// The startup state: centred axes, fresh buttons, released
    /// triggers.
    pub fn new() -> (r: Self)
        ensures
            forall|i: int| 0 <= i < 7 ==> r.commands@[i] == 0i64,
            r.left_trigger == 0,
            r.right_trigger == 0,
            r.buttons.a == initial_button(),
    {
        ControllerOutput {
            commands: [0, 0, 0, 0, 0, 0, 0],
            buttons: Buttons::new(),
            left_trigger: 0,
            right_trigger: 0,
        }
    }
}

impl Default for ControllerOutput {
    /// Same as [`ControllerOutput::new`].
    fn default() -> (r: Self)
        ensures
            forall|i: int| 0 <= i < 7 ==> r.commands@[i] == 0i64,
            r.left_trigger == 0,
            r.right_trigger == 0,
    {
        ControllerOutput::new()
    }
}

/// Consumer handle for the gamepad: the polling thread publishes
/// snapshots through a single-slot channel, and the control loop fetches
/// the latest one without ever blocking.
pub struct XBoxController {
    /// Latest-value view of the snapshot slot.
    pub inner: LatestReceiver<ControllerOutput>,
    /// One-shot stop signal to the polling thread.
    pub stop_tx: crossbeam_channel::Sender<()>,
}

impl XBoxController {
    /// Wrap the consumer ends of the channels the polling thread feeds.
    pub fn new(
        receiver: crossbeam_channel::Receiver<ControllerOutput>,
        stop_tx: crossbeam_channel::Sender<()>,
    ) -> (r: Self)
        ensures
            forall|i: int| 0 <= i < 7 ==> r.inner.last.commands@[i] == 0i64,
            r.inner.last.left_trigger == 0,
            r.inner.last.right_trigger == 0,
    {
        XBoxController { inner: LatestReceiver::new(receiver, ControllerOutput::new()), stop_tx }
    }

    /// The latest controller snapshot, without blocking: a newly
    /// published one if the thread has produced one, else the last seen.
    pub fn get_last_command(&mut self) -> (r: &ControllerOutput)
        ensures
            *r == final(self).inner.last,
    {
        self.inner.get_latest()
    }

    /// Signal the polling thread to stop; safe to repeat.
    pub fn stop(&self) {
        let _ = send_stop(&self.stop_tx);
    }
}

} // verus!
