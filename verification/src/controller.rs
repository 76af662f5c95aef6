//! The controller family: maps the two boolean line-sensor readings and
//! the elapsed time to a pair of motor duty commands.
//!
//! Four interchangeable variants share the single `get_output` capability:
//! - `ConservativeController`: pure combinational logic, no state;
//! - `SimpleController`: the same decisions plus edge memory, so that
//!   losing the line keeps the vehicle turning toward where it last was;
//! - `TimeCorrectingController`: a graduated turn whose sharpness grows
//!   with the time spent off the centerline;
//! - `PIDController`: a discrete PID loop over the three-valued sensor
//!   error, with an anti-windup clamp on the integral term.

use vstd::prelude::*;

use crate::{clamp_i64, clamp_spec, div_fx, div_trunc, SCALE};

verus! {

/// Largest gain magnitude (`kp`, `ki`, `kd`) the PID controller accepts,
/// in fixed-point: one thousand times the dimensionless gain.
pub const GAIN_LIMIT: i64 = 1_000_000;

/// Largest anti-windup bound the PID controller accepts, in fixed-point
/// error-seconds (equivalently, milliseconds spent at full error).
pub const INTEGRAL_LIMIT: i64 = 1_000_000_000;

/// Largest elapsed time, in milliseconds, a controller accepts per call.
pub const DT_LIMIT: i64 = 2_000_000;

/// Largest time bound the time-correcting controller accepts, in
/// milliseconds.
pub const MAX_TIME_LIMIT: i64 = 1_000_000;

/// A pair of motor duty commands.  `SCALE` is full speed ahead on that
/// wheel, `0` is stopped.  Values are meaningful in `[0, SCALE]`; the
/// PID controller may emit values outside that range, which the caller
/// clamps at the point where the output is applied.
#[derive(Clone, Copy, PartialEq, Eq, Structural, Debug)]
pub struct ControllerOutput {
    pub left_motor: i64,
    pub right_motor: i64,
}

impl ControllerOutput {
    pub fn new(left_motor: i64, right_motor: i64) -> (o: ControllerOutput)
        ensures
            o.left_motor == left_motor,
            o.right_motor == right_motor,
    {
        ControllerOutput { left_motor, right_motor }
    }

    /// Both duties lie in the meaningful range `[0, SCALE]`.
    pub open spec fn in_range(self) -> bool {
        &&& 0 <= self.left_motor <= SCALE
        &&& 0 <= self.right_motor <= SCALE
    }
}

/// The hard steering decision shared by the discrete controllers: a
/// single-sided reading stops the wheel on that side to turn back toward
/// the line, anything else means full speed ahead.
pub open spec fn hard_output(left: bool, right: bool) -> ControllerOutput {
    if left && !right {
        ControllerOutput { left_motor: 0, right_motor: SCALE }
    } else if right && !left {
        ControllerOutput { left_motor: SCALE, right_motor: 0 }
    } else {
        ControllerOutput { left_motor: SCALE, right_motor: SCALE }
    }
}

/// Edge memory update: a tick with at least one sensor on the line
/// overwrites the memory with the current reading, kept mutually
/// exclusive; a tick with both sensors off the line leaves it unchanged.
pub open spec fn edge_update(
    last_left: bool,
    last_right: bool,
    left: bool,
    right: bool,
) -> (bool, bool) {
    if left || right {
        (left && !right, right && !left)
    } else {
        (last_left, last_right)
    }
}

/// The reading a memory-carrying controller acts on: the current one if
/// any sensor is on the line, otherwise the remembered edge.
pub open spec fn effective_reading(
    last_left: bool,
    last_right: bool,
    left: bool,
    right: bool,
) -> (bool, bool) {
    if left || right {
        (left, right)
    } else {
        (last_left, last_right)
    }
}

/// Pure combinational controller: no memory at all.  Losing the line on
/// both sensors means full speed straight ahead.
#[derive(Clone, Copy, PartialEq, Eq, Structural, Debug)]
pub struct ConservativeController {}

impl ConservativeController {
    pub fn new() -> (c: ConservativeController) {
        ConservativeController {}
    }

    pub fn get_output(&mut self, left: bool, right: bool, _dt_ms: i64) -> (out: ControllerOutput)
        ensures
            out == hard_output(left, right),
            out.in_range(),
    {
        if left && !right {
            ControllerOutput::new(0, SCALE)
        } else if right && !left {
            ControllerOutput::new(SCALE, 0)
        } else {
            ControllerOutput::new(SCALE, SCALE)
        }
    }
}

/// The combinational controller refined with edge memory: when both
/// sensors leave the line it reuses the most recent single-sided reading
/// instead of defaulting to straight ahead.
#[derive(Clone, Copy, PartialEq, Eq, Structural, Debug)]
pub struct SimpleController {
    pub last_left: bool,
    pub last_right: bool,
}

/// State of the edge memory after a tick.
pub open spec fn simple_after(c: SimpleController, left: bool, right: bool) -> SimpleController {
    let e = edge_update(c.last_left, c.last_right, left, right);
    SimpleController { last_left: e.0, last_right: e.1 }
}

/// Output of the edge-memory controller for a tick.
pub open spec fn simple_output(c: SimpleController, left: bool, right: bool) -> ControllerOutput {
    let e = effective_reading(c.last_left, c.last_right, left, right);
    hard_output(e.0, e.1)
}

impl SimpleController {
    /// The remembered edge is single-sided: never both sides at once.
    pub open spec fn wf(self) -> bool {
        !(self.last_left && self.last_right)
    }

    pub fn new() -> (c: SimpleController)
        ensures
            c.last_left == false,
            c.last_right == false,
            c.wf(),
    {
        SimpleController { last_left: false, last_right: false }
    }

    pub fn get_output(&mut self, left: bool, right: bool, _dt_ms: i64) -> (out: ControllerOutput)
        requires
            old(self).wf(),
        ensures
            *final(self) == simple_after(*old(self), left, right),
            out == simple_output(*old(self), left, right),
            out.in_range(),
            final(self).wf(),
            (left || right) ==> !(final(self).last_left && final(self).last_right),
    {
        if !left && !right {
            if self.last_left {
                return ControllerOutput::new(0, SCALE);
            } else if self.last_right {
                return ControllerOutput::new(SCALE, 0);
            } else {
                return ControllerOutput::new(SCALE, SCALE);
            }
        }
        self.last_left = left && !right;
        self.last_right = right && !left;
        if left && !right {
            return ControllerOutput::new(0, SCALE);
        }
        if right && !left {
            return ControllerOutput::new(SCALE, 0);
        }
        ControllerOutput::new(SCALE, SCALE)
    }
}

/// Controller that accumulates the time spent off the centerline and
/// turns the harder the longer the line has been lost to one side.
#[derive(Clone, Copy, PartialEq, Eq, Structural, Debug)]
pub struct TimeCorrectingController {
    /// Milliseconds spent with at least one sensor off the line,
    /// saturated at `max_time`.
    pub time_off_line: i64,
    /// Time horizon: after this many milliseconds off the centerline the
    /// turn response reaches its sharpest.
    pub max_time: i64,
}

/// Accumulated off-line time after a tick: reset when both sensors are on
/// the line, otherwise grown by the elapsed time and saturated.
pub open spec fn tc_time_after(c: TimeCorrectingController, left: bool, right: bool, dt: int) -> int {
    if left && right {
        0
    } else {
        clamp_spec(c.time_off_line + dt, 0, c.max_time as int)
    }
}

/// Graduated error in `[0, SCALE]`: the saturated share of the time
/// horizon already spent off the centerline.
pub open spec fn tc_error(time: int, max_time: int) -> int {
    (time * SCALE) / max_time
}

/// Output of the time-correcting controller: a single-sided reading slows
/// the wheel on that side to `SCALE - error` instead of stopping it.
pub open spec fn tc_output(c: TimeCorrectingController, left: bool, right: bool, dt: int) -> ControllerOutput {
    let e = tc_error(tc_time_after(c, left, right, dt), c.max_time as int);
    if left && !right {
        ControllerOutput { left_motor: (SCALE - e) as i64, right_motor: SCALE }
    } else if right && !left {
        ControllerOutput { left_motor: SCALE, right_motor: (SCALE - e) as i64 }
    } else {
        ControllerOutput { left_motor: SCALE, right_motor: SCALE }
    }
}

impl TimeCorrectingController {
    pub open spec fn wf(self) -> bool {
        &&& 1 <= self.max_time <= MAX_TIME_LIMIT
        &&& 0 <= self.time_off_line <= self.max_time
    }

    pub fn new(max_time: i64) -> (c: TimeCorrectingController)
        requires
            1 <= max_time <= MAX_TIME_LIMIT,
        ensures
            c.time_off_line == 0,
            c.max_time == max_time,
            c.wf(),
    {
        TimeCorrectingController { time_off_line: 0, max_time }
    }

    pub fn get_output(&mut self, left: bool, right: bool, dt_ms: i64) -> (out: ControllerOutput)
        requires
            old(self).wf(),
            0 <= dt_ms <= DT_LIMIT,
        ensures
            final(self).max_time == old(self).max_time,
            final(self).time_off_line == tc_time_after(*old(self), left, right, dt_ms as int),
            out == tc_output(*old(self), left, right, dt_ms as int),
            final(self).wf(),
            out.in_range(),
    {
        if left && right {
            self.time_off_line = 0;
        } else {
            self.time_off_line = clamp_i64(self.time_off_line + dt_ms, 0, self.max_time);
        }
        let e = (self.time_off_line * SCALE) / self.max_time;
        proof {
            vstd::arithmetic::div_mod::lemma_div_pos_is_pos(
                self.time_off_line * SCALE,
                self.max_time as int,
            );
            vstd::arithmetic::div_mod::lemma_div_is_ordered(
                self.time_off_line * SCALE,
                self.max_time * SCALE,
                self.max_time as int,
            );
            vstd::arithmetic::div_mod::lemma_div_multiples_vanish(
                SCALE as int,
                self.max_time as int,
            );
        }
        if left && !right {
            ControllerOutput::new(SCALE - e, SCALE)
        } else if right && !left {
            ControllerOutput::new(SCALE, SCALE - e)
        } else {
            ControllerOutput::new(SCALE, SCALE)
        }
    }
}

/// Discrete PID controller over the three-valued sensor error: left-only
/// is `+1`, right-only is `-1`, anything else is `0` (falling back to the
/// remembered edge when both sensors are off the line).  The integral
/// term is clamped to `[-max_i, max_i]` (anti-windup).  The derivative
/// term is computed faithfully but is noise-dominated by design, since
/// the error only ever takes three values; a `kd` of zero is the
/// recommended configuration.
#[derive(Clone, Copy, PartialEq, Eq, Structural, Debug)]
pub struct PIDController {
    pub kp: i64,
    pub ki: i64,
    pub kd: i64,
    /// Anti-windup bound, in milliseconds spent at full error.
    pub max_i: i64,
    /// Previous tick's error, in fixed-point (`-SCALE`, `0` or `SCALE`).
    pub prev_error: i64,
    /// Clamped integral accumulator, in milliseconds at full error.
    pub integral: i64,
    pub last_left: bool,
    pub last_right: bool,
}

/// The three-valued sensor error, in fixed-point.
pub open spec fn pid_error(left: bool, right: bool) -> int {
    (SCALE as int) * pid_error_sign(left, right)
}

/// The sign of the sensor error: `+1` for left-only, `-1` for right-only,
/// `0` otherwise.
pub open spec fn pid_error_sign(left: bool, right: bool) -> int {
    if left && !right {
        1
    } else if right && !left {
        -1
    } else {
        0
    }
}

/// Integral accumulator after a PID update: grown by the signed elapsed
/// time and clamped to the anti-windup bound.
pub open spec fn pid_integral_after(c: PIDController, left: bool, right: bool, dt: int) -> int {
    clamp_spec(
        c.integral + pid_error_sign(left, right) * dt,
        -(c.max_i as int),
        c.max_i as int,
    )
}

/// The unscaled PID sum `kp * e + ki * i + kd * d`, over fixed-point
/// factors; dividing by `SCALE` yields the control value.
pub open spec fn pid_raw_output(c: PIDController, left: bool, right: bool, dt: int) -> int {
    let e = pid_error(left, right);
    let i = pid_integral_after(c, left, right, dt);
    let d = div_fx((e - c.prev_error) * SCALE, dt);
    c.kp * e + c.ki * i + c.kd * d
}

/// The PID control value for a tick, in fixed-point.  A positive value
/// attenuates the left wheel, a negative one the right wheel.
pub open spec fn pid_control_value(c: PIDController, left: bool, right: bool, dt: int) -> int {
    div_fx(pid_raw_output(c, left, right, dt), SCALE as int)
}

/// PID state after one internal update (integral and previous error move;
/// gains and edge memory do not).
pub open spec fn pid_after_update(c: PIDController, left: bool, right: bool, dt: int) -> PIDController {
    PIDController {
        integral: pid_integral_after(c, left, right, dt) as i64,
        prev_error: pid_error(left, right) as i64,
        ..c
    }
}

/// Full PID tick: with both sensors off the line the update runs on the
/// remembered edge and the output falls back to the hard decision for
/// that edge; otherwise the edge memory is refreshed, the update runs on
/// the current reading, and the sign of the control value picks which
/// wheel to attenuate.  Neither wheel is clamped here: that is the
/// caller's responsibility.
pub open spec fn pid_step(c: PIDController, left: bool, right: bool, dt: int) -> (
    PIDController,
    ControllerOutput,
) {
    if !left && !right {
        (
            pid_after_update(c, c.last_left, c.last_right, dt),
            hard_output(c.last_left, c.last_right),
        )
    } else {
        let c1 = PIDController { last_left: left && !right, last_right: right && !left, ..c };
        let v = pid_control_value(c1, left, right, dt);
        (
            pid_after_update(c1, left, right, dt),
            if v > 0 {
                ControllerOutput { left_motor: (SCALE - v) as i64, right_motor: SCALE }
            } else {
                ControllerOutput { left_motor: SCALE, right_motor: (SCALE + v) as i64 }
            },
        )
    }
}

impl PIDController {
    pub open spec fn wf(self) -> bool {
        &&& -GAIN_LIMIT <= self.kp <= GAIN_LIMIT
        &&& -GAIN_LIMIT <= self.ki <= GAIN_LIMIT
        &&& -GAIN_LIMIT <= self.kd <= GAIN_LIMIT
        &&& 0 <= self.max_i <= INTEGRAL_LIMIT
        &&& -self.max_i <= self.integral <= self.max_i
        &&& -SCALE <= self.prev_error <= SCALE
        &&& !(self.last_left && self.last_right)
    }

    pub fn new(kp: i64, ki: i64, kd: i64, max_i: i64) -> (c: PIDController)
        requires
            -GAIN_LIMIT <= kp <= GAIN_LIMIT,
            -GAIN_LIMIT <= ki <= GAIN_LIMIT,
            -GAIN_LIMIT <= kd <= GAIN_LIMIT,
            0 <= max_i <= INTEGRAL_LIMIT,
        ensures
            c == (PIDController {
                kp,
                ki,
                kd,
                max_i,
                prev_error: 0,
                integral: 0,
                last_left: false,
                last_right: false,
            }),
            c.wf(),
    {
        PIDController {
            kp,
            ki,
            kd,
            max_i,
            prev_error: 0,
            integral: 0,
            last_left: false,
            last_right: false,
        }
    }

    /// One internal PID update; returns the control value.
    #[verifier::rlimit(50)]
    #[verifier::spinoff_prover]
    fn update_pid(&mut self, left: bool, right: bool, dt_ms: i64) -> (v: i64)
        requires
            old(self).wf(),
            1 <= dt_ms <= DT_LIMIT,
        ensures
            *final(self) == pid_after_update(*old(self), left, right, dt_ms as int),
            v == pid_control_value(*old(self), left, right, dt_ms as int),
            final(self).wf(),
            -1_100_000_000_000_000 <= v <= 1_100_000_000_000_000,
    {
        let error: i64 = if left && !right {
            SCALE
        } else if right && !left {
            -SCALE
        } else {
            0
        };
        let delta: i64 = if left && !right {
            dt_ms
        } else if right && !left {
            -dt_ms
        } else {
            0
        };
        self.integral = clamp_i64(self.integral + delta, -self.max_i, self.max_i);
        let derivative = div_trunc((error - self.prev_error) * SCALE, dt_ms);
        proof {
            assert(-2_000_000 <= derivative <= 2_000_000) by {
                let num = (error - self.prev_error) * SCALE;
                assert(-2_000_000 <= num <= 2_000_000);
                if num >= 0 {
                    vstd::arithmetic::div_mod::lemma_div_pos_is_pos(num as int, dt_ms as int);
                    vstd::arithmetic::div_mod::lemma_div_is_ordered(
                        num as int,
                        2_000_000,
                        dt_ms as int,
                    );
                    vstd::arithmetic::div_mod::lemma_div_is_ordered(num as int, num as int, 1);
                    vstd::arithmetic::div_mod::lemma_div_nonincreasing(num as int, dt_ms as int);
                } else {
                    vstd::arithmetic::div_mod::lemma_div_pos_is_pos(-num as int, dt_ms as int);
                    vstd::arithmetic::div_mod::lemma_div_nonincreasing(-num as int, dt_ms as int);
                }
            };
            assert(-1_000_000_000 <= self.kp * error <= 1_000_000_000 && -((GAIN_LIMIT as int)
                * (INTEGRAL_LIMIT as int)) <= self.ki * self.integral <= (GAIN_LIMIT as int)
                * (INTEGRAL_LIMIT as int) && -2_000_000_000_000 <= self.kd * derivative
                <= 2_000_000_000_000) by (nonlinear_arith)
                requires
                    -1_000_000 <= self.kp <= 1_000_000,
                    -1_000_000 <= self.ki <= 1_000_000,
                    -1_000_000 <= self.kd <= 1_000_000,
                    -1000 <= error <= 1000,
                    -1_000_000_000 <= self.integral <= 1_000_000_000,
                    -2_000_000 <= derivative <= 2_000_000,
            ;
        }
        let raw = self.kp * error + self.ki * self.integral + self.kd * derivative;
        let v = div_trunc(raw, SCALE);
        proof {
            let b: int = 1_000_000_000_000_000int + 1_000_000_000int + 2_000_000_000_000int;
            assert(-b <= raw <= b);
            if raw >= 0 {
                vstd::arithmetic::div_mod::lemma_div_pos_is_pos(raw as int, SCALE as int);
                vstd::arithmetic::div_mod::lemma_div_nonincreasing(raw as int, SCALE as int);
            } else {
                vstd::arithmetic::div_mod::lemma_div_pos_is_pos(-raw as int, SCALE as int);
                vstd::arithmetic::div_mod::lemma_div_nonincreasing(-raw as int, SCALE as int);
            }
        }
        self.prev_error = error;
        proof {
            assert(self.integral == pid_integral_after(*old(self), left, right, dt_ms as int));
            assert(raw == pid_raw_output(*old(self), left, right, dt_ms as int));
            assert(v == pid_control_value(*old(self), left, right, dt_ms as int));
        }
        v
    }

    pub fn get_output(&mut self, left: bool, right: bool, dt_ms: i64) -> (out: ControllerOutput)
        requires
            old(self).wf(),
            1 <= dt_ms <= DT_LIMIT,
        ensures
            ({
                let (c2, o) = pid_step(*old(self), left, right, dt_ms as int);
                *final(self) == c2 && out == o
            }),
            final(self).wf(),
            -(old(self).max_i as int) <= final(self).integral <= old(self).max_i as int,
            (left || right) ==> !(final(self).last_left && final(self).last_right),
    {
        if !left && !right {
            let ll = self.last_left;
            let lr = self.last_right;
            let _ = self.update_pid(ll, lr, dt_ms);
            if ll {
                return ControllerOutput::new(0, SCALE);
            } else if lr {
                return ControllerOutput::new(SCALE, 0);
            } else {
                return ControllerOutput::new(SCALE, SCALE);
            }
        }
        self.last_left = left && !right;
        self.last_right = right && !left;
        let v = self.update_pid(left, right, dt_ms);
        if v > 0 {
            ControllerOutput::new(SCALE - v, SCALE)
        } else {
            ControllerOutput::new(SCALE, SCALE + v)
        }
    }
}

/// The polymorphic controller family: one tagged variant per algorithm,
/// dispatching the shared `get_output` capability.
pub enum Controller {
    Conservative(ConservativeController),
    Simple(SimpleController),
    TimeCorrecting(TimeCorrectingController),
    Pid(PIDController),
}

/// What one controller tick yields: the successor state and the output.
pub open spec fn controller_step(c: Controller, left: bool, right: bool, dt: int) -> (
    Controller,
    ControllerOutput,
) {
    match c {
        Controller::Conservative(k) => (c, hard_output(left, right)),
        Controller::Simple(s) => (
            Controller::Simple(simple_after(s, left, right)),
            simple_output(s, left, right),
        ),
        Controller::TimeCorrecting(t) => (
            Controller::TimeCorrecting(
                TimeCorrectingController {
                    time_off_line: tc_time_after(t, left, right, dt) as i64,
                    max_time: t.max_time,
                },
            ),
            tc_output(t, left, right, dt),
        ),
        Controller::Pid(p) => {
            let (p2, o) = pid_step(p, left, right, dt);
            (Controller::Pid(p2), o)
        },
    }
}

impl Controller {
    pub open spec fn wf(self) -> bool {
        match self {
            Controller::Conservative(_) => true,
            Controller::Simple(s) => s.wf(),
            Controller::TimeCorrecting(t) => t.wf(),
            Controller::Pid(p) => p.wf(),
        }
    }

    /// One controller tick: feeds the readings and the elapsed time to
    /// the active variant, mutating its state.
    pub fn get_output(&mut self, left: bool, right: bool, dt_ms: i64) -> (out: ControllerOutput)
        requires
            old(self).wf(),
            1 <= dt_ms <= DT_LIMIT,
        ensures
            ({
                let (c2, o) = controller_step(*old(self), left, right, dt_ms as int);
                *final(self) == c2 && out == o
            }),
            final(self).wf(),
    {
        match self {
            Controller::Conservative(k) => k.get_output(left, right, dt_ms),
            Controller::Simple(s) => s.get_output(left, right, dt_ms),
            Controller::TimeCorrecting(t) => t.get_output(left, right, dt_ms),
            Controller::Pid(p) => p.get_output(left, right, dt_ms),
        }
    }

    /// Descriptive label of the active variant, for annotation.
    pub fn get_name(&self) -> (name: String)
        ensures
            self is Conservative ==> name@ == "ConservativeController"@,
            self is Simple ==> name@ == "SimpleController"@,
            self is TimeCorrecting ==> name@ == "TimeCorrectingController"@,
            self is Pid ==> name@ == "PIDController"@,
    {
        match self {
            Controller::Conservative(_) => String::from_str("ConservativeController"),
            Controller::Simple(_) => String::from_str("SimpleController"),
            Controller::TimeCorrecting(_) => String::from_str("TimeCorrectingController"),
            Controller::Pid(_) => String::from_str("PIDController"),
        }
    }
}

} // verus!
