//! The simulated vehicle: differential-drive kinematics, the rate-limited
//! sensor model, and the per-tick orchestration that couples controller
//! re-evaluation to the sensor sampling rate.
//!
//! Derived divisors, from `CAR_SPEED` = 300 thousandths of a pixel per
//! millisecond at full duty, a wheel base of 240 pixels and `SCALE` =
//! 1000:
//! - angular rate: `d_orientation = (left - right) * dt / TURN_DIVISOR`
//!   milliradians, with `TURN_DIVISOR = WHEEL_DISTANCE / CAR_SPEED = 800`;
//! - displacement: `d_x = cos * (left + right) * dt * 3 / POS_DIVISOR`
//!   with `POS_DIVISOR = 20_000`, the exact reduction of
//!   `CAR_SPEED / (2 * SCALE * SCALE)` to lowest terms.

use vstd::prelude::*;

use crate::controller::{Controller, ControllerOutput, controller_step, DT_LIMIT};
use crate::path::{path_hit, Path, Point};
use crate::trig::{cos_fx, cos_spec, sin_fx, sin_spec, ANGLE_LIMIT};
use crate::{clamp_i64, clamp_spec, div_fx, div_trunc, lemma_div_fx_bounds};
use crate::{HALF_LINE_WIDTH, SCALE, SENSOR_RADIUS};

verus! {

/// Full-duty speed, in thousandths of a pixel per millisecond.
pub const CAR_SPEED: i64 = 300;

/// Distance between the two wheels, in thousandths of a pixel.
pub const WHEEL_DISTANCE: i64 = 240_000;

/// `WHEEL_DISTANCE / CAR_SPEED`: divisor of the angular-rate update.
pub const TURN_DIVISOR: i64 = 800;

/// `2 * SCALE * SCALE / CAR_SPEED / 3`: divisor of the displacement
/// update (paired with a factor of 3 in the numerator).
pub const POS_DIVISOR: i64 = 20_000;

/// Sensor (and controller) sampling interval, in milliseconds: twenty
/// samples per second.
pub const UPDATE_INTERVAL_MS: i64 = 50;

/// Largest elapsed time one simulation tick accepts, in milliseconds.
pub const TICK_LIMIT_MS: i64 = 1_000_000;

/// Largest position magnitude, in thousandths of a pixel; the pose
/// saturates here, comfortably inside what the geometry can measure.
pub const POS_LIMIT: i64 = 10_000_000;

/// Largest orientation magnitude, in milliradians.  The orientation is
/// deliberately never wrapped to one turn; it saturates only at this
/// astronomically large bound.
pub const ORIENT_LIMIT: i64 = 1_000_000_000_000;

/// Body-frame x of both sensors: half the wheel base ahead of the axle.
pub const SENSOR_OFFSET_X: i64 = 120_000;

/// Body-frame y magnitude of the sensors: half the sensor spacing to
/// either side.
pub const SENSOR_OFFSET_Y: i64 = 50_000;

/// Position (in thousandths of a pixel) and orientation (in
/// milliradians, unbounded and never wrapped) of the vehicle.
#[derive(Clone, Copy, PartialEq, Eq, Structural, Debug)]
pub struct Pose {
    pub x: i64,
    pub y: i64,
    pub orientation: i64,
}

/// Orientation after one kinematic step: the wheel-speed difference
/// times the elapsed time over the wheel base, saturated.
pub open spec fn step_orientation(p: Pose, left_motor: int, right_motor: int, dt: int) -> int {
    clamp_spec(
        p.orientation + div_fx((left_motor - right_motor) * dt, TURN_DIVISOR as int),
        -ORIENT_LIMIT as int,
        ORIENT_LIMIT as int,
    )
}

/// x after one kinematic step: the mean wheel speed along the cosine of
/// the already-updated orientation, saturated.
pub open spec fn step_x(p: Pose, left_motor: int, right_motor: int, dt: int) -> int {
    let o2 = step_orientation(p, left_motor, right_motor, dt);
    clamp_spec(
        p.x + div_fx(cos_spec(o2) * (left_motor + right_motor) * dt * 3, POS_DIVISOR as int),
        -POS_LIMIT as int,
        POS_LIMIT as int,
    )
}

/// y after one kinematic step, along the sine of the updated orientation.
pub open spec fn step_y(p: Pose, left_motor: int, right_motor: int, dt: int) -> int {
    let o2 = step_orientation(p, left_motor, right_motor, dt);
    clamp_spec(
        p.y + div_fx(sin_spec(o2) * (left_motor + right_motor) * dt * 3, POS_DIVISOR as int),
        -POS_LIMIT as int,
        POS_LIMIT as int,
    )
}

impl Pose {
    pub open spec fn wf(self) -> bool {
        &&& -POS_LIMIT <= self.x <= POS_LIMIT
        &&& -POS_LIMIT <= self.y <= POS_LIMIT
        &&& -ORIENT_LIMIT <= self.orientation <= ORIENT_LIMIT
    }

    /// One step of the differential-drive integrator.  The motor duties
    /// are expected already clamped to `[0, SCALE]`: clamping happens
    /// upstream, where a controller output is applied.
    pub fn step(&mut self, left_motor: i64, right_motor: i64, dt_ms: i64)
        requires
            old(self).wf(),
            0 <= left_motor <= SCALE,
            0 <= right_motor <= SCALE,
            0 <= dt_ms <= DT_LIMIT,
        ensures
            final(self).orientation == step_orientation(
                *old(self),
                left_motor as int,
                right_motor as int,
                dt_ms as int,
            ),
            final(self).x == step_x(*old(self), left_motor as int, right_motor as int, dt_ms as int),
            final(self).y == step_y(*old(self), left_motor as int, right_motor as int, dt_ms as int),
            final(self).wf(),
    {
        let diff = left_motor - right_motor;
        proof {
            assert(-2_000_000_000 <= diff * dt_ms <= 2_000_000_000) by (nonlinear_arith)
                requires
                    -1000 <= diff <= 1000,
                    0 <= dt_ms <= 2_000_000,
            ;
            lemma_div_fx_bounds((diff * dt_ms) as int, TURN_DIVISOR as int, 2_000_000_000);
        }
        let dtheta = div_trunc(diff * dt_ms, TURN_DIVISOR);
        self.orientation = clamp_i64(self.orientation + dtheta, -ORIENT_LIMIT, ORIENT_LIMIT);
        let c = cos_fx(self.orientation);
        let s = sin_fx(self.orientation);
        let sum = left_motor + right_motor;
        proof {
            assert(-2_000_000 <= c * sum <= 2_000_000 && -2_000_000 <= s * sum <= 2_000_000
                && -4_000_000_000_000 <= (c * sum) * dt_ms <= 4_000_000_000_000
                && -4_000_000_000_000 <= (s * sum) * dt_ms <= 4_000_000_000_000) by (nonlinear_arith)
                requires
                    -1000 <= c <= 1000,
                    -1000 <= s <= 1000,
                    0 <= sum <= 2000,
                    0 <= dt_ms <= 2_000_000,
            ;
            lemma_div_fx_bounds((c * sum * dt_ms * 3) as int, POS_DIVISOR as int, 12_000_000_000_000);
            lemma_div_fx_bounds((s * sum * dt_ms * 3) as int, POS_DIVISOR as int, 12_000_000_000_000);
        }
        let dx = div_trunc(c * sum * dt_ms * 3, POS_DIVISOR);
        let dy = div_trunc(s * sum * dt_ms * 3, POS_DIVISOR);
        self.x = clamp_i64(self.x + dx, -POS_LIMIT, POS_LIMIT);
        self.y = clamp_i64(self.y + dy, -POS_LIMIT, POS_LIMIT);
    }
}

/// Driving straight never turns: with equal motor duties a step leaves
/// the orientation exactly unchanged, whatever the elapsed time.
pub proof fn lemma_equal_motors_keep_orientation(p: Pose, m: int, dt: int)
    requires
        p.wf(),
    ensures
        step_orientation(p, m, m, dt) == p.orientation,
{
    assert((m - m) * dt == 0) by (nonlinear_arith);
}

/// Full duty on the left wheel and none on the right turns strictly: each
/// step at a positive elapsed time strictly increases the orientation,
/// until the saturation bound.
pub proof fn lemma_full_turn_increases_orientation(p: Pose, dt: int)
    requires
        p.wf(),
        1 <= dt <= DT_LIMIT,
        p.orientation < ORIENT_LIMIT,
    ensures
        step_orientation(p, SCALE as int, 0, dt) > p.orientation,
{
    let num = (SCALE as int - 0) * dt;
    assert(num == 1000 * dt);
    assert(num >= 1000);
    vstd::arithmetic::div_mod::lemma_div_is_ordered(1000, num, TURN_DIVISOR as int);
    assert(1000int / 800int == 1);
}

/// x component of the body-frame vector `(ox, oy)` rotated by `angle`
/// milliradians, in fixed point.
pub open spec fn rotated_x(ox: int, oy: int, angle: int) -> int {
    div_fx(cos_spec(angle) * ox - sin_spec(angle) * oy, SCALE as int)
}

/// y component of the body-frame vector `(ox, oy)` rotated by `angle`
/// milliradians, in fixed point.
pub open spec fn rotated_y(ox: int, oy: int, angle: int) -> int {
    div_fx(sin_spec(angle) * ox + cos_spec(angle) * oy, SCALE as int)
}

/// Rotates a body-frame vector by `angle` milliradians.
fn rotated_by(v: Point, angle: i64) -> (r: Point)
    requires
        -200_000 <= v.x <= 200_000,
        -200_000 <= v.y <= 200_000,
        -ANGLE_LIMIT <= angle <= ANGLE_LIMIT,
    ensures
        r.x == rotated_x(v.x as int, v.y as int, angle as int),
        r.y == rotated_y(v.x as int, v.y as int, angle as int),
        -400_000 <= r.x <= 400_000,
        -400_000 <= r.y <= 400_000,
{
    let c = cos_fx(angle);
    let s = sin_fx(angle);
    proof {
        assert(-200_000_000 <= c * v.x <= 200_000_000 && -200_000_000 <= s * v.y <= 200_000_000
            && -200_000_000 <= s * v.x <= 200_000_000 && -200_000_000 <= c * v.y
            <= 200_000_000) by (nonlinear_arith)
            requires
                -1000 <= c <= 1000,
                -1000 <= s <= 1000,
                -200_000 <= v.x <= 200_000,
                -200_000 <= v.y <= 200_000,
        ;
        lemma_div_fx_bounds(c * v.x - s * v.y, SCALE as int, 400_000_000);
        lemma_div_fx_bounds(s * v.x + c * v.y, SCALE as int, 400_000_000);
    }
    let rx = div_trunc(c * v.x - s * v.y, SCALE);
    let ry = div_trunc(s * v.x + c * v.y, SCALE);
    Point { x: rx, y: ry }
}

/// A sensor with body-frame offset `(ox, oy)` reads "on line": its
/// world-frame sample point, a disc of radius `SENSOR_RADIUS`, overlaps
/// the path's drawn line.
pub open spec fn sensor_on_line(s: Seq<Point>, pose: Pose, ox: int, oy: int) -> bool {
    path_hit(
        s,
        Point {
            x: (pose.x + rotated_x(ox, oy, pose.orientation as int)) as i64,
            y: (pose.y + rotated_y(ox, oy, pose.orientation as int)) as i64,
        },
        (SENSOR_RADIUS + HALF_LINE_WIDTH) as int,
    )
}

/// Samples one sensor against the path.
fn sample_sensor(path: &Path, pose: Pose, ox: i64, oy: i64) -> (on_line: bool)
    requires
        path.wf(),
        pose.wf(),
        -200_000 <= ox <= 200_000,
        -200_000 <= oy <= 200_000,
    ensures
        on_line == sensor_on_line(path@, pose, ox as int, oy as int),
{
    let off = rotated_by(Point { x: ox, y: oy }, pose.orientation);
    let center = Point { x: pose.x + off.x, y: pose.y + off.y };
    path.intersects_circle(center, SENSOR_RADIUS)
}

/// One simulated vehicle: its pose, the latest (rate-limited) sensor
/// readings, and the controller output currently applied to the wheels.
#[derive(Clone, Copy, PartialEq, Eq, Structural, Debug)]
pub struct Car {
    pub pose: Pose,
    pub left_sensor_on_line: bool,
    pub right_sensor_on_line: bool,
    /// Milliseconds since the last sensor sample was taken.
    pub sensor_elapsed_ms: i64,
    /// The clamped controller output applied every tick between samples.
    pub last_controller_output: ControllerOutput,
}

/// A controller output clamped to the meaningful duty range, as done at
/// the single point where an output is applied to the wheels.
pub open spec fn clamped_output(o: ControllerOutput) -> ControllerOutput {
    ControllerOutput {
        left_motor: clamp_spec(o.left_motor as int, 0, SCALE as int) as i64,
        right_motor: clamp_spec(o.right_motor as int, 0, SCALE as int) as i64,
    }
}

/// Whether a tick of `dt` milliseconds takes a new sensor sample: the
/// accumulated time since the last sample exceeds the sampling interval.
pub open spec fn takes_sample(c: Car, dt: int) -> bool {
    c.sensor_elapsed_ms + dt > UPDATE_INTERVAL_MS
}

impl Car {
    pub open spec fn wf(self) -> bool {
        &&& self.pose.wf()
        &&& 0 <= self.sensor_elapsed_ms <= UPDATE_INTERVAL_MS
        &&& self.last_controller_output.in_range()
    }

    /// A fresh vehicle at the canonical start pose, heading along the
    /// positive x axis, with nothing sensed and the wheels stopped.
    pub fn new() -> (c: Car)
        ensures
            c.pose == (Pose { x: 0, y: 100_000, orientation: 0 }),
            c.left_sensor_on_line == false,
            c.right_sensor_on_line == false,
            c.sensor_elapsed_ms == 0,
            c.last_controller_output == (ControllerOutput { left_motor: 0, right_motor: 0 }),
            c.wf(),
    {
        Car {
            pose: Pose { x: 0, y: 100_000, orientation: 0 },
            left_sensor_on_line: false,
            right_sensor_on_line: false,
            sensor_elapsed_ms: 0,
            last_controller_output: ControllerOutput { left_motor: 0, right_motor: 0 },
        }
    }

    /// One simulation tick.
    ///
    /// When the accumulated time since the last sample exceeds the
    /// sampling interval, both sensors are re-sampled, the controller is
    /// fed the new readings together with the accumulated time, and its
    /// output - clamped to `[0, SCALE]` - becomes the applied output.
    /// Otherwise readings, controller and applied output are left
    /// exactly as they were.  Every tick, sampled or not, advances the
    /// pose by `dt_ms` under the applied output, so motion stays smooth
    /// between samples.
    pub fn update(&mut self, dt_ms: i64, path: &Path, controller: &mut Controller)
        requires
            old(self).wf(),
            path.wf(),
            old(controller).wf(),
            0 <= dt_ms <= TICK_LIMIT_MS,
        ensures
            takes_sample(*old(self), dt_ms as int) ==> ({
                let l = sensor_on_line(
                    path@,
                    old(self).pose,
                    SENSOR_OFFSET_X as int,
                    -SENSOR_OFFSET_Y as int,
                );
                let r = sensor_on_line(
                    path@,
                    old(self).pose,
                    SENSOR_OFFSET_X as int,
                    SENSOR_OFFSET_Y as int,
                );
                let (c2, o) = controller_step(
                    *old(controller),
                    l,
                    r,
                    old(self).sensor_elapsed_ms + dt_ms,
                );
                &&& final(self).left_sensor_on_line == l
                &&& final(self).right_sensor_on_line == r
                &&& *final(controller) == c2
                &&& final(self).last_controller_output == clamped_output(o)
                &&& final(self).sensor_elapsed_ms == 0
            }),
            !takes_sample(*old(self), dt_ms as int) ==> ({
                &&& final(self).left_sensor_on_line == old(self).left_sensor_on_line
                &&& final(self).right_sensor_on_line == old(self).right_sensor_on_line
                &&& *final(controller) == *old(controller)
                &&& final(self).last_controller_output == old(self).last_controller_output
                &&& final(self).sensor_elapsed_ms == old(self).sensor_elapsed_ms + dt_ms
            }),
            final(self).pose == (Pose {
                x: step_x(
                    old(self).pose,
                    final(self).last_controller_output.left_motor as int,
                    final(self).last_controller_output.right_motor as int,
                    dt_ms as int,
                ) as i64,
                y: step_y(
                    old(self).pose,
                    final(self).last_controller_output.left_motor as int,
                    final(self).last_controller_output.right_motor as int,
                    dt_ms as int,
                ) as i64,
                orientation: step_orientation(
                    old(self).pose,
                    final(self).last_controller_output.left_motor as int,
                    final(self).last_controller_output.right_motor as int,
                    dt_ms as int,
                ) as i64,
            }),
            final(self).wf(),
            final(controller).wf(),
    {
        let acc = self.sensor_elapsed_ms + dt_ms;
        if acc > UPDATE_INTERVAL_MS {
            let l = sample_sensor(path, self.pose, SENSOR_OFFSET_X, -SENSOR_OFFSET_Y);
            let r = sample_sensor(path, self.pose, SENSOR_OFFSET_X, SENSOR_OFFSET_Y);
            self.left_sensor_on_line = l;
            self.right_sensor_on_line = r;
            let out = controller.get_output(l, r, acc);
            self.last_controller_output = ControllerOutput {
                left_motor: clamp_i64(out.left_motor, 0, SCALE),
                right_motor: clamp_i64(out.right_motor, 0, SCALE),
            };
            self.sensor_elapsed_ms = 0;
        } else {
            self.sensor_elapsed_ms = acc;
        }
        let applied = self.last_controller_output;
        self.pose.step(applied.left_motor, applied.right_motor, dt_ms);
    }
}

} // verus!
