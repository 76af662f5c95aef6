use linefollower::car::{Car, Pose};
use linefollower::controller::{Controller, ControllerOutput, PIDController, SimpleController};
use linefollower::path::{Path, Point};
use linefollower::trig::{cos_fx, sin_fx};

#[test]
fn trig_axis_values() {
    assert_eq!(sin_fx(0), 0);
    assert_eq!(cos_fx(0), 1000);
    assert_eq!(sin_fx(1571), 1000);
    assert_eq!(sin_fx(3142), 0);
    assert_eq!(cos_fx(3142), -1000);
    assert_eq!(sin_fx(-1571), -1000);
    assert_eq!(sin_fx(6284), 0);
    assert_eq!(sin_fx(6284 + 1571), 1000);
}

#[test]
fn trig_stays_in_range() {
    let mut a: i64 = -7000;
    while a <= 7000 {
        assert!(-1000 <= sin_fx(a) && sin_fx(a) <= 1000);
        assert!(-1000 <= cos_fx(a) && cos_fx(a) <= 1000);
        a += 13;
    }
}

#[test]
fn straight_step_moves_forward_exactly() {
    let mut p = Pose { x: 0, y: 0, orientation: 0 };
    // Full duty both wheels for one second: 300 px straight along +x.
    p.step(1000, 1000, 1000);
    assert_eq!(p, Pose { x: 300_000, y: 0, orientation: 0 });
}

#[test]
fn equal_motors_keep_orientation() {
    let mut p = Pose { x: 0, y: 0, orientation: 12_345 };
    p.step(700, 700, 997);
    assert_eq!(p.orientation, 12_345);
    p.step(3, 3, 500_000);
    assert_eq!(p.orientation, 12_345);
}

#[test]
fn full_left_turn_increases_orientation_each_step() {
    let mut p = Pose { x: 0, y: 0, orientation: 0 };
    let mut prev = p.orientation;
    for _ in 0..10 {
        p.step(1000, 0, 50);
        assert!(p.orientation > prev);
        prev = p.orientation;
    }
    // (1000 - 0) * 50 / 800 = 62 milliradians per step.
    assert_eq!(p.orientation, 620);
}

#[test]
fn full_right_turn_decreases_orientation() {
    let mut p = Pose { x: 0, y: 0, orientation: 0 };
    p.step(0, 1000, 800);
    assert_eq!(p.orientation, -1000);
}

#[test]
fn orientation_saturates_at_model_bound() {
    // The orientation is never wrapped; it only saturates at the edge of
    // the fixed-point model's range.
    let mut p = Pose { x: 0, y: 0, orientation: 1_000_000_000_000 };
    p.step(1000, 0, 800);
    assert_eq!(p.orientation, 1_000_000_000_000);
}

#[test]
fn car_new_starts_at_canonical_pose() {
    let c = Car::new();
    assert_eq!(c.pose, Pose { x: 0, y: 100_000, orientation: 0 });
    assert!(!c.left_sensor_on_line);
    assert!(!c.right_sensor_on_line);
    assert_eq!(c.sensor_elapsed_ms, 0);
    assert_eq!(c.last_controller_output, ControllerOutput::new(0, 0));
}

fn left_sensor_line() -> Path {
    // A horizontal line 10 px below the car's left sensor, which starts
    // at (120, 50) pixels; the right sensor at (120, 150) is far away.
    Path::new(vec![Point::new(100_000, 40_000), Point::new(200_000, 40_000)]).unwrap()
}

#[test]
fn sensors_not_resampled_within_interval() {
    let path = left_sensor_line();
    let mut ctrl = Controller::Simple(SimpleController::new());
    let mut car = Car::new();
    // Five ticks of 10 ms: the accumulated time never exceeds the 50 ms
    // interval, so the readings stay at their initial values even though
    // the left sensor sits over the line.
    for i in 0..5 {
        car.update(10, &path, &mut ctrl);
        assert!(!car.left_sensor_on_line);
        assert!(!car.right_sensor_on_line);
        assert_eq!(car.sensor_elapsed_ms, 10 * (i + 1));
        assert_eq!(car.last_controller_output, ControllerOutput::new(0, 0));
    }
    // The applied output was (0, 0) throughout: the car has not moved.
    assert_eq!(car.pose, Pose { x: 0, y: 100_000, orientation: 0 });
    // One more tick pushes the accumulated time to 60 ms: a sample is
    // taken and the left sensor reads the line.
    car.update(10, &path, &mut ctrl);
    assert!(car.left_sensor_on_line);
    assert!(!car.right_sensor_on_line);
    assert_eq!(car.sensor_elapsed_ms, 0);
    // The controller saw left-only and stopped the left wheel.
    assert_eq!(car.last_controller_output, ControllerOutput::new(0, 1000));
}

#[test]
fn controller_not_consulted_between_samples() {
    let path = left_sensor_line();
    let mut ctrl = Controller::Pid(PIDController::new(0, 1000, 0, 500));
    let mut car = Car::new();
    car.update(10, &path, &mut ctrl);
    if let Controller::Pid(p) = &ctrl {
        // No sample was taken, so the PID state is untouched.
        assert_eq!(p.integral, 0);
        assert_eq!(p.prev_error, 0);
    } else {
        panic!("variant changed");
    }
    car.update(51, &path, &mut ctrl);
    if let Controller::Pid(p) = &ctrl {
        // A sample was taken with the accumulated 61 ms at error +1.
        assert_eq!(p.integral, 61);
        assert_eq!(p.prev_error, 1000);
    } else {
        panic!("variant changed");
    }
}

#[test]
fn car_drives_straight_on_centered_line() {
    // A line along the car's own axis: both sensors sit exactly at the
    // edge distance of 50 px (radius 20 + half width 30), so both read
    // on-line and the simple controller goes straight.
    let path = Path::new(vec![Point::new(0, 100_000), Point::new(9_000_000, 100_000)]).unwrap();
    let mut ctrl = Controller::Simple(SimpleController::new());
    let mut car = Car::new();
    car.update(60, &path, &mut ctrl);
    assert!(car.left_sensor_on_line);
    assert!(car.right_sensor_on_line);
    assert_eq!(car.last_controller_output, ControllerOutput::new(1000, 1000));
    // cos(0) * (1000 + 1000) * 60 ms * 3 / 20000 = 18 px forward.
    assert_eq!(car.pose, Pose { x: 18_000, y: 100_000, orientation: 0 });
}

#[test]
fn centered_run_is_deterministic() {
    // One hundred 25 ms ticks on the centered line.  The first sample
    // falls on the third tick (75 ms accumulated); from then on the car
    // runs straight at full duty: 300 px/s for 25 ms is exactly 7.5 px
    // per tick, for the 98 ticks with a nonzero applied output.
    let path = Path::new(vec![Point::new(0, 100_000), Point::new(9_000_000, 100_000)]).unwrap();
    let mut ctrl = Controller::Simple(SimpleController::new());
    let mut car = Car::new();
    for _ in 0..100 {
        car.update(25, &path, &mut ctrl);
    }
    assert_eq!(car.pose, Pose { x: 98 * 7_500, y: 100_000, orientation: 0 });
}

#[test]
fn pid_output_clamped_when_applied() {
    // A huge derivative kick sends the raw PID output far below zero;
    // the applied output is clamped to [0, 1000] at the car boundary.
    let path = left_sensor_line();
    let mut ctrl = Controller::Pid(PIDController::new(0, 0, 1000, 1000));
    let mut car = Car::new();
    car.update(60, &path, &mut ctrl);
    assert!(car.left_sensor_on_line);
    let out = car.last_controller_output;
    assert!(0 <= out.left_motor && out.left_motor <= 1000);
    assert!(0 <= out.right_motor && out.right_motor <= 1000);
    assert_eq!(out, ControllerOutput::new(0, 1000));
}
