use linefollower::controller::{
    ConservativeController, Controller, ControllerOutput, PIDController, SimpleController,
    TimeCorrectingController,
};

#[test]
fn controller_output_new_stores_fields() {
    let o = ControllerOutput::new(123, 456);
    assert_eq!(o.left_motor, 123);
    assert_eq!(o.right_motor, 456);
}

#[test]
fn conservative_left_only_stops_left_wheel() {
    let mut c = ConservativeController::new();
    assert_eq!(c.get_output(true, false, 10), ControllerOutput::new(0, 1000));
}

#[test]
fn conservative_other_readings() {
    let mut c = ConservativeController::new();
    assert_eq!(c.get_output(false, true, 10), ControllerOutput::new(1000, 0));
    assert_eq!(c.get_output(true, true, 10), ControllerOutput::new(1000, 1000));
    assert_eq!(c.get_output(false, false, 10), ControllerOutput::new(1000, 1000));
}

#[test]
fn simple_single_sided_readings() {
    let mut c = SimpleController::new();
    assert_eq!(c.get_output(true, false, 10), ControllerOutput::new(0, 1000));
    assert_eq!(c.get_output(false, true, 10), ControllerOutput::new(1000, 0));
    assert_eq!(c.get_output(true, true, 10), ControllerOutput::new(1000, 1000));
}

#[test]
fn simple_edge_memory_reproduces_left_output() {
    let mut c = SimpleController::new();
    assert_eq!(c.get_output(true, false, 10), ControllerOutput::new(0, 1000));
    // Both sensors lost immediately after a left-only tick: the edge
    // memory reproduces the left-only output, not the both-false default.
    assert_eq!(c.get_output(false, false, 10), ControllerOutput::new(0, 1000));
    // And keeps doing so while the line stays lost.
    assert_eq!(c.get_output(false, false, 10), ControllerOutput::new(0, 1000));
}

#[test]
fn simple_without_memory_goes_straight() {
    let mut c = SimpleController::new();
    assert_eq!(c.get_output(false, false, 10), ControllerOutput::new(1000, 1000));
}

#[test]
fn simple_edge_memory_never_both_true() {
    let mut c = SimpleController::new();
    c.get_output(true, true, 10);
    assert!(!(c.last_left && c.last_right));
    c.get_output(true, false, 10);
    assert!(c.last_left && !c.last_right);
    c.get_output(false, false, 10);
    assert!(c.last_left && !c.last_right);
}

#[test]
fn time_correcting_response_sharpens() {
    let mut c = TimeCorrectingController::new(1000);
    // 250 ms off to the left: a quarter of the horizon, so the left
    // wheel runs at 1 - 0.25.
    assert_eq!(c.get_output(true, false, 250), ControllerOutput::new(750, 1000));
    // Another 250 ms: half the horizon.
    assert_eq!(c.get_output(true, false, 250), ControllerOutput::new(500, 1000));
    // Back on the line: the timer resets and the response is straight.
    assert_eq!(c.get_output(true, true, 10), ControllerOutput::new(1000, 1000));
    assert_eq!(c.time_off_line, 0);
}

#[test]
fn time_correcting_saturates_at_horizon() {
    let mut c = TimeCorrectingController::new(1000);
    let out = c.get_output(false, true, 5000);
    assert_eq!(c.time_off_line, 1000);
    assert_eq!(out, ControllerOutput::new(1000, 0));
}

#[test]
fn pid_kp_half_left_only() {
    // kp = 0.5, ki = kd = 0: a left-only reading yields (0.5, 1.0),
    // whatever the elapsed time.
    let mut c = PIDController::new(500, 0, 0, 1000);
    assert_eq!(c.get_output(true, false, 17), ControllerOutput::new(500, 1000));
    let mut c2 = PIDController::new(500, 0, 0, 1000);
    assert_eq!(c2.get_output(true, false, 1234), ControllerOutput::new(500, 1000));
}

#[test]
fn pid_kp_half_right_only() {
    let mut c = PIDController::new(500, 0, 0, 1000);
    assert_eq!(c.get_output(false, true, 17), ControllerOutput::new(1000, 500));
}

#[test]
fn pid_edge_memory_reproduces_left_output() {
    let mut c = PIDController::new(500, 0, 0, 1000);
    assert_eq!(c.get_output(true, false, 10), ControllerOutput::new(500, 1000));
    // Both sensors lost: the hard fallback for the remembered left edge.
    assert_eq!(c.get_output(false, false, 10), ControllerOutput::new(0, 1000));
}

#[test]
fn pid_edge_memory_never_both_true() {
    let mut c = PIDController::new(500, 0, 0, 1000);
    c.get_output(true, true, 10);
    assert!(!(c.last_left && c.last_right));
}

#[test]
fn pid_integral_clamped_positive() {
    // ki only; the error stays at +1 for 100 ticks of 100 ms, which
    // would accumulate to 10000 without the anti-windup bound of 500.
    let mut c = PIDController::new(0, 1000, 0, 500);
    for _ in 0..100 {
        c.get_output(true, false, 100);
        assert!(-500 <= c.integral && c.integral <= 500);
    }
    assert_eq!(c.integral, 500);
}

#[test]
fn pid_integral_clamped_negative() {
    let mut c = PIDController::new(0, 1000, 0, 500);
    for _ in 0..100 {
        c.get_output(false, true, 100);
        assert!(-500 <= c.integral && c.integral <= 500);
    }
    assert_eq!(c.integral, -500);
}

#[test]
fn pid_integral_term_drives_output() {
    // ki = 1.0, max_i = 400: after 300 ms at full error the integral is
    // 300 (0.3 error-seconds), so the output attenuates the left wheel
    // by 0.3.
    let mut c = PIDController::new(0, 1000, 0, 400);
    assert_eq!(c.get_output(true, false, 300), ControllerOutput::new(700, 1000));
    // 300 more ms would reach 600; the clamp holds it at 400.
    assert_eq!(c.get_output(true, false, 300), ControllerOutput::new(600, 1000));
}

#[test]
fn pid_derivative_term() {
    // kd = 1.0 alone: the first left-only tick after a zero error, over
    // 100 ms, has derivative (1.0 - 0.0) / 0.1 s = 10, attenuating the
    // left wheel by 10 (far past zero; the controller does not clamp).
    let mut c = PIDController::new(0, 0, 1000, 1000);
    assert_eq!(c.get_output(true, false, 100), ControllerOutput::new(1000 - 10_000, 1000));
    // A second identical tick has zero derivative.
    assert_eq!(c.get_output(true, false, 100), ControllerOutput::new(1000, 1000));
}

#[test]
fn controller_enum_dispatches() {
    let mut c = Controller::Simple(SimpleController::new());
    assert_eq!(c.get_output(true, false, 10), ControllerOutput::new(0, 1000));
    if let Controller::Simple(s) = &c {
        assert!(s.last_left && !s.last_right);
    } else {
        panic!("variant changed");
    }
}

#[test]
fn controller_names() {
    assert_eq!(
        Controller::Conservative(ConservativeController::new()).get_name(),
        "ConservativeController"
    );
    assert_eq!(Controller::Simple(SimpleController::new()).get_name(), "SimpleController");
    assert_eq!(
        Controller::TimeCorrecting(TimeCorrectingController::new(1000)).get_name(),
        "TimeCorrectingController"
    );
    assert_eq!(Controller::Pid(PIDController::new(500, 0, 0, 1000)).get_name(), "PIDController");
}
