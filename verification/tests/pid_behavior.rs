use xosa_controller::pid::PID;
use xosa_controller::write_once;
use xosa_controller::write_once::RWPtr;
use xosa_controller::write_once::WPtr;

/// A controller over fresh gain cells, together with the cells' writers.
fn make_pid(
    k_p: i64,
    k_i: i64,
    k_d: i64,
    max_output: i64,
) -> (PID, RWPtr<i64, WPtr>, RWPtr<i64, WPtr>, RWPtr<i64, WPtr>) {
    let (p_r, p_w) = write_once::new(k_p);
    let (i_r, i_w) = write_once::new(k_i);
    let (d_r, d_w) = write_once::new(k_d);
    (PID::new(p_r, i_r, d_r, max_output), p_w, i_w, d_w)
}

#[test]
fn antiwindup_freezes_the_integral_while_saturated() {
    // kP = 0, kI = 1, kD = 0, max_output = 1.0, dt = 1.0, error = 5.0
    let (mut pid, _p, _i, _d) = make_pid(0, 1000, 0, 1000);
    let out1 = pid.step(5000, 1000);
    let out2 = pid.step(5000, 1000);
    let out3 = pid.step(5000, 1000);
    // three saturated ticks, all clamped to 1.0
    assert_eq!([out1, out2, out3], [1000, 1000, 1000]);
    // the integral froze at the value that first caused saturation
    assert_eq!(pid.integral(), 5000);
    assert!(pid.is_saturated());
}

#[test]
fn integration_resumes_after_an_unsaturated_tick() {
    let (mut pid, _p, mut i_w, _d) = make_pid(0, 1000, 0, 1000);
    pid.step(5000, 1000);
    assert!(pid.is_saturated());
    assert_eq!(pid.integral(), 5000);
    // shrink kI so the output falls back inside the ceiling
    i_w.write(100);
    let out = pid.step(0, 1000);
    // integral still frozen on this tick, output now unsaturated
    assert_eq!(out, 500);
    assert_eq!(pid.integral(), 5000);
    assert!(!pid.is_saturated());
    // the next tick integrates again, from the frozen value
    let out = pid.step(1000, 1000);
    assert_eq!(pid.integral(), 6000);
    assert_eq!(out, 600);
}

#[test]
fn derivative_of_an_error_step() {
    // kP = 0, kI = 0, kD = 1, dt = 1.0, errors [0.0, 2.0] -> outputs [0.0, 2.0]
    let (mut pid, _p, _i, _d) = make_pid(0, 0, 1000, 10_000);
    assert_eq!(pid.step(0, 1000), 0);
    assert_eq!(pid.step(2000, 1000), 2000);
}

#[test]
fn gain_edits_take_effect_on_the_very_next_tick() {
    let (mut pid, mut p_w, _i, _d) = make_pid(1000, 0, 0, 100_000);
    assert_eq!(pid.step(3000, 1000), 3000);
    p_w.write(2000);
    assert_eq!(pid.step(3000, 1000), 6000);
    p_w.write(500);
    assert_eq!(pid.step(3000, 1000), 1500);
}

#[test]
fn degenerate_time_step_reuses_the_prior_output() {
    let (mut pid, _p, _i, _d) = make_pid(1000, 1000, 1000, 100_000);
    let out = pid.step(2000, 1000);
    assert_eq!(out, 6000);
    let integral = pid.integral();
    // dt == 0: no division, no state change, same output again
    assert_eq!(pid.step(9000, 0), out);
    assert_eq!(pid.integral(), integral);
    // a negative dt is just as degenerate
    assert_eq!(pid.step(9000, -5), out);
    assert_eq!(pid.integral(), integral);
}

#[test]
fn contribution_terms_after_one_tick() {
    let (mut pid, _p, _i, _d) = make_pid(0, 0, 0, 100_000);
    pid.step_with_gains(0, 0, 0, 4000, 1000);
    // error, integral and derivative all reached 4.0
    assert_eq!(pid.output_p(500), 2000);
    assert_eq!(pid.output_i(1000), 4000);
    assert_eq!(pid.output_d(250), 1000);
}

#[test]
fn step_with_gains_ignores_the_cells() {
    let (mut pid, mut p_w, _i, _d) = make_pid(1000, 0, 0, 100_000);
    p_w.write(7000);
    // the explicit gains win over whatever the cells hold
    assert_eq!(pid.step_with_gains(2000, 0, 0, 3000, 1000), 6000);
}
