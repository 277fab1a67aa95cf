//! Per-tick logic of the fixed-frequency control loop.
//!
//! On each tick the loop reads the freshest setpoint and measurement,
//! computes the linear and angular tracking error, records both errors
//! (linear first, then angular, so the two histories stay in step), runs
//! one PID tick per axis, maps the two corrections into differential
//! thrust — `left = (force - torque) / 2`, `right = (force + torque) / 2` —
//! and clamps each thruster command to the tunable motor-gain ceiling.
//! The whole tick is described by `tick_spec`; `tick_with` is proved to
//! follow it exactly, and `tick` applies it to whatever the shared gain
//! and ceiling cells hold at the moment of the call.

use vstd::prelude::*;

use crate::fixed::clamp_mag;
use crate::fixed::clamp_spec;
use crate::fixed::fx_mul;
use crate::fixed::fx_mul_spec;
use crate::fixed::half;
use crate::fixed::mag;
use crate::fixed::sat_add;
use crate::fixed::sat_add_spec;
use crate::fixed::sat_sub;
use crate::fixed::sat_sub_spec;
use crate::fixed::tdiv;
use crate::history::retained;
use crate::history::ErrorHistory;
use crate::pid::pid_step_spec;
use crate::pid::pid_wf;
use crate::pid::PidState;
use crate::pid::PID;
use crate::write_once::RPtr;
use crate::write_once::RWPtr;

verus! {

/// A velocity snapshot: forward speed and yaw rate, in fixed-point
/// thousandths. Serves both for the measured and for the commanded
/// velocity; any value is legal, including the transport default before
/// the first message arrives.
#[derive(Clone, Copy, Debug, PartialEq, Eq, Structural)]
pub struct Velocity {
    pub linear: i64,
    pub angular: i64,
}

/// One pair of thruster commands, in fixed-point thousandths.
#[derive(Clone, Copy, Debug, PartialEq, Eq, Structural)]
pub struct Thrust {
    pub left: i64,
    pub right: i64,
}

/// One axis' gain triple, as read from the tuning cells for one tick.
#[derive(Clone, Copy, Debug, PartialEq, Eq, Structural)]
pub struct Gains {
    pub k_p: i64,
    pub k_i: i64,
    pub k_d: i64,
}

/// Mathematical image of the loop's mutable state: the two controller
/// states, everything ever recorded into the two histories, and the
/// construction-time constants.
pub ghost struct LoopState {
    pub linear: PidState,
    pub angular: PidState,
    pub hist_linear: Seq<i64>,
    pub hist_angular: Seq<i64>,
    pub mass: int,
    pub lever_arm: int,
    pub dt: int,
}

/// Outcome of one tick: the successor state and the two thruster commands.
pub ghost struct TickOutcome {
    pub next: LoopState,
    pub left: int,
    pub right: int,
}

/// Validity of a loop state: both controller states are valid, the tick
/// period is positive, and the two histories have recorded in step.
pub open spec fn loop_wf(s: LoopState) -> bool {
    &&& pid_wf(s.linear)
    &&& pid_wf(s.angular)
    &&& s.dt >= 1
    &&& s.hist_linear.len() == s.hist_angular.len()
}

/// One whole control tick: tracking errors from setpoint minus
/// measurement, both errors recorded, one PID tick per axis with this
/// tick's gains, corrections mapped into differential thrust through the
/// mass and lever-arm constants, and both commands clamped to the ceiling.
pub open spec fn tick_spec(
    s: LoopState,
    measurement: Velocity,
    setpoint: Velocity,
    lin: Gains,
    ang: Gains,
    ceiling: int,
) -> TickOutcome {
    let err_lin = sat_sub_spec(setpoint.linear as int, measurement.linear as int);
    let err_ang = sat_sub_spec(setpoint.angular as int, measurement.angular as int);
    let rl = pid_step_spec(s.linear, lin.k_p as int, lin.k_i as int, lin.k_d as int, err_lin, s.dt);
    let ra = pid_step_spec(
        s.angular,
        ang.k_p as int,
        ang.k_i as int,
        ang.k_d as int,
        err_ang,
        s.dt,
    );
    let force = fx_mul_spec(rl.output, s.mass);
    let torque = fx_mul_spec(fx_mul_spec(ra.output, s.mass), s.lever_arm);
    TickOutcome {
        next: LoopState {
            linear: rl.next,
            angular: ra.next,
            hist_linear: s.hist_linear.push(err_lin as i64),
            hist_angular: s.hist_angular.push(err_ang as i64),
            ..s
        },
        left: clamp_spec(tdiv(sat_sub_spec(force, torque), 2), ceiling),
        right: clamp_spec(tdiv(sat_add_spec(force, torque), 2), ceiling),
    }
}

/// The fixed-frequency control loop's state: two PID controllers, two
/// error histories, the motor-gain ceiling cell, and the construction-time
/// constants.
pub struct ControlLoop {
    pid_linear: PID,
    pid_angular: PID,
    err_linear: ErrorHistory,
    err_angular: ErrorHistory,
    motor_gain: RWPtr<i64, RPtr>,
    mass: i64,
    lever_arm: i64,
    dt: i64,
}

impl ControlLoop {
    /// The loop's state as a mathematical value.
    pub closed spec fn state(&self) -> LoopState {
        LoopState {
            linear: self.pid_linear.state(),
            angular: self.pid_angular.state(),
            hist_linear: self.err_linear.recorded(),
            hist_angular: self.err_angular.recorded(),
            mass: self.mass as int,
            lever_arm: self.lever_arm as int,
            dt: self.dt as int,
        }
    }

    /// The motor-gain handle, for stating that a tick leaves it alone.
    pub closed spec fn ceiling_cell(&self) -> RWPtr<i64, RPtr> {
        self.motor_gain
    }

    /// Validity: the loop state is valid and each history buffer holds
    /// exactly the retained suffix of what was recorded into it.
    pub open spec fn wf(&self) -> bool {
        &&& loop_wf(self.state())
        &&& self.histories_wf()
    }

    /// The part of validity that speaks of the history buffers.
    pub closed spec fn histories_wf(&self) -> bool {
        &&& self.err_linear.wf()
        &&& self.err_angular.wf()
    }

    /// A fresh loop in its idle state: empty histories, the given
    /// controllers, ceiling cell and constants.
    pub fn new(
        pid_linear: PID,
        pid_angular: PID,
        motor_gain: RWPtr<i64, RPtr>,
        mass: i64,
        lever_arm: i64,
        dt: i64,
    ) -> (c: ControlLoop)
        requires
            pid_wf(pid_linear.state()),
            pid_wf(pid_angular.state()),
            dt >= 1,
        ensures
            c.wf(),
            c.ceiling_cell() == motor_gain,
            c.pid_cells() == (pid_linear.gain_cells(), pid_angular.gain_cells()),
            c.state() == (LoopState {
                linear: pid_linear.state(),
                angular: pid_angular.state(),
                hist_linear: Seq::<i64>::empty(),
                hist_angular: Seq::<i64>::empty(),
                mass: mass as int,
                lever_arm: lever_arm as int,
                dt: dt as int,
            }),
    {
        ControlLoop {
            pid_linear,
            pid_angular,
            err_linear: ErrorHistory::new(),
            err_angular: ErrorHistory::new(),
            motor_gain,
            mass,
            lever_arm,
            dt,
        }
    }

    /// A snapshot of the retained linear error samples, oldest first, each
    /// paired with its position.
    pub fn snapshot_linear(&self) -> (shot: Vec<(usize, i64)>)
        requires
            self.wf(),
        ensures
            shot@.len() == retained(self.state().hist_linear).len(),
            forall|j: int|
                0 <= j < shot@.len() ==> shot@[j] == (
                    j as usize,
                    retained(self.state().hist_linear)[j],
                ),
    {
        self.err_linear.snapshot()
    }

    /// A snapshot of the retained angular error samples, oldest first,
    /// each paired with its position.
    pub fn snapshot_angular(&self) -> (shot: Vec<(usize, i64)>)
        requires
            self.wf(),
        ensures
            shot@.len() == retained(self.state().hist_angular).len(),
            forall|j: int|
                0 <= j < shot@.len() ==> shot@[j] == (
                    j as usize,
                    retained(self.state().hist_angular)[j],
                ),
    {
        self.err_angular.snapshot()
    }

    /// One control tick with every tunable given as an argument: the new
    /// state and the thrust pair follow `tick_spec` exactly.
    pub fn tick_with(
        &mut self,
        measurement: Velocity,
        setpoint: Velocity,
        lin: Gains,
        ang: Gains,
        ceiling: i64,
    ) -> (thrust: Thrust)
        requires
            old(self).wf(),
        ensures
            final(self).wf(),
            final(self).state() == tick_spec(
                old(self).state(),
                measurement,
                setpoint,
                lin,
                ang,
                ceiling as int,
            ).next,
            thrust.left as int == tick_spec(
                old(self).state(),
                measurement,
                setpoint,
                lin,
                ang,
                ceiling as int,
            ).left,
            thrust.right as int == tick_spec(
                old(self).state(),
                measurement,
                setpoint,
                lin,
                ang,
                ceiling as int,
            ).right,
            final(self).ceiling_cell() == old(self).ceiling_cell(),
            final(self).pid_cells() == old(self).pid_cells(),
    {
        let dt = self.dt;
        let err_lin = sat_sub(setpoint.linear, measurement.linear);
        let err_ang = sat_sub(setpoint.angular, measurement.angular);
        self.err_linear.record(err_lin);
        self.err_angular.record(err_ang);
        let lin_out = self.pid_linear.step_with_gains(lin.k_p, lin.k_i, lin.k_d, err_lin, dt);
        let ang_out = self.pid_angular.step_with_gains(ang.k_p, ang.k_i, ang.k_d, err_ang, dt);
        let force = fx_mul(lin_out, self.mass);
        let torque = fx_mul(fx_mul(ang_out, self.mass), self.lever_arm);
        let left = clamp_mag(half(sat_sub(force, torque)), ceiling);
        let right = clamp_mag(half(sat_add(force, torque)), ceiling);
        Thrust { left, right }
    }

    /// The gain handles of both controllers, for stating that a tick
    /// leaves them alone.
    pub closed spec fn pid_cells(&self) -> (
        (RWPtr<i64, RPtr>, RWPtr<i64, RPtr>, RWPtr<i64, RPtr>),
        (RWPtr<i64, RPtr>, RWPtr<i64, RPtr>, RWPtr<i64, RPtr>),
    ) {
        (self.pid_linear.gain_cells(), self.pid_angular.gain_cells())
    }

    /// One control tick against the shared cells: the gain triples and the
    /// motor-gain ceiling are read afresh from their cells at this very
    /// call, and the outcome follows `tick_spec` for the values read.
    pub fn tick(&mut self, measurement: Velocity, setpoint: Velocity) -> (thrust: Thrust)
        requires
            old(self).wf(),
        ensures
            final(self).wf(),
            final(self).ceiling_cell() == old(self).ceiling_cell(),
            final(self).pid_cells() == old(self).pid_cells(),
            exists|lin: Gains, ang: Gains, ceiling: int|
                final(self).state() == (#[trigger] tick_spec(
                    old(self).state(),
                    measurement,
                    setpoint,
                    lin,
                    ang,
                    ceiling,
                )).next && thrust.left as int == tick_spec(
                    old(self).state(),
                    measurement,
                    setpoint,
                    lin,
                    ang,
                    ceiling,
                ).left && thrust.right as int == tick_spec(
                    old(self).state(),
                    measurement,
                    setpoint,
                    lin,
                    ang,
                    ceiling,
                ).right,
    {
        let (k_p_lin, k_i_lin, k_d_lin) = self.pid_linear.gains_now();
        let (k_p_ang, k_i_ang, k_d_ang) = self.pid_angular.gains_now();
        let ceiling = self.motor_gain.read();
        let lin = Gains { k_p: k_p_lin, k_i: k_i_lin, k_d: k_d_lin };
        let ang = Gains { k_p: k_p_ang, k_i: k_i_ang, k_d: k_d_ang };
        let thrust = self.tick_with(measurement, setpoint, lin, ang, ceiling);
        proof {
            let outcome = tick_spec(
                old(self).state(),
                measurement,
                setpoint,
                lin,
                ang,
                ceiling as int,
            );
            assert(self.state() == outcome.next && thrust.left as int == outcome.left
                && thrust.right as int == outcome.right);
        }
        thrust
    }
}

/// Thrust shaping law: both commands of a tick stay within the ceiling's
/// magnitude (a negative ceiling acts as a ceiling of zero).
pub proof fn lemma_thrust_clamped(
    s: LoopState,
    measurement: Velocity,
    setpoint: Velocity,
    lin: Gains,
    ang: Gains,
    ceiling: int,
)
    ensures
        mag(tick_spec(s, measurement, setpoint, lin, ang, ceiling).left) <= if ceiling >= 0 {
            ceiling
        } else {
            0
        },
        mag(tick_spec(s, measurement, setpoint, lin, ang, ceiling).right) <= if ceiling >= 0 {
            ceiling
        } else {
            0
        },
{
}

/// History synchronization law: a tick records exactly one sample into
/// each history, so from a valid state the two histories always hold
/// equally many samples, recorded in step.
pub proof fn lemma_histories_synchronized(
    s: LoopState,
    measurement: Velocity,
    setpoint: Velocity,
    lin: Gains,
    ang: Gains,
    ceiling: int,
)
    requires
        loop_wf(s),
    ensures
        tick_spec(s, measurement, setpoint, lin, ang, ceiling).next.hist_linear.len()
            == s.hist_linear.len() + 1,
        tick_spec(s, measurement, setpoint, lin, ang, ceiling).next.hist_angular.len()
            == s.hist_angular.len() + 1,
        retained(tick_spec(s, measurement, setpoint, lin, ang, ceiling).next.hist_linear).len()
            == retained(tick_spec(s, measurement, setpoint, lin, ang, ceiling).next.hist_angular).len(),
{
}

} // verus!
