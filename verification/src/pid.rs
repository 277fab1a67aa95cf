//! PID controller with integral anti-windup and output clamping.
//!
//! One controller instance serves one axis. The three gains are not owned
//! by the controller: it holds read handles on shared gain cells and reads
//! them afresh on every tick, so a gain edit from the tuning side takes
//! effect on the very next tick.
//!
//! All values are fixed-point thousandths (see `crate::fixed`). The whole
//! tick is described by the spec function `pid_step_spec`; `step_with_gains`
//! is proved to follow it exactly, and `step` applies it to whatever gain
//! values the shared cells hold at the moment of the call.

use vstd::prelude::*;

use crate::fixed::clamp_mag;
use crate::fixed::clamp_spec;
use crate::fixed::fx_div;
use crate::fixed::fx_div_spec;
use crate::fixed::fx_mul;
use crate::fixed::fx_mul_spec;
use crate::fixed::mag;
use crate::fixed::sat_add;
use crate::fixed::sat_add_spec;
use crate::fixed::sat_sub;
use crate::fixed::sat_sub_spec;
use crate::write_once::RPtr;
use crate::write_once::RWPtr;

verus! {

/// Mathematical image of a controller's mutable state.
pub ghost struct PidState {
    pub err: int,
    pub err_prev: int,
    pub err_integral: int,
    pub err_derivative: int,
    pub saturated: bool,
    pub last_output: int,
    pub max_output: int,
}

/// Outcome of one tick: the successor state and the clamped output.
pub ghost struct StepResult {
    pub next: PidState,
    pub output: int,
}

/// Validity of a controller state: the output ceiling is a magnitude, and
/// the remembered output already respects it.
pub open spec fn pid_wf(s: PidState) -> bool {
    &&& s.max_output >= 0
    &&& mag(s.last_output) <= s.max_output
}

/// The derivative/integral update of one tick with a positive time delta:
/// the error pair shifts, the derivative becomes the error difference over
/// `dt`, and the integral accumulates `error * dt` only while the previous
/// tick left the controller unsaturated (integral anti-windup).
pub open spec fn pid_update_spec(s: PidState, error: int, dt: int) -> PidState
    recommends
        dt > 0,
{
    PidState {
        err: error,
        err_prev: s.err,
        err_derivative: fx_div_spec(sat_sub_spec(error, s.err), dt),
        err_integral: if s.saturated {
            s.err_integral
        } else {
            sat_add_spec(s.err_integral, fx_mul_spec(error, dt))
        },
        ..s
    }
}

/// The unclamped output: `kP * error + kI * integral + kD * derivative`.
pub open spec fn pid_raw_spec(s: PidState, k_p: int, k_i: int, k_d: int) -> int {
    sat_add_spec(
        sat_add_spec(fx_mul_spec(s.err, k_p), fx_mul_spec(s.err_integral, k_i)),
        fx_mul_spec(s.err_derivative, k_d),
    )
}

/// One whole controller tick. A non-positive time delta is a degenerate
/// step: the state is untouched and the previous output is returned again.
/// Otherwise the state is updated, the raw output is formed from the gains
/// supplied for this tick, the returned output is the raw output clamped to
/// the ceiling, and the saturation flag is set exactly when the raw
/// output's magnitude reaches the ceiling, gating the next tick's integral.
pub open spec fn pid_step_spec(
    s: PidState,
    k_p: int,
    k_i: int,
    k_d: int,
    error: int,
    dt: int,
) -> StepResult {
    if dt <= 0 {
        StepResult { next: s, output: s.last_output }
    } else {
        let s1 = pid_update_spec(s, error, dt);
        let raw = pid_raw_spec(s1, k_p, k_i, k_d);
        let out = clamp_spec(raw, s.max_output);
        StepResult {
            next: PidState { saturated: mag(raw) >= s.max_output, last_output: out, ..s1 },
            output: out,
        }
    }
}

/// A single-axis PID controller reading its gains from shared cells.
pub struct PID {
    err: i64,
    err_prev: i64,
    err_integral: i64,
    err_derivative: i64,
    saturated: bool,
    last_output: i64,
    max_output: i64,
    /// Read handle on the shared proportional gain.
    pub k_p: RWPtr<i64, RPtr>,
    /// Read handle on the shared integral gain.
    pub k_i: RWPtr<i64, RPtr>,
    /// Read handle on the shared derivative gain.
    pub k_d: RWPtr<i64, RPtr>,
}

impl PID {
    /// The three gain handles, for stating that a tick leaves them alone.
    pub closed spec fn gain_cells(&self) -> (
        RWPtr<i64, RPtr>,
        RWPtr<i64, RPtr>,
        RWPtr<i64, RPtr>,
    ) {
        (self.k_p, self.k_i, self.k_d)
    }

    /// The controller's state as a mathematical value.
    pub closed spec fn state(&self) -> PidState {
        PidState {
            err: self.err as int,
            err_prev: self.err_prev as int,
            err_integral: self.err_integral as int,
            err_derivative: self.err_derivative as int,
            saturated: self.saturated,
            last_output: self.last_output as int,
            max_output: self.max_output as int,
        }
    }

    /// A fresh controller over the three given gain cells, with everything
    /// at rest and the given output ceiling.
    pub fn new(
        k_p: RWPtr<i64, RPtr>,
        k_i: RWPtr<i64, RPtr>,
        k_d: RWPtr<i64, RPtr>,
        max_output: i64,
    ) -> (pid: PID)
        requires
            max_output >= 0,
        ensures
            pid.gain_cells() == (k_p, k_i, k_d),
            pid.state() == (PidState {
                err: 0,
                err_prev: 0,
                err_integral: 0,
                err_derivative: 0,
                saturated: false,
                last_output: 0,
                max_output: max_output as int,
            }),
            pid_wf(pid.state()),
    {
        PID {
            err: 0,
            err_prev: 0,
            err_integral: 0,
            err_derivative: 0,
            saturated: false,
            last_output: 0,
            max_output,
            k_p,
            k_i,
            k_d,
        }
    }

    /// The proportional contribution for a given proportional gain.
    pub fn output_p(&self, k_p: i64) -> (r: i64)
        ensures
            r as int == fx_mul_spec(self.state().err, k_p as int),
    {
        fx_mul(self.err, k_p)
    }

    /// The integral contribution for a given integral gain.
    pub fn output_i(&self, k_i: i64) -> (r: i64)
        ensures
            r as int == fx_mul_spec(self.state().err_integral, k_i as int),
    {
        fx_mul(self.err_integral, k_i)
    }

    /// The derivative contribution for a given derivative gain.
    pub fn output_d(&self, k_d: i64) -> (r: i64)
        ensures
            r as int == fx_mul_spec(self.state().err_derivative, k_d as int),
    {
        fx_mul(self.err_derivative, k_d)
    }

    /// The accumulated integral term.
    pub fn integral(&self) -> (r: i64)
        ensures
            r as int == self.state().err_integral,
    {
        self.err_integral
    }

    /// Whether the previous tick's raw output reached the ceiling, which
    /// freezes the integral on the next tick.
    pub fn is_saturated(&self) -> (r: bool)
        ensures
            r == self.state().saturated,
    {
        self.saturated
    }

    /// The gain values the shared cells hold right now, in the order
    /// proportional, integral, derivative. Which values come back is
    /// decided by the tuning side, so nothing is promised of them; the
    /// contracts of the stepping functions say what any tick does with
    /// whatever was read.
    pub fn gains_now(&self) -> (gains: (i64, i64, i64)) {
        (self.k_p.read(), self.k_i.read(), self.k_d.read())
    }

    /// One controller tick with the gain values given as arguments: the
    /// state and the returned output follow `pid_step_spec` exactly, so the
    /// outcome is a function of the current state and of these gains alone.
    pub fn step_with_gains(&mut self, k_p: i64, k_i: i64, k_d: i64, error: i64, dt: i64) -> (out:
        i64)
        requires
            pid_wf(old(self).state()),
        ensures
            final(self).state() == pid_step_spec(
                old(self).state(),
                k_p as int,
                k_i as int,
                k_d as int,
                error as int,
                dt as int,
            ).next,
            out as int == pid_step_spec(
                old(self).state(),
                k_p as int,
                k_i as int,
                k_d as int,
                error as int,
                dt as int,
            ).output,
            pid_wf(final(self).state()),
            final(self).gain_cells() == old(self).gain_cells(),
            dt <= 0 ==> final(self).state() == old(self).state(),
            old(self).state().saturated ==> final(self).state().err_integral == old(
                self,
            ).state().err_integral,
            !old(self).state().saturated && dt >= 1 ==> final(self).state().err_integral
                == sat_add_spec(
                old(self).state().err_integral,
                fx_mul_spec(error as int, dt as int),
            ),
    {
        if dt <= 0 {
            return self.last_output;
        }
        self.err_prev = self.err;
        self.err = error;
        self.err_derivative = fx_div(sat_sub(self.err, self.err_prev), dt);
        if !self.saturated {
            self.err_integral = sat_add(self.err_integral, fx_mul(self.err, dt));
        }
        let raw = sat_add(
            sat_add(self.output_p(k_p), self.output_i(k_i)),
            self.output_d(k_d),
        );
        self.saturated = if raw >= 0 {
            raw >= self.max_output
        } else {
            raw <= -self.max_output
        };
        let out = clamp_mag(raw, self.max_output);
        self.last_output = out;
        out
    }

    /// One controller tick against the shared gain cells: the gains are
    /// read afresh from the cells at this very call, and the outcome
    /// follows `pid_step_spec` for the values that were read.
    pub fn step(&mut self, error: i64, dt: i64) -> (out: i64)
        requires
            pid_wf(old(self).state()),
        ensures
            pid_wf(final(self).state()),
            final(self).gain_cells() == old(self).gain_cells(),
            exists|k_p: int, k_i: int, k_d: int|
                final(self).state() == (#[trigger] pid_step_spec(
                    old(self).state(),
                    k_p,
                    k_i,
                    k_d,
                    error as int,
                    dt as int,
                )).next && out as int == pid_step_spec(
                    old(self).state(),
                    k_p,
                    k_i,
                    k_d,
                    error as int,
                    dt as int,
                ).output,
    {
        let k_p = self.k_p.read();
        let k_i = self.k_i.read();
        let k_d = self.k_d.read();
        let out = self.step_with_gains(k_p, k_i, k_d, error, dt);
        proof {
            let r = pid_step_spec(
                old(self).state(),
                k_p as int,
                k_i as int,
                k_d as int,
                error as int,
                dt as int,
            );
            assert(self.state() == r.next && out as int == r.output);
        }
        out
    }
}

/// Anti-windup law: a tick that starts from a saturated state leaves the
/// integral term exactly as it was, whatever the error; a tick that starts
/// unsaturated (with a positive time delta) accumulates `error * dt` onto
/// it. Integration therefore stays frozen from the first saturated tick
/// until an unsaturated tick is observed, and resumes from the frozen value.
pub proof fn lemma_anti_windup(s: PidState, k_p: int, k_i: int, k_d: int, error: int, dt: int)
    ensures
        s.saturated ==> pid_step_spec(s, k_p, k_i, k_d, error, dt).next.err_integral
            == s.err_integral,
        !s.saturated && dt > 0 ==> pid_step_spec(s, k_p, k_i, k_d, error, dt).next.err_integral
            == sat_add_spec(s.err_integral, fx_mul_spec(error, dt)),
{
}

/// Output shaping law: from a valid state, the output of a tick never
/// exceeds the configured ceiling in magnitude, the ceiling itself is never
/// altered by a tick, and the successor state is valid again.
pub proof fn lemma_output_clamped(s: PidState, k_p: int, k_i: int, k_d: int, error: int, dt: int)
    requires
        pid_wf(s),
    ensures
        mag(pid_step_spec(s, k_p, k_i, k_d, error, dt).output) <= s.max_output,
        pid_step_spec(s, k_p, k_i, k_d, error, dt).next.max_output == s.max_output,
        pid_wf(pid_step_spec(s, k_p, k_i, k_d, error, dt).next),
{
}

/// One tick's worth of inputs in a run of the controller: the gain values
/// current at that tick, the error, and the time delta.
pub ghost struct TickInput {
    pub k_p: int,
    pub k_i: int,
    pub k_d: int,
    pub error: int,
    pub dt: int,
}

/// The controller state after a run over the given sequence of ticks.
pub open spec fn run_state(s0: PidState, ticks: Seq<TickInput>) -> PidState
    decreases ticks.len(),
{
    if ticks.len() == 0 {
        s0
    } else {
        let prev = run_state(s0, ticks.drop_last());
        let t = ticks.last();
        pid_step_spec(prev, t.k_p, t.k_i, t.k_d, t.error, t.dt).next
    }
}

/// The outputs of a run over the given sequence of ticks, in tick order.
pub open spec fn run_outputs(s0: PidState, ticks: Seq<TickInput>) -> Seq<int>
    decreases ticks.len(),
{
    if ticks.len() == 0 {
        Seq::empty()
    } else {
        let prev = run_state(s0, ticks.drop_last());
        let t = ticks.last();
        run_outputs(s0, ticks.drop_last()).push(
            pid_step_spec(prev, t.k_p, t.k_i, t.k_d, t.error, t.dt).output,
        )
    }
}

/// A run produces one output per tick.
pub proof fn lemma_run_outputs_len(s0: PidState, ticks: Seq<TickInput>)
    ensures
        run_outputs(s0, ticks).len() == ticks.len(),
    decreases ticks.len(),
{
    if ticks.len() > 0 {
        lemma_run_outputs_len(s0, ticks.drop_last());
    }
}

/// Anti-windup over a whole run: as long as every tick of the run starts
/// from a saturated state — that is, until an unsaturated tick is
/// observed — the integral term never moves from its frozen value.
pub proof fn lemma_windup_frozen_over_run(s0: PidState, ticks: Seq<TickInput>)
    requires
        forall|k: int|
            0 <= k < ticks.len() ==> (#[trigger] run_state(s0, ticks.take(k))).saturated,
    ensures
        run_state(s0, ticks).err_integral == s0.err_integral,
    decreases ticks.len(),
{
    if ticks.len() > 0 {
        assert forall|k: int|
            0 <= k < ticks.drop_last().len() implies (#[trigger] run_state(
            s0,
            ticks.drop_last().take(k),
        )).saturated by {
            assert(ticks.drop_last().take(k) =~= ticks.take(k));
        }
        lemma_windup_frozen_over_run(s0, ticks.drop_last());
        assert(run_state(s0, ticks.take(ticks.len() - 1)).saturated);
        assert(ticks.take(ticks.len() - 1) =~= ticks.drop_last());
    }
}

/// Gain freshness law: in any run of gain updates interleaved with ticks,
/// the output of tick `n` is computed from the state reached after the
/// first `n` ticks and from the gain values supplied at tick `n` itself —
/// no gain value of an earlier or later tick enters it.
pub proof fn lemma_gain_freshness(s0: PidState, ticks: Seq<TickInput>, n: int)
    requires
        0 <= n < ticks.len(),
    ensures
        run_outputs(s0, ticks)[n] == pid_step_spec(
            run_state(s0, ticks.take(n)),
            ticks[n].k_p,
            ticks[n].k_i,
            ticks[n].k_d,
            ticks[n].error,
            ticks[n].dt,
        ).output,
    decreases ticks.len(),
{
    lemma_run_outputs_len(s0, ticks.drop_last());
    if n == ticks.len() - 1 {
        assert(ticks.take(n) =~= ticks.drop_last());
    } else {
        lemma_gain_freshness(s0, ticks.drop_last(), n);
        assert(ticks.drop_last().take(n) =~= ticks.take(n));
        assert(ticks.drop_last()[n] == ticks[n]);
    }
}

} // verus!
