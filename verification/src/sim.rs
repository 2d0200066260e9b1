//! The per-frame simulation tick composing controller, integrator and
//! tracking filter.
//!
//! One tick clamps the frame interval, derives the sub-step count, runs
//! the controller and the selected stepping scheme once per sub-step, and
//! advances the tracking filter once per frame from the updated position
//! and velocity. A failing tick leaves the whole simulation untouched, so
//! no partial or out-of-range update ever reaches the state.

use vstd::prelude::*;
use crate::controller::{ctrl_step_model, Controller};
use crate::fault::SimError;
use crate::filter::{filter_update_model, TrackingFilter};
use crate::fixed::tdiv;
use crate::integrator::{step, step_model, substep_count, substeps_spec, Integrator};
use crate::params::Params;
use crate::state::State;

verus! {

/// Smallest accepted frame interval: non-positive intervals are clamped
/// up to this value, so a tick never derives zero sub-steps.
pub const DT_MIN: i64 = 1;

/// The complete simulation: state vector, physical parameters, feedback
/// controller, presentation filter, stepping scheme and default sub-step
/// count.
#[derive(Clone, Copy, Debug, PartialEq, Eq, Structural)]
pub struct Simulation {
    pub state: State,
    pub params: Params,
    pub ctrl: Controller,
    pub filter: TrackingFilter,
    pub scheme: Integrator,
    pub substeps: u32,
}

/// The outcome of `n` controller + integrator sub-steps of size `dt`:
/// the final state and controller, or the first error.
pub open spec fn run_substeps(
    st: State,
    c: Controller,
    p: Params,
    sch: Integrator,
    ov: Option<i64>,
    dt: int,
    n: nat,
) -> Result<(State, Controller), SimError>
    decreases n,
{
    if n == 0 {
        Ok((st, c))
    } else {
        match ctrl_step_model(c, st.th as int, st.w as int, dt, ov) {
            None => Err(SimError::Overflow),
            Some(fie) => {
                let c2 = Controller {
                    integral: fie.1 as i64,
                    last_force: fie.0 as i64,
                    last_error: fie.2 as i64,
                    ..c
                };
                match step_model(st, p, fie.0, dt, sch) {
                    Err(e) => Err(e),
                    Ok(s2) => run_substeps(s2, c2, p, sch, ov, dt, (n - 1) as nat),
                }
            },
        }
    }
}

/// The complete outcome of one frame tick: clamp the interval, divide it
/// into sub-steps, run them, then advance the filter from the updated
/// position and velocity.
pub open spec fn tick_model(sim: Simulation, dt_frame: int, ov: Option<i64>) -> Result<
    Simulation,
    SimError,
> {
    let dt = if dt_frame <= 0 {
        DT_MIN as int
    } else {
        dt_frame
    };
    let n = substeps_spec(dt, sim.substeps as int);
    let dts = tdiv(dt, n);
    match run_substeps(sim.state, sim.ctrl, sim.params, sim.scheme, ov, dts, n as nat) {
        Err(e) => Err(e),
        Ok(sc) => match filter_update_model(sim.filter, sc.0.x as int, sc.0.v as int, dt) {
            None => Err(SimError::Overflow),
            Some(yy) => Ok(
                Simulation {
                    state: sc.0,
                    ctrl: sc.1,
                    filter: TrackingFilter { y: yy.0 as i64, yv: yy.1 as i64, ..sim.filter },
                    ..sim
                },
            ),
        },
    }
}

/// Angle-wrap law, sub-step level: however many sub-steps run, a
/// successful outcome carries a state whose angle is normalized into
/// `[0, TWO_PI)`.
pub proof fn lemma_run_substeps_preserves_wf(
    st: State,
    c: Controller,
    p: Params,
    sch: Integrator,
    ov: Option<i64>,
    dt: int,
    n: nat,
)
    requires
        st.wf(),
        c.wf(),
    ensures
        run_substeps(st, c, p, sch, ov, dt, n) matches Ok(sc) ==> sc.0.wf() && sc.1.wf(),
    decreases n,
{
    reveal(crate::integrator::euler_model);
    reveal(crate::integrator::rk4_model);
    if n > 0 {
        match ctrl_step_model(c, st.th as int, st.w as int, dt, ov) {
            None => {},
            Some(fie) => {
                let c2 = Controller {
                    integral: fie.1 as i64,
                    last_force: fie.0 as i64,
                    last_error: fie.2 as i64,
                    ..c
                };
                match step_model(st, p, fie.0, dt, sch) {
                    Err(_) => {},
                    Ok(s2) => {
                        lemma_run_substeps_preserves_wf(s2, c2, p, sch, ov, dt, (n - 1) as nat);
                    },
                }
            },
        }
    }
}

/// Angle-wrap law, tick level: every state a successful tick can reach
/// satisfies `0 <= th < TWO_PI`, so the invariant holds of all reachable
/// states after any number of ticks.
pub proof fn lemma_tick_preserves_wf(sim: Simulation, dt_frame: int, ov: Option<i64>)
    requires
        sim.wf(),
    ensures
        tick_model(sim, dt_frame, ov) matches Ok(sim2) ==> sim2.wf(),
{
    let dt = if dt_frame <= 0 {
        DT_MIN as int
    } else {
        dt_frame
    };
    let n = substeps_spec(dt, sim.substeps as int);
    let dts = tdiv(dt, n);
    lemma_run_substeps_preserves_wf(sim.state, sim.ctrl, sim.params, sim.scheme, ov, dts, n as nat);
}

/// Anti-windup law, sub-step level: when the manual command is held, the
/// last sub-step's reset is the last word — a successful run of any
/// positive number of sub-steps ends with a zero integral.
pub proof fn lemma_run_substeps_override_clears_integral(
    st: State,
    c: Controller,
    p: Params,
    sch: Integrator,
    fo: i64,
    dt: int,
    n: nat,
)
    requires
        n >= 1,
    ensures
        run_substeps(st, c, p, sch, Some(fo), dt, n) matches Ok(sc) ==> sc.1.integral == 0,
    decreases n,
{
    if n > 1 {
        match ctrl_step_model(c, st.th as int, st.w as int, dt, Some(fo)) {
            None => {},
            Some(fie) => {
                let c2 = Controller {
                    integral: fie.1 as i64,
                    last_force: fie.0 as i64,
                    last_error: fie.2 as i64,
                    ..c
                };
                match step_model(st, p, fie.0, dt, sch) {
                    Err(_) => {},
                    Ok(s2) => {
                        lemma_run_substeps_override_clears_integral(
                            s2,
                            c2,
                            p,
                            sch,
                            fo,
                            dt,
                            (n - 1) as nat,
                        );
                    },
                }
            },
        }
    } else {
        match ctrl_step_model(c, st.th as int, st.w as int, dt, Some(fo)) {
            None => {},
            Some(fie) => {
                let c2 = Controller {
                    integral: fie.1 as i64,
                    last_force: fie.0 as i64,
                    last_error: fie.2 as i64,
                    ..c
                };
                match step_model(st, p, fie.0, dt, sch) {
                    Err(_) => {},
                    Ok(s2) => {
                        assert(run_substeps(s2, c2, p, sch, Some(fo), dt, 0) == Ok::<
                            (State, Controller),
                            SimError,
                        >((s2, c2)));
                    },
                }
            },
        }
    }
}

/// Anti-windup law, tick level: a frame ticked under a manual override
/// ends with the integral accumulator at exactly zero, whatever had
/// accumulated before.
pub proof fn lemma_tick_override_clears_integral(sim: Simulation, dt_frame: int, fo: i64)
    requires
        sim.wf(),
    ensures
        tick_model(sim, dt_frame, Some(fo)) matches Ok(sim2) ==> sim2.ctrl.integral == 0,
{
    let dt = if dt_frame <= 0 {
        DT_MIN as int
    } else {
        dt_frame
    };
    let n = substeps_spec(dt, sim.substeps as int);
    let dts = tdiv(dt, n);
    assert(n >= 1);
    lemma_run_substeps_override_clears_integral(
        sim.state,
        sim.ctrl,
        sim.params,
        sim.scheme,
        fo,
        dts,
        n as nat,
    );
}

impl Default for Simulation {
    /// The standard session: default state, parameters, controller and
    /// filter, fourth-order stepping, five default sub-steps.
    fn default() -> (sim: Simulation)
        ensures
            sim == (Simulation {
                state: State { x: 0, v: 0, w: 0, th: 3_641_592_654 },
                params: Params {
                    m_cart: 5_000_000_000,
                    m_bob: 500_000_000,
                    m_rod: 1_000_000_000,
                    m_wheel: 1_000_000_000,
                    length: 1_000_000_000,
                    radius: 100_000_000,
                    gravity: 9_806_650_000,
                    damp_lin: 10_000_000,
                    damp_ang: 5_000_000,
                },
                ctrl: Controller {
                    kp: 400_000_000_000,
                    ki: 80_000_000_000,
                    kd: 25_000_000_000,
                    fclamp: 400_000_000_000,
                    enabled: true,
                    integral: 0,
                    last_force: 0,
                    last_error: 0,
                },
                filter: TrackingFilter { y: 0, yv: 0, k1: 159_154_943, k2: 11_257_909, k3: 0 },
                scheme: Integrator::RungeKutta4,
                substeps: 5,
            }),
            sim.wf(),
    {
        Simulation {
            state: State::default(),
            params: Params::default(),
            ctrl: Controller::default(),
            filter: TrackingFilter::default(),
            scheme: Integrator::RungeKutta4,
            substeps: 5,
        }
    }
}

impl Simulation {
    /// Validity of the whole aggregate: normalized angle, positive
    /// physical configuration, nonnegative force clamp, at least one
    /// default sub-step.
    pub open spec fn wf(self) -> bool {
        self.state.wf() && self.params.valid() && self.ctrl.wf() && self.substeps >= 1
    }

    /// Assembles a simulation from its components.
    pub fn new(
        state: State,
        params: Params,
        ctrl: Controller,
        filter: TrackingFilter,
        scheme: Integrator,
        substeps: u32,
    ) -> (sim: Simulation)
        requires
            state.wf(),
            params.valid(),
            ctrl.wf(),
            substeps >= 1,
        ensures
            sim == (Simulation { state, params, ctrl, filter, scheme, substeps }),
            sim.wf(),
    {
        Simulation { state, params, ctrl, filter, scheme, substeps }
    }

    /// Potential energy of the current state, for diagnostics.
    pub fn get_potential_energy(&self) -> (r: Result<i64, SimError>)
        requires
            self.wf(),
        ensures
            match r {
                Ok(e) => crate::energy::potential_model(self.state, self.params) == Ok::<
                    int,
                    SimError,
                >(e as int),
                Err(e) => crate::energy::potential_model(self.state, self.params) == Err::<
                    int,
                    SimError,
                >(e),
            },
    {
        crate::energy::potential_energy(&self.state, &self.params)
    }

    /// Kinetic energy of the current state, for diagnostics.
    pub fn get_kinetic_energy(&self) -> (r: Result<i64, SimError>)
        requires
            self.wf(),
        ensures
            match r {
                Ok(e) => crate::energy::kinetic_model(self.state, self.params) == Ok::<
                    int,
                    SimError,
                >(e as int),
                Err(e) => crate::energy::kinetic_model(self.state, self.params) == Err::<
                    int,
                    SimError,
                >(e),
            },
    {
        crate::energy::kinetic_energy(&self.state, &self.params)
    }

    /// Total mechanical energy of the current state, for diagnostics.
    pub fn get_total_energy(&self) -> (r: Result<i64, SimError>)
        requires
            self.wf(),
        ensures
            match r {
                Ok(e) => crate::energy::total_model(self.state, self.params) == Ok::<
                    int,
                    SimError,
                >(e as int),
                Err(e) => crate::energy::total_model(self.state, self.params) == Err::<
                    int,
                    SimError,
                >(e),
            },
    {
        crate::energy::total_energy(&self.state, &self.params)
    }

    /// Advances the simulation by one frame of length `dt_frame` under an
    /// optional manual force override, exactly as [`tick_model`] states.
    /// On failure nothing changes; on success the angle invariant and the
    /// rest of well-formedness are preserved.
    #[verifier::loop_isolation(false)]
    pub fn tick(&mut self, dt_frame: i64, ov: Option<i64>) -> (r: Result<(), SimError>)
        requires
            old(self).wf(),
        ensures
            match r {
                Ok(()) => tick_model(*old(self), dt_frame as int, ov) == Ok::<Simulation, SimError>(
                    *final(self),
                ) && final(self).wf(),
                Err(e) => tick_model(*old(self), dt_frame as int, ov) == Err::<
                    Simulation,
                    SimError,
                >(e) && *final(self) == *old(self),
            },
    {
        let dt = if dt_frame <= 0 {
            DT_MIN
        } else {
            dt_frame
        };
        let n = substep_count(dt, self.substeps);
        proof {
            assert(0 <= (dt as int) / (n as int) <= dt as int) by (nonlinear_arith)
                requires
                    dt >= 1,
                    n >= 1,
            ;
        }
        let dts = ((dt as u128) / (n as u128)) as i64;
        proof {
            assert(dts == tdiv(dt as int, n as int));
        }
        let p = self.params;
        let sch = self.scheme;
        let mut st = self.state;
        let mut c = self.ctrl;
        let ghost orig_st = st;
        let ghost orig_c = c;
        let mut i: u64 = 0;
        while i < n
            invariant
                i <= n,
                st.wf(),
                c.wf(),
                p.valid(),
                run_substeps(orig_st, orig_c, p, sch, ov, dts as int, n as nat) == run_substeps(
                    st,
                    c,
                    p,
                    sch,
                    ov,
                    dts as int,
                    (n - i) as nat,
                ),
            decreases n - i,
        {
            let ghost st_in = st;
            let ghost c_in = c;
            let f = match c.step(st.th, st.w, dts, ov) {
                Ok(f) => f,
                Err(e) => {
                    proof {
                        assert(run_substeps(st_in, c_in, p, sch, ov, dts as int, (n - i) as nat)
                            == Err::<(State, Controller), SimError>(SimError::Overflow));
                        assert(tick_model(*old(self), dt_frame as int, ov) == Err::<
                            Simulation,
                            SimError,
                        >(SimError::Overflow));
                    }
                    return Err(e);
                },
            };
            let s2 = match step(&st, &p, f, dts, sch) {
                Ok(s) => s,
                Err(e) => {
                    proof {
                        assert(run_substeps(st_in, c_in, p, sch, ov, dts as int, (n - i) as nat)
                            == Err::<(State, Controller), SimError>(e));
                        assert(tick_model(*old(self), dt_frame as int, ov) == Err::<
                            Simulation,
                            SimError,
                        >(e));
                    }
                    return Err(e);
                },
            };
            proof {
                assert(run_substeps(st_in, c_in, p, sch, ov, dts as int, (n - i) as nat)
                    == run_substeps(s2, c, p, sch, ov, dts as int, (n - i - 1) as nat));
            }
            st = s2;
            i = i + 1;
        }
        let mut fl = self.filter;
        match fl.update(st.x, st.v, dt) {
            Ok(()) => {
                self.state = st;
                self.ctrl = c;
                self.filter = fl;
                Ok(())
            },
            Err(e) => Err(e),
        }
    }
}

} // verus!
