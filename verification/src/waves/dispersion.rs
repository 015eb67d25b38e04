//! Solving the dispersion relation for the wave number by Newton-Raphson iteration.
//!
//! The relation is omega^2 = g*k * (k*d) / (1 + (k*d)^2 / 4). Evaluating it and its
//! derivative is arithmetic, which the host does; this module owns what is decided
//! from the numbers: when a step is ill-defined, when the iteration has converged,
//! how an iterate is kept positive, when to give up, and what is checked of the
//! solution before it is handed out.

use vstd::arithmetic::power2::{lemma2_to64, lemma2_to64_rest, lemma_pow2_adds};
use vstd::prelude::*;
use crate::waves::error::WaveError;
use crate::waves::parameters::WaveParameters;
use crate::waves::scalar::Scalar;

verus! {

/// The default cap on Newton steps.
pub const DEFAULT_MAX_ITERATIONS: usize = 100;

/// 1e-10: the default convergence tolerance.
pub const DEFAULT_TOLERANCE_BITS: u64 = 0x3DDB_7CDF_D9D7_BDBB;

/// 9.81 m/s^2: the default gravitational acceleration.
pub const STANDARD_GRAVITY_BITS: u64 = 0x4023_9EB8_51EB_851F;

/// 1e-6: the largest dispersion residual that a solution may leave.
pub const RESIDUAL_LIMIT_BITS: u64 = 0x3EB0_C6F7_A0B5_ED8D;

/// Configuration of the dispersion solver. It keeps no state between calls.
#[derive(Debug, Clone, Copy)]
pub struct DispersionSolver {
    /// Maximum iterations for the Newton-Raphson solver
    pub max_iterations: usize,
    /// Convergence tolerance
    pub tolerance: Scalar,
    /// Gravitational acceleration [m/s^2]
    pub gravity: Scalar,
}

/// What the host computes at one iterate `k` of the Newton iteration.
#[derive(Debug, Clone, Copy)]
pub struct NewtonEvaluation {
    /// df/dk at the iterate
    pub derivative: Scalar,
    /// The Newton update k - f(k)/f'(k)
    pub next: Scalar,
    /// The step taken: the update minus the iterate
    pub change: Scalar,
}

/// What the solver makes of one evaluation.
#[derive(Debug, Clone, Copy)]
pub enum NewtonVerdict {
    /// The derivative is too close to zero to divide by.
    DerivativeUnderflow,
    /// The step is below the tolerance: the update is the solution.
    Converged(Scalar),
    /// Go on from this iterate: the update, raised to the tolerance where it is below it.
    Continue(Scalar),
}

/// What the host derives from a wave number once the iteration has found one.
#[derive(Debug, Clone, Copy)]
pub struct Resolution {
    /// omega/k
    pub phase_velocity: Scalar,
    /// 2*pi/k
    pub wavelength: Scalar,
    /// The phase velocity minus omega/k, as the consistency check recomputes it
    pub velocity_mismatch: Scalar,
    /// The residual f(k) of the dispersion relation
    pub residual: Scalar,
}

/// What the host derives from the inputs of a wave before the iteration starts.
#[derive(Debug, Clone, Copy)]
pub struct Seed {
    /// H/d
    pub breaking_ratio: Scalar,
    /// 2*pi/T
    pub omega: Scalar,
    /// The deep-water wave number omega^2/g
    pub initial_guess: Scalar,
}

impl Default for DispersionSolver {
    fn default() -> (solver: Self)
        ensures
            solver == DispersionSolver::spec_default(),
    {
        DispersionSolver {
            max_iterations: DEFAULT_MAX_ITERATIONS,
            tolerance: Scalar::from_bits(DEFAULT_TOLERANCE_BITS),
            gravity: Scalar::from_bits(STANDARD_GRAVITY_BITS),
        }
    }
}

impl DispersionSolver {
    /// The solver with 100 iterations, tolerance 1e-10 and gravity 9.81.
    pub open spec fn spec_default() -> DispersionSolver {
        DispersionSolver {
            max_iterations: DEFAULT_MAX_ITERATIONS,
            tolerance: Scalar { bits: DEFAULT_TOLERANCE_BITS },
            gravity: Scalar { bits: STANDARD_GRAVITY_BITS },
        }
    }

    /// The verdict on one evaluation.
    pub open spec fn spec_judge(self, evaluation: NewtonEvaluation) -> NewtonVerdict {
        if evaluation.derivative.spec_abs().spec_lt(self.tolerance) {
            NewtonVerdict::DerivativeUnderflow
        } else if evaluation.change.spec_abs().spec_lt(self.tolerance) {
            NewtonVerdict::Converged(evaluation.next)
        } else {
            NewtonVerdict::Continue(evaluation.next.spec_max(self.tolerance))
        }
    }

    /// The iterate at which evaluation number `i` of a run takes place: the initial
    /// guess for the first, and after that what the evaluation before asked to go on from.
    pub open spec fn iterate(self, start: Scalar, trace: Seq<NewtonEvaluation>, i: int) -> Scalar {
        if i <= 0 {
            start
        } else {
            trace[i - 1].next.spec_max(self.tolerance)
        }
    }

    /// Whether `trace` is what a run from `start` can have evaluated: no more evaluations
    /// than the cap, each one a result of `evaluate` at its iterate, and each but the last
    /// with the verdict to continue.
    pub open spec fn is_run<F: Fn(Scalar) -> NewtonEvaluation>(
        self,
        start: Scalar,
        evaluate: F,
        trace: Seq<NewtonEvaluation>,
    ) -> bool {
        &&& trace.len() <= self.max_iterations
        &&& forall|i: int|
            0 <= i < trace.len() ==> call_ensures(
                evaluate,
                (self.iterate(start, trace, i),),
                #[trigger] trace[i],
            )
        &&& forall|i: int|
            0 <= i < trace.len() - 1 ==> self.spec_judge(#[trigger] trace[i]) is Continue
    }

    /// Whether a run has come to its end: its last verdict stops it, or the cap is used up.
    pub open spec fn is_finished(self, trace: Seq<NewtonEvaluation>) -> bool {
        ||| trace.len() == self.max_iterations
        ||| trace.len() > 0 && !(self.spec_judge(trace.last()) is Continue)
    }

    /// What a finished run returns.
    pub open spec fn run_outcome(self, trace: Seq<NewtonEvaluation>) -> Result<Scalar, WaveError> {
        if trace.len() == 0 {
            Err(WaveError::NoConvergence(self.max_iterations))
        } else {
            match self.spec_judge(trace.last()) {
                NewtonVerdict::DerivativeUnderflow => Err(WaveError::DerivativeUnderflow),
                NewtonVerdict::Converged(k) => Ok(k),
                NewtonVerdict::Continue(_) => Err(WaveError::NoConvergence(self.max_iterations)),
            }
        }
    }

    /// Whether `solved` is what a finished run from `start` along `trace` returns.
    pub open spec fn explains<F: Fn(Scalar) -> NewtonEvaluation>(
        self,
        start: Scalar,
        evaluate: F,
        trace: Seq<NewtonEvaluation>,
        solved: Result<Scalar, WaveError>,
    ) -> bool {
        &&& self.is_run(start, evaluate, trace)
        &&& self.is_finished(trace)
        &&& solved == self.run_outcome(trace)
    }

    /// The verdict on a dispersion residual: rejected when its magnitude exceeds 1e-6.
    pub open spec fn spec_validate_dispersion(residual: Scalar) -> Result<Scalar, WaveError> {
        if residual.spec_abs().spec_gt(Scalar { bits: RESIDUAL_LIMIT_BITS }) {
            Err(WaveError::ResidualTooLarge(residual))
        } else {
            Ok(residual)
        }
    }

    /// What becomes of a wave whose inputs passed and whose wave number was found.
    pub open spec fn spec_finish(
        unresolved: WaveParameters,
        wave_number: Scalar,
        resolution: Resolution,
    ) -> Result<WaveParameters, WaveError> {
        let resolved = WaveParameters {
            k: wave_number,
            c: resolution.phase_velocity,
            wavelength: resolution.wavelength,
            ..unresolved
        };
        match resolved.spec_validate(resolution.velocity_mismatch) {
            Err(e) => Err(e),
            Ok(()) => match Self::spec_validate_dispersion(resolution.residual) {
                Err(e) => Err(e),
                Ok(_) => Ok(resolved),
            },
        }
    }

    /// Creates a dispersion solver with default parameters.
    pub fn new() -> (solver: Self)
        ensures
            solver == Self::spec_default(),
    {
        DispersionSolver {
            max_iterations: DEFAULT_MAX_ITERATIONS,
            tolerance: Scalar::from_bits(DEFAULT_TOLERANCE_BITS),
            gravity: Scalar::from_bits(STANDARD_GRAVITY_BITS),
        }
    }

    /// Creates a dispersion solver with custom parameters.
    pub fn with_params(max_iterations: usize, tolerance: Scalar, gravity: Scalar) -> (solver: Self)
        ensures
            solver == (DispersionSolver { max_iterations, tolerance, gravity }),
    {
        DispersionSolver { max_iterations, tolerance, gravity }
    }

    /// Judges one evaluation of the Newton iteration.
    pub fn judge(&self, evaluation: NewtonEvaluation) -> (verdict: NewtonVerdict)
        ensures
            verdict == self.spec_judge(evaluation),
    {
        if evaluation.derivative.abs().lt(self.tolerance) {
            NewtonVerdict::DerivativeUnderflow
        } else if evaluation.change.abs().lt(self.tolerance) {
            NewtonVerdict::Converged(evaluation.next)
        } else {
            NewtonVerdict::Continue(evaluation.next.max(self.tolerance))
        }
    }

    /// Solves for the wave number by Newton-Raphson iteration from `initial_guess`.
    ///
    /// `evaluate` is called once per step, at the current iterate, and at most
    /// `max_iterations` times. The result is that of a finished run: the update of the
    /// first converged step, `DerivativeUnderflow` at the first ill-defined step, or
    /// `NoConvergence` when the cap is used up.
    pub fn solve_wave_number<F: Fn(Scalar) -> NewtonEvaluation>(
        &self,
        initial_guess: Scalar,
        evaluate: F,
    ) -> (solved: Result<Scalar, WaveError>)
        requires
            self.max_iterations > 0 ==> forall|k: Scalar| evaluate.requires((k,)),
        ensures
            exists|trace: Seq<NewtonEvaluation>| #[trigger]
                self.explains(initial_guess, evaluate, trace, solved),
    {
        let mut k = initial_guess;
        let mut steps: usize = 0;
        let ghost mut trace: Seq<NewtonEvaluation> = Seq::empty();
        while steps < self.max_iterations
            invariant
                steps <= self.max_iterations,
                trace.len() == steps,
                self.is_run(initial_guess, evaluate, trace),
                steps > 0 ==> self.spec_judge(trace.last()) is Continue,
                k == self.iterate(initial_guess, trace, steps as int),
                self.max_iterations > 0 ==> forall|k: Scalar| evaluate.requires((k,)),
            decreases self.max_iterations - steps,
        {
            let evaluation = evaluate(k);
            let ghost longer = trace.push(evaluation);
            proof {
                assert forall|i: int| 0 <= i < longer.len() implies call_ensures(
                    evaluate,
                    (self.iterate(initial_guess, longer, i),),
                    #[trigger] longer[i],
                ) by {
                    if i < trace.len() {
                        assert(longer[i] == trace[i]);
                        assert(self.iterate(initial_guess, longer, i) == self.iterate(
                            initial_guess,
                            trace,
                            i,
                        ));
                    }
                }
                assert forall|i: int| 0 <= i < longer.len() - 1 implies self.spec_judge(
                    #[trigger] longer[i],
                ) is Continue by {
                    assert(longer[i] == trace[i]);
                    if i < trace.len() - 1 {
                    } else {
                        assert(trace[i] == trace.last());
                    }
                }
                assert(longer.last() == evaluation);
                assert(self.is_run(initial_guess, evaluate, longer));
            }
            match self.judge(evaluation) {
                NewtonVerdict::DerivativeUnderflow => {
                    let failed = Err(WaveError::DerivativeUnderflow);
                    assert(self.explains(initial_guess, evaluate, longer, failed));
                    return failed;
                },
                NewtonVerdict::Converged(solution) => {
                    let found = Ok(solution);
                    assert(self.explains(initial_guess, evaluate, longer, found));
                    return found;
                },
                NewtonVerdict::Continue(iterate) => {
                    k = iterate;
                    steps = steps + 1;
                    proof {
                        trace = longer;
                    }
                },
            }
        }
        let exhausted = Err(WaveError::NoConvergence(self.max_iterations));
        assert(self.explains(initial_guess, evaluate, trace, exhausted));
        exhausted
    }

    /// Checks the dispersion residual f(k) of a wave number: it is handed back where its
    /// magnitude is within 1e-6.
    pub fn validate_dispersion(&self, residual: Scalar) -> (verdict: Result<Scalar, WaveError>)
        ensures
            verdict == Self::spec_validate_dispersion(residual),
    {
        if residual.abs().gt(Scalar::from_bits(RESIDUAL_LIMIT_BITS)) {
            Err(WaveError::ResidualTooLarge(residual))
        } else {
            Ok(residual)
        }
    }

    /// Completes unresolved parameters with a wave number and what the host derived from
    /// it, then checks them: first for consistency, then the dispersion residual.
    pub fn finish(
        &self,
        unresolved: WaveParameters,
        wave_number: Scalar,
        resolution: Resolution,
    ) -> (finished: Result<WaveParameters, WaveError>)
        ensures
            finished == Self::spec_finish(unresolved, wave_number, resolution),
    {
        let mut params = unresolved;
        params.update_from_dispersion(wave_number, resolution.phase_velocity, resolution.wavelength);
        match params.validate(resolution.velocity_mismatch) {
            Err(e) => Err(e),
            Ok(()) => match self.validate_dispersion(resolution.residual) {
                Err(e) => Err(e),
                Ok(_) => Ok(params),
            },
        }
    }

    /// Solves the wave parameters for a wave height, period and depth: the only way to a
    /// valid parameter set.
    ///
    /// The inputs are checked, the wave number is iterated from `seed.initial_guess`
    /// with `evaluate`, and what `resolve` derives from it is checked before the
    /// parameters are returned. The first failure on the way is the result.
    pub fn solve_wave_parameters<F: Fn(Scalar) -> NewtonEvaluation, R: Fn(Scalar) -> Resolution>(
        &self,
        wave_height: Scalar,
        wave_period: Scalar,
        water_depth: Scalar,
        seed: Seed,
        evaluate: F,
        resolve: R,
    ) -> (solved: Result<WaveParameters, WaveError>)
        requires
            WaveParameters::spec_check_inputs(
                wave_height,
                wave_period,
                water_depth,
                seed.breaking_ratio,
            ) is Ok ==> {
                &&& self.max_iterations > 0 ==> forall|k: Scalar| evaluate.requires((k,))
                &&& forall|k: Scalar| resolve.requires((k,))
            },
        ensures
            match WaveParameters::spec_check_inputs(
                wave_height,
                wave_period,
                water_depth,
                seed.breaking_ratio,
            ) {
                Err(e) => solved == Err::<WaveParameters, WaveError>(e),
                Ok(()) => exists|trace: Seq<NewtonEvaluation>, resolution: Resolution| #[trigger]
                    self.explains_solution(
                        wave_height,
                        wave_period,
                        water_depth,
                        seed,
                        evaluate,
                        resolve,
                        trace,
                        resolution,
                        solved,
                    ),
            },
    {
        let unresolved = match WaveParameters::new(
            wave_height,
            wave_period,
            water_depth,
            seed.breaking_ratio,
            seed.omega,
        ) {
            Err(e) => {
                return Err(e);
            },
            Ok(p) => p,
        };
        let wave_number = self.solve_wave_number(seed.initial_guess, &evaluate);
        let ghost trace = choose|trace: Seq<NewtonEvaluation>| #[trigger]
            self.explains(seed.initial_guess, &evaluate, trace, wave_number);
        match wave_number {
            Err(e) => {
                let failed = Err(e);
                proof {
                    let resolution = Resolution {
                        phase_velocity: Scalar::spec_zero(),
                        wavelength: Scalar::spec_zero(),
                        velocity_mismatch: Scalar::spec_zero(),
                        residual: Scalar::spec_zero(),
                    };
                    assert(self.explains_solution(
                        wave_height,
                        wave_period,
                        water_depth,
                        seed,
                        evaluate,
                        resolve,
                        trace,
                        resolution,
                        failed,
                    ));
                }
                failed
            },
            Ok(k) => {
                let resolution = resolve(k);
                let finished = self.finish(unresolved, k, resolution);
                assert(self.explains_solution(
                    wave_height,
                    wave_period,
                    water_depth,
                    seed,
                    evaluate,
                    resolve,
                    trace,
                    resolution,
                    finished,
                ));
                finished
            },
        }
    }

    /// Whether `solved` is what solving returns for inputs that passed their check, when
    /// the iteration ran along `trace` and, where it found a wave number, the host
    /// derived `resolution` from it.
    pub open spec fn explains_solution<
        F: Fn(Scalar) -> NewtonEvaluation,
        R: Fn(Scalar) -> Resolution,
    >(
        self,
        wave_height: Scalar,
        wave_period: Scalar,
        water_depth: Scalar,
        seed: Seed,
        evaluate: F,
        resolve: R,
        trace: Seq<NewtonEvaluation>,
        resolution: Resolution,
        solved: Result<WaveParameters, WaveError>,
    ) -> bool {
        &&& self.is_run(seed.initial_guess, evaluate, trace)
        &&& self.is_finished(trace)
        &&& match self.run_outcome(trace) {
            Err(e) => solved == Err::<WaveParameters, WaveError>(e),
            Ok(k) => {
                &&& call_ensures(resolve, (k,), resolution)
                &&& solved == Self::spec_finish(
                    WaveParameters::spec_unresolved(wave_height, wave_period, water_depth, seed.omega),
                    k,
                    resolution,
                )
            },
        }
    }
}

/// A run never evaluates more often than the cap allows, and a wave number is only
/// handed out by a step whose change is below the tolerance.
pub proof fn lemma_run_is_bounded<F: Fn(Scalar) -> NewtonEvaluation>(
    solver: DispersionSolver,
    start: Scalar,
    evaluate: F,
    trace: Seq<NewtonEvaluation>,
    solved: Result<Scalar, WaveError>,
)
    requires
        solver.explains(start, evaluate, trace, solved),
    ensures
        trace.len() <= solver.max_iterations,
        solved matches Ok(k) ==> {
            &&& trace.len() > 0
            &&& k == trace.last().next
            &&& trace.last().change.spec_abs().spec_lt(solver.tolerance)
            &&& !trace.last().derivative.spec_abs().spec_lt(solver.tolerance)
        },
        solved matches Err(e) ==> e == WaveError::DerivativeUnderflow || e == WaveError::NoConvergence(
            solver.max_iterations,
        ),
        solved == Err::<Scalar, WaveError>(WaveError::NoConvergence(solver.max_iterations))
            ==> trace.len() == solver.max_iterations,
{
}

/// Whether `evaluate` has one result at each iterate, as arithmetic has.
pub open spec fn is_function<F: Fn(Scalar) -> NewtonEvaluation>(evaluate: F) -> bool {
    forall|k: Scalar, a: NewtonEvaluation, b: NewtonEvaluation|
        #[trigger] call_ensures(evaluate, (k,), a) && #[trigger] call_ensures(evaluate, (k,), b)
            ==> a == b
}

proof fn lemma_runs_agree<F: Fn(Scalar) -> NewtonEvaluation>(
    solver: DispersionSolver,
    start: Scalar,
    evaluate: F,
    first: Seq<NewtonEvaluation>,
    second: Seq<NewtonEvaluation>,
    i: int,
)
    requires
        is_function(evaluate),
        solver.is_run(start, evaluate, first),
        solver.is_run(start, evaluate, second),
        0 <= i < first.len(),
        i < second.len(),
    ensures
        first[i] == second[i],
    decreases i,
{
    if i > 0 {
        lemma_runs_agree(solver, start, evaluate, first, second, i - 1);
    }
    assert(solver.iterate(start, first, i) == solver.iterate(start, second, i));
    assert(call_ensures(evaluate, (solver.iterate(start, first, i),), first[i]));
    assert(call_ensures(evaluate, (solver.iterate(start, second, i),), second[i]));
}

/// Where the evaluation is a function of the iterate, the run from an initial guess is
/// one run and its result one result: two finished runs coincide step by step.
pub proof fn lemma_run_is_determined<F: Fn(Scalar) -> NewtonEvaluation>(
    solver: DispersionSolver,
    start: Scalar,
    evaluate: F,
    first: Seq<NewtonEvaluation>,
    first_solved: Result<Scalar, WaveError>,
    second: Seq<NewtonEvaluation>,
    second_solved: Result<Scalar, WaveError>,
)
    requires
        is_function(evaluate),
        solver.explains(start, evaluate, first, first_solved),
        solver.explains(start, evaluate, second, second_solved),
    ensures
        first == second,
        first_solved == second_solved,
{
    if first.len() < second.len() {
        if first.len() > 0 {
            lemma_runs_agree(solver, start, evaluate, first, second, first.len() - 1);
            assert(solver.spec_judge(second[first.len() - 1]) is Continue);
        }
        assert(false);
    } else if second.len() < first.len() {
        if second.len() > 0 {
            lemma_runs_agree(solver, start, evaluate, first, second, second.len() - 1);
            assert(solver.spec_judge(first[second.len() - 1]) is Continue);
        }
        assert(false);
    }
    assert forall|i: int| 0 <= i < first.len() implies first[i] == second[i] by {
        lemma_runs_agree(solver, start, evaluate, first, second, i);
    }
    assert(first =~= second);
}

/// Parameters that solving hands out have passed every check on the way: the inputs
/// passed theirs, the iteration converged to the wave number, and the parameters are
/// the inputs completed by what was resolved from it.
pub proof fn lemma_solved_parameters_are_valid<
    F: Fn(Scalar) -> NewtonEvaluation,
    R: Fn(Scalar) -> Resolution,
>(
    solver: DispersionSolver,
    wave_height: Scalar,
    wave_period: Scalar,
    water_depth: Scalar,
    seed: Seed,
    evaluate: F,
    resolve: R,
    trace: Seq<NewtonEvaluation>,
    resolution: Resolution,
    solved: Result<WaveParameters, WaveError>,
)
    requires
        solver.explains_solution(
            wave_height,
            wave_period,
            water_depth,
            seed,
            evaluate,
            resolve,
            trace,
            resolution,
            solved,
        ),
        solved is Ok,
    ensures
        0 < trace.len() <= solver.max_iterations,
        trace.last().change.spec_abs().spec_lt(solver.tolerance),
        call_ensures(resolve, (trace.last().next,), resolution),
        solved->Ok_0 == (WaveParameters {
            k: trace.last().next,
            omega: seed.omega,
            c: resolution.phase_velocity,
            h: wave_height,
            d: water_depth,
            period: wave_period,
            wavelength: resolution.wavelength,
        }),
        !solved->Ok_0.k.is_nan() ==> solved->Ok_0.k.spec_gt(Scalar::spec_zero()),
        !solved->Ok_0.omega.is_nan() ==> solved->Ok_0.omega.spec_gt(Scalar::spec_zero()),
        !solved->Ok_0.c.is_nan() ==> solved->Ok_0.c.spec_gt(Scalar::spec_zero()),
        !resolution.velocity_mismatch.is_nan() ==> resolution.velocity_mismatch.spec_abs().spec_le(
            Scalar { bits: crate::waves::parameters::CONSISTENCY_TOLERANCE_BITS },
        ),
        !resolution.residual.is_nan() ==> resolution.residual.spec_abs().spec_le(
            Scalar { bits: RESIDUAL_LIMIT_BITS },
        ),
{
}

/// Parameters that solving hands out have passed both checks: where they are numbers,
/// wave number, angular frequency and phase velocity are strictly positive, the phase
/// velocity is within 1e-6 of omega/k as the host measured it, and the dispersion
/// residual is within 1e-6.
pub proof fn lemma_finished_parameters_are_valid(
    unresolved: WaveParameters,
    wave_number: Scalar,
    resolution: Resolution,
)
    requires
        DispersionSolver::spec_finish(unresolved, wave_number, resolution) is Ok,
    ensures
        ({
            let p = DispersionSolver::spec_finish(unresolved, wave_number, resolution)->Ok_0;
            &&& p.k == wave_number
            &&& p.c == resolution.phase_velocity
            &&& p.wavelength == resolution.wavelength
            &&& p.omega == unresolved.omega
            &&& p.h == unresolved.h
            &&& p.d == unresolved.d
            &&& p.period == unresolved.period
            &&& !p.k.is_nan() ==> p.k.spec_gt(Scalar::spec_zero())
            &&& !p.omega.is_nan() ==> p.omega.spec_gt(Scalar::spec_zero())
            &&& !p.c.is_nan() ==> p.c.spec_gt(Scalar::spec_zero())
        }),
        !resolution.velocity_mismatch.is_nan() ==> resolution.velocity_mismatch.spec_abs().spec_le(
            Scalar { bits: crate::waves::parameters::CONSISTENCY_TOLERANCE_BITS },
        ),
        !resolution.residual.is_nan() ==> resolution.residual.spec_abs().spec_le(
            Scalar { bits: RESIDUAL_LIMIT_BITS },
        ),
{
}

/// The defaults and the limit of this module are the decimal numbers of the rules,
/// rounded to double precision: 1e-10, 9.81 and 1e-6.
pub proof fn lemma_limits_are_decimal()
    ensures
        (Scalar { bits: DEFAULT_TOLERANCE_BITS }).is_rounded(1, 10_000_000_000),
        (Scalar { bits: STANDARD_GRAVITY_BITS }).is_rounded(981, 100),
        (Scalar { bits: RESIDUAL_LIMIT_BITS }).is_rounded(1, 1_000_000),
{
    lemma2_to64();
    lemma2_to64_rest();
    lemma_pow2_adds(64, 8);
    lemma_pow2_adds(64, 22);
}

} // verus!
