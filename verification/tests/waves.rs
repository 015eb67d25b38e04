use coastal_engineering_platform::waves::boundary::{BoundaryApplicator, BoundaryStatus, RampPhase};
use coastal_engineering_platform::waves::dispersion::{
    DispersionSolver, NewtonEvaluation, NewtonVerdict, Resolution, Seed, DEFAULT_TOLERANCE_BITS,
    RESIDUAL_LIMIT_BITS, STANDARD_GRAVITY_BITS,
};
use coastal_engineering_platform::waves::error::{
    Inconsistency, InputQuantity, ResolvedQuantity, WaveError,
};
use coastal_engineering_platform::waves::parameters::{
    WaterDepthRegime, WaveParameters, BREAKING_LIMIT_BITS, CONSISTENCY_TOLERANCE_BITS,
    DEEP_LIMIT_BITS, SHALLOW_LIMIT_BITS,
};
use coastal_engineering_platform::waves::scalar::{Scalar, INFINITY_BITS, ONE_BITS, SIGN_BIT};
use coastal_engineering_platform::waves::velocity::{
    VelocityCalculator, ENERGY_ERROR_LIMIT_BITS, LINEAR_STEEPNESS_LIMIT_BITS,
    SHALLOW_COEFFICIENT_LIMIT_BITS,
};
use std::cell::{Cell, RefCell};
use std::f64::consts::PI;

// The arithmetic of a host, as the engine expects it.

fn s(x: f64) -> Scalar {
    Scalar::from_bits(x.to_bits())
}

fn f(x: Scalar) -> f64 {
    f64::from_bits(x.to_bits())
}

fn dispersion_function(gravity: f64, k: f64, omega: f64, depth: f64) -> f64 {
    let kd = k * depth;
    let dispersion_rhs = gravity * k * kd / (1.0 + kd * kd / 4.0);
    omega * omega - dispersion_rhs
}

fn dispersion_derivative(gravity: f64, k: f64, depth: f64) -> f64 {
    let kd = k * depth;
    let kd2 = kd * kd;
    let denominator = 1.0 + kd2 / 4.0;
    let denominator2 = denominator * denominator;
    let term1 = kd / denominator;
    let term2 = k * depth * (1.0 - kd2 / 4.0) / denominator2;
    -gravity * (term1 + term2)
}

fn phase_velocity(gravity: f64, k: f64, depth: f64) -> f64 {
    let kd = k * depth;
    let c_squared = gravity * kd / (k * (1.0 + kd * kd / 4.0));
    c_squared.sqrt()
}

fn new_parameters(h: f64, t: f64, d: f64) -> Result<WaveParameters, WaveError> {
    WaveParameters::new(s(h), s(t), s(d), s(h / d), s(2.0 * PI / t))
}

fn solve_with(solver: &DispersionSolver, h: f64, t: f64, d: f64) -> Result<WaveParameters, WaveError> {
    let gravity = f(solver.gravity);
    let omega = 2.0 * PI / t;
    let seed = Seed {
        breaking_ratio: s(h / d),
        omega: s(omega),
        initial_guess: s(omega * omega / gravity),
    };
    solver.solve_wave_parameters(
        s(h),
        s(t),
        s(d),
        seed,
        |k: Scalar| {
            let k = f(k);
            let value = dispersion_function(gravity, k, omega, d);
            let derivative = dispersion_derivative(gravity, k, d);
            let next = k - value / derivative;
            NewtonEvaluation { derivative: s(derivative), next: s(next), change: s(next - k) }
        },
        |k: Scalar| {
            let k = f(k);
            let c = omega / k;
            Resolution {
                phase_velocity: s(c),
                wavelength: s(2.0 * PI / k),
                velocity_mismatch: s(c - omega / k),
                residual: s(dispersion_function(gravity, k, omega, d)),
            }
        },
    )
}

fn solve(h: f64, t: f64, d: f64) -> Result<WaveParameters, WaveError> {
    solve_with(&DispersionSolver::new(), h, t, d)
}

fn amplitude(p: &WaveParameters) -> f64 {
    f(p.h) / 2.0
}

fn frequency(p: &WaveParameters) -> f64 {
    1.0 / f(p.period)
}

fn depth_coefficient(calc: &VelocityCalculator) -> f64 {
    let kd = f(calc.params.k) * f(calc.params.d);
    f(calc.depth_coefficient(s(kd), |x: Scalar| s(f(x).tanh())))
}

fn horizontal_velocity(calc: &VelocityCalculator, x: f64, time: f64) -> f64 {
    let p = &calc.params;
    let phase = f(p.k) * x - f(p.omega) * time;
    amplitude(p) * f(p.c) * depth_coefficient(calc) * phase.cos()
}

fn surface_elevation(calc: &VelocityCalculator, x: f64, time: f64) -> f64 {
    let p = &calc.params;
    let phase = f(p.k) * x - f(p.omega) * time;
    amplitude(p) * phase.cos()
}

fn velocity_amplitude(calc: &VelocityCalculator) -> f64 {
    amplitude(&calc.params) * f(calc.params.c) * depth_coefficient(calc)
}

fn wave_steepness(calc: &VelocityCalculator) -> f64 {
    f(calc.params.k) * amplitude(&calc.params)
}

fn recommended_time_step(calc: &VelocityCalculator) -> f64 {
    let typical_dx = f(calc.params.wavelength) / 20.0;
    0.5 * typical_dx / f(calc.params.c)
}

fn energy_error(calc: &VelocityCalculator, x: f64, time: f64) -> f64 {
    let u = horizontal_velocity(calc, x, time);
    let eta = surface_elevation(calc, x, time);
    let g = f(calc.gravity);
    let kinetic_energy = 0.5 * u * u * f(calc.params.d);
    let potential_energy = 0.5 * g * eta * eta;
    let expected_energy = 0.125 * g * f(calc.params.h) * f(calc.params.h);
    (kinetic_energy + potential_energy - expected_energy).abs() / expected_energy
}

fn taper(t: Scalar, tau: Scalar) -> Scalar {
    s(0.5 * (1.0 - (PI * (f(t) / f(tau))).cos()))
}

fn boundary_velocity(applicator: &BoundaryApplicator) -> f64 {
    let calc = applicator.velocity_calc;
    f(applicator.boundary_velocity(|x: Scalar, t: Scalar| s(horizontal_velocity(&calc, f(x), f(t)))))
}

fn boundary_surface_elevation(applicator: &BoundaryApplicator) -> f64 {
    let calc = applicator.velocity_calc;
    f(applicator
        .boundary_surface_elevation(|x: Scalar, t: Scalar| s(surface_elevation(&calc, f(x), f(t)))))
}

fn boundary_flux(applicator: &BoundaryApplicator) -> f64 {
    let calc = applicator.velocity_calc;
    f(applicator.boundary_flux(
        |x: Scalar, t: Scalar| s(horizontal_velocity(&calc, f(x), f(t))),
        |velocity: Scalar, depth: Scalar| s(f(velocity) * f(depth)),
    ))
}

fn ramp_up_factor(applicator: &BoundaryApplicator, ramp_duration: f64) -> f64 {
    f(applicator.ramp_up_factor(s(ramp_duration), taper))
}

fn apply(applicator: &BoundaryApplicator, velocities: &mut [f64], elevations: &mut [f64]) {
    let calc = applicator.velocity_calc;
    applicator.apply_boundary_conditions(
        velocities,
        elevations,
        |x: Scalar, t: Scalar| horizontal_velocity(&calc, f(x), f(t)),
        |x: Scalar, t: Scalar| surface_elevation(&calc, f(x), f(t)),
    );
}

fn apply_ramped(
    applicator: &BoundaryApplicator,
    velocities: &mut [f64],
    elevations: &mut [f64],
    ramp_duration: f64,
) {
    let calc = applicator.velocity_calc;
    applicator.apply_ramped_boundary_conditions(
        velocities,
        elevations,
        s(ramp_duration),
        |x: Scalar, t: Scalar| horizontal_velocity(&calc, f(x), f(t)),
        |x: Scalar, t: Scalar| surface_elevation(&calc, f(x), f(t)),
        taper,
        |value: f64, factor: Scalar| value * f(factor),
    );
}

fn status(applicator: &BoundaryApplicator) -> BoundaryStatus {
    let calc = applicator.velocity_calc;
    applicator.status(
        |x: Scalar, t: Scalar| s(horizontal_velocity(&calc, f(x), f(t))),
        |x: Scalar, t: Scalar| s(surface_elevation(&calc, f(x), f(t))),
    )
}

fn advance(applicator: &mut BoundaryApplicator, dt: f64) {
    applicator.advance_time(s(dt), |t: Scalar, dt: Scalar| s(f(t) + f(dt)));
}

fn create_test_velocity_calculator() -> VelocityCalculator {
    let params = solve(0.5, 4.0, 2.0).unwrap();
    VelocityCalculator::new(params)
}

fn create_test_boundary_applicator() -> BoundaryApplicator {
    let params = solve(0.5, 4.0, 2.0).unwrap();
    BoundaryApplicator::new(params)
}

// Parameters

#[test]
fn test_wave_parameters_creation() {
    let params = new_parameters(1.0, 4.0, 2.0).unwrap();
    assert_eq!(f(params.h), 1.0);
    assert_eq!(f(params.period), 4.0);
    assert_eq!(f(params.d), 2.0);
    assert_eq!(amplitude(&params), 0.5);
    assert_eq!(frequency(&params), 0.25);
}

#[test]
fn test_wave_breaking_validation() {
    // Should fail for waves that are too large
    let result = new_parameters(2.0, 4.0, 2.0); // H/d = 1.0 > 0.78
    assert!(result.is_err());

    // Should succeed for reasonable waves
    let result = new_parameters(1.0, 4.0, 2.0); // H/d = 0.5 < 0.78
    assert!(result.is_ok());
}

#[test]
fn test_invalid_parameters() {
    assert!(new_parameters(0.0, 4.0, 2.0).is_err()); // Zero height
    assert!(new_parameters(1.0, 0.0, 2.0).is_err()); // Zero period
    assert!(new_parameters(1.0, 4.0, 0.0).is_err()); // Zero depth
}

#[test]
fn construction_leaves_sentinels_and_keeps_omega() {
    let params = new_parameters(1.0, 4.0, 2.0).unwrap();
    assert_eq!(f(params.omega), 2.0 * PI / 4.0);
    assert_eq!(params.k.to_bits(), 0);
    assert_eq!(params.c.to_bits(), 0);
    assert_eq!(params.wavelength.to_bits(), 0);
}

#[test]
fn every_input_is_rejected_under_its_own_name() {
    assert!(matches!(
        new_parameters(-1.0, 4.0, 2.0),
        Err(WaveError::InvalidInput(InputQuantity::WaveHeight))
    ));
    assert!(matches!(
        new_parameters(1.0, -4.0, 2.0),
        Err(WaveError::InvalidInput(InputQuantity::WavePeriod))
    ));
    assert!(matches!(
        new_parameters(1.0, 4.0, -2.0),
        Err(WaveError::InvalidInput(InputQuantity::WaterDepth))
    ));
    // The height is looked at first, the breaking ratio last.
    assert!(matches!(
        new_parameters(0.0, 0.0, 0.0),
        Err(WaveError::InvalidInput(InputQuantity::WaveHeight))
    ));
    assert!(matches!(
        new_parameters(5.0, 0.0, 1.0),
        Err(WaveError::InvalidInput(InputQuantity::WavePeriod))
    ));
}

#[test]
fn breaking_guard() {
    match new_parameters(2.0, 4.0, 2.0) {
        Err(WaveError::BreakingRisk(ratio)) => assert_eq!(f(ratio), 1.0),
        other => panic!("expected a breaking risk, got {:?}", other),
    }
    // Exactly at the limit the wave is accepted, just above it is not.
    assert!(WaveParameters::check_inputs(s(0.78), s(4.0), s(1.0), s(0.78)).is_ok());
    assert!(matches!(
        WaveParameters::check_inputs(s(0.79), s(4.0), s(1.0), s(0.7800000000000001)),
        Err(WaveError::BreakingRisk(_))
    ));
}

#[test]
fn update_from_dispersion_fills_what_was_solved() {
    let mut params = new_parameters(1.0, 4.0, 2.0).unwrap();
    params.update_from_dispersion(s(0.5), s(3.0), s(12.0));
    assert_eq!(f(params.k), 0.5);
    assert_eq!(f(params.c), 3.0);
    assert_eq!(f(params.wavelength), 12.0);
    assert_eq!(f(params.h), 1.0);
    assert_eq!(f(params.d), 2.0);
    assert_eq!(f(params.period), 4.0);
    assert_eq!(f(params.omega), 2.0 * PI / 4.0);
}

#[test]
fn validate_names_what_is_inconsistent() {
    let mut params = new_parameters(1.0, 4.0, 2.0).unwrap();
    assert!(matches!(
        params.validate(s(0.0)),
        Err(WaveError::InvariantViolation(Inconsistency::NotPositive(ResolvedQuantity::WaveNumber)))
    ));
    params.update_from_dispersion(s(0.5), s(0.0), s(12.0));
    assert!(matches!(
        params.validate(s(0.0)),
        Err(WaveError::InvariantViolation(Inconsistency::NotPositive(
            ResolvedQuantity::PhaseVelocity
        )))
    ));
    params.omega = s(-1.0);
    assert!(matches!(
        params.validate(s(0.0)),
        Err(WaveError::InvariantViolation(Inconsistency::NotPositive(
            ResolvedQuantity::AngularFrequency
        )))
    ));
    params.omega = s(1.5);
    params.update_from_dispersion(s(0.5), s(3.0), s(12.0));
    assert!(params.validate(s(0.0)).is_ok());
    assert!(params.validate(s(1e-6)).is_ok());
    assert!(params.validate(s(-1e-6)).is_ok());
    match params.validate(s(-2e-6)) {
        Err(WaveError::InvariantViolation(Inconsistency::VelocityMismatch(gap))) => {
            assert_eq!(f(gap), -2e-6)
        }
        other => panic!("expected a mismatch, got {:?}", other),
    }
}

#[test]
fn regime_limits() {
    assert_eq!(WaterDepthRegime::classify(s(0.01)), WaterDepthRegime::Shallow);
    assert_eq!(WaterDepthRegime::classify(s(0.049999)), WaterDepthRegime::Shallow);
    assert_eq!(WaterDepthRegime::classify(s(1.0 / 20.0)), WaterDepthRegime::Intermediate);
    assert_eq!(WaterDepthRegime::classify(s(0.25)), WaterDepthRegime::Intermediate);
    assert_eq!(WaterDepthRegime::classify(s(0.5)), WaterDepthRegime::Intermediate);
    assert_eq!(WaterDepthRegime::classify(s(0.500001)), WaterDepthRegime::Deep);
    assert_eq!(WaterDepthRegime::classify(s(3.0)), WaterDepthRegime::Deep);
    assert_eq!(WaterDepthRegime::classify(s(-1.0)), WaterDepthRegime::Shallow);
    assert_eq!(WaterDepthRegime::classify(s(f64::NAN)), WaterDepthRegime::Intermediate);
    assert_eq!(WaterDepthRegime::classify(s(f64::INFINITY)), WaterDepthRegime::Deep);
}

fn order(r: WaterDepthRegime) -> u8 {
    match r {
        WaterDepthRegime::Shallow => 0,
        WaterDepthRegime::Intermediate => 1,
        WaterDepthRegime::Deep => 2,
    }
}

#[test]
fn regime_never_falls_back_as_the_ratio_grows() {
    let mut last = 0;
    let mut seen = [false; 3];
    for i in 0..2000 {
        let ratio = i as f64 * 0.0005;
        let now = order(WaterDepthRegime::classify(s(ratio)));
        assert!(now >= last, "regime fell back at ratio {}", ratio);
        seen[now as usize] = true;
        last = now;
    }
    assert_eq!(seen, [true, true, true]);
}

#[test]
fn regime_moves_from_shallow_to_deep_as_the_depth_grows() {
    // A low wave of period 4 s over depths from 0.1 m to 15 m.
    let mut last = 0;
    let mut seen = [false; 3];
    let mut depth = 0.1;
    while depth <= 15.0 {
        let p = solve(0.01, 4.0, depth).unwrap();
        let now = order(WaterDepthRegime::classify(s(f(p.d) / f(p.wavelength))));
        assert!(now >= last, "regime fell back at depth {}", depth);
        assert!(now - last <= 1, "a regime was skipped at depth {}", depth);
        seen[now as usize] = true;
        last = now;
        depth += 0.05;
    }
    assert_eq!(seen, [true, true, true]);
}

#[test]
fn regime_names() {
    assert_eq!(WaterDepthRegime::Shallow.to_string(), "Shallow Water");
    assert_eq!(WaterDepthRegime::Intermediate.to_string(), "Intermediate Water");
    assert_eq!(WaterDepthRegime::Deep.to_string(), "Deep Water");
}

#[test]
fn limits_are_the_numbers_of_the_rules() {
    assert_eq!(f64::from_bits(BREAKING_LIMIT_BITS), 0.78);
    assert_eq!(f64::from_bits(CONSISTENCY_TOLERANCE_BITS), 1e-6);
    assert_eq!(f64::from_bits(SHALLOW_LIMIT_BITS), 1.0 / 20.0);
    assert_eq!(f64::from_bits(DEEP_LIMIT_BITS), 0.5);
    assert_eq!(f64::from_bits(DEFAULT_TOLERANCE_BITS), 1e-10);
    assert_eq!(f64::from_bits(STANDARD_GRAVITY_BITS), 9.81);
    assert_eq!(f64::from_bits(RESIDUAL_LIMIT_BITS), 1e-6);
    assert_eq!(f64::from_bits(ENERGY_ERROR_LIMIT_BITS), 0.1);
    assert_eq!(f64::from_bits(LINEAR_STEEPNESS_LIMIT_BITS), 0.1);
    assert_eq!(f64::from_bits(SHALLOW_COEFFICIENT_LIMIT_BITS), 0.1);
    assert_eq!(f64::from_bits(ONE_BITS), 1.0);
    assert_eq!(f64::from_bits(INFINITY_BITS), f64::INFINITY);
    assert_eq!(SIGN_BIT, (-0.0f64).to_bits());
    assert_eq!(f(Scalar::one()), 1.0);
}

// Dispersion

#[test]
fn test_dispersion_solver_creation() {
    let solver = DispersionSolver::new();
    assert_eq!(solver.max_iterations, 100);
    assert_eq!(f(solver.tolerance), 1e-10);
    assert_eq!(f(solver.gravity), 9.81);
}

#[test]
fn default_and_custom_solvers() {
    let solver = DispersionSolver::default();
    assert_eq!(solver.max_iterations, 100);
    assert_eq!(f(solver.tolerance), 1e-10);
    assert_eq!(f(solver.gravity), 9.81);
    let custom = DispersionSolver::with_params(7, s(1e-3), s(1.62));
    assert_eq!(custom.max_iterations, 7);
    assert_eq!(f(custom.tolerance), 1e-3);
    assert_eq!(f(custom.gravity), 1.62);
}

#[test]
fn test_shallow_water_limit() {
    let solver = DispersionSolver::new();
    let params = solve_with(&solver, 0.3, 4.0, 1.0).unwrap();

    // In shallow water, c is about sqrt(g d)
    let expected_c = (f(solver.gravity) * f(params.d)).sqrt();
    let relative_error = (f(params.c) - expected_c).abs() / expected_c;

    // Should be very close to shallow water limit
    assert!(
        relative_error < 0.1,
        "Shallow water limit not satisfied: c = {:.3}, expected = {:.3}",
        f(params.c),
        expected_c
    );
    assert!((expected_c - 3.132).abs() < 1e-3);
    assert!(f(params.wavelength) / f(params.d) < 20.0);
}

#[test]
fn test_deep_water_limit() {
    let solver = DispersionSolver::new();
    let params = solve_with(&solver, 1.0, 8.0, 20.0).unwrap();

    // In deep water, c = gT/(2 pi)
    let expected_c = f(solver.gravity) * f(params.period) / (2.0 * PI);
    let relative_error = (f(params.c) - expected_c).abs() / expected_c;

    // Should be reasonably close to deep water limit
    assert!(
        relative_error < 0.1,
        "Deep water limit not satisfied: c = {:.3}, expected = {:.3}",
        f(params.c),
        expected_c
    );
    assert!((expected_c - 12.486).abs() < 1e-2);
}

#[test]
fn test_dispersion_validation() {
    let solver = DispersionSolver::new();
    let params = solve_with(&solver, 1.0, 4.0, 2.0).unwrap();

    // Validate that dispersion relation is satisfied
    let residual =
        dispersion_function(f(solver.gravity), f(params.k), f(params.omega), f(params.d));
    let result = solver.validate_dispersion(s(residual));
    assert!(result.is_ok());

    let residual = f(result.unwrap());
    assert!(residual.abs() < 1e-6, "Dispersion relation residual too large: {:.2e}", residual);
}

#[test]
fn test_phase_velocity_consistency() {
    let solver = DispersionSolver::new();
    let params = solve_with(&solver, 1.0, 4.0, 2.0).unwrap();

    // Compute phase velocity directly from the dispersion relation
    let c_direct = phase_velocity(f(solver.gravity), f(params.k), f(params.d));

    // Should match c from wave parameters
    let relative_error = (f(params.c) - c_direct).abs() / f(params.c);
    assert!(
        relative_error < 1e-6,
        "Phase velocity inconsistency: c = {:.6}, c_direct = {:.6}",
        f(params.c),
        c_direct
    );
}

#[test]
fn solved_parameters_are_positive_and_consistent() {
    for &(h, t, d) in
        [(0.3, 4.0, 1.0), (1.0, 8.0, 20.0), (1.0, 4.0, 2.0), (0.5, 4.0, 2.0), (0.05, 1.5, 0.2)].iter()
    {
        let p = solve(h, t, d).unwrap();
        assert!(f(p.omega) > 0.0 && f(p.k) > 0.0 && f(p.c) > 0.0 && f(p.wavelength) > 0.0);
        assert!((f(p.c) * f(p.k) - f(p.omega)).abs() <= 1e-6 * f(p.omega));
        assert!(dispersion_function(9.81, f(p.k), f(p.omega), d).abs() <= 1e-6);
        assert_eq!(f(p.h), h);
        assert_eq!(f(p.period), t);
        assert_eq!(f(p.d), d);
    }
}

#[test]
fn solving_rejects_bad_inputs_before_it_iterates() {
    assert!(matches!(
        solve(0.0, 4.0, 2.0),
        Err(WaveError::InvalidInput(InputQuantity::WaveHeight))
    ));
    assert!(matches!(solve(2.0, 4.0, 2.0), Err(WaveError::BreakingRisk(_))));
    let solver = DispersionSolver::new();
    let seed = Seed { breaking_ratio: s(1.0), omega: s(1.0), initial_guess: s(1.0) };
    let result = solver.solve_wave_parameters(
        s(2.0),
        s(4.0),
        s(2.0),
        seed,
        |_k: Scalar| -> NewtonEvaluation { panic!("the iteration must not start") },
        |_k: Scalar| -> Resolution { panic!("nothing to resolve") },
    );
    assert!(matches!(result, Err(WaveError::BreakingRisk(_))));
}

#[test]
fn judge_tells_the_three_verdicts_apart() {
    let solver = DispersionSolver::new();
    let tiny = NewtonEvaluation { derivative: s(-1e-11), next: s(1.0), change: s(0.5) };
    assert!(matches!(solver.judge(tiny), NewtonVerdict::DerivativeUnderflow));
    let done = NewtonEvaluation { derivative: s(-3.0), next: s(0.25), change: s(-5e-11) };
    match solver.judge(done) {
        NewtonVerdict::Converged(k) => assert_eq!(f(k), 0.25),
        other => panic!("expected convergence, got {:?}", other),
    }
    let on = NewtonEvaluation { derivative: s(-3.0), next: s(0.25), change: s(0.1) };
    match solver.judge(on) {
        NewtonVerdict::Continue(k) => assert_eq!(f(k), 0.25),
        other => panic!("expected to continue, got {:?}", other),
    }
    // An update below the tolerance is raised to it.
    let negative = NewtonEvaluation { derivative: s(-3.0), next: s(-0.25), change: s(-0.5) };
    match solver.judge(negative) {
        NewtonVerdict::Continue(k) => assert_eq!(f(k), 1e-10),
        other => panic!("expected to continue, got {:?}", other),
    }
    let lost = NewtonEvaluation { derivative: s(f64::NAN), next: s(f64::NAN), change: s(f64::NAN) };
    match solver.judge(lost) {
        NewtonVerdict::Continue(k) => assert_eq!(f(k), 1e-10),
        other => panic!("expected to continue, got {:?}", other),
    }
    // At exactly the tolerance neither test strikes.
    let edge = NewtonEvaluation { derivative: s(1e-10), next: s(2.0), change: s(1e-10) };
    assert!(matches!(solver.judge(edge), NewtonVerdict::Continue(_)));
}

#[test]
fn the_iteration_stops_at_its_cap() {
    let solver = DispersionSolver::with_params(5, s(1e-10), s(9.81));
    let calls = Cell::new(0usize);
    let result = solver.solve_wave_number(s(1.0), |k: Scalar| {
        calls.set(calls.get() + 1);
        NewtonEvaluation { derivative: s(1.0), next: s(f(k) + 1.0), change: s(1.0) }
    });
    assert!(matches!(result, Err(WaveError::NoConvergence(5))));
    assert_eq!(calls.get(), 5);

    let none = DispersionSolver::with_params(0, s(1e-10), s(9.81));
    let result = none.solve_wave_number(s(1.0), |_k: Scalar| -> NewtonEvaluation {
        panic!("no step is allowed")
    });
    assert!(matches!(result, Err(WaveError::NoConvergence(0))));
}

#[test]
fn the_iteration_walks_from_iterate_to_iterate() {
    let solver = DispersionSolver::new();
    let seen = RefCell::new(Vec::new());
    // x -> x/2 + 1 leads to 2; the step is the change.
    let result = solver.solve_wave_number(s(10.0), |k: Scalar| {
        let k = f(k);
        seen.borrow_mut().push(k);
        let next = k / 2.0 + 1.0;
        NewtonEvaluation { derivative: s(-1.0), next: s(next), change: s(next - k) }
    });
    let k = f(result.unwrap());
    assert!((k - 2.0).abs() < 1e-9);
    let seen = seen.borrow();
    assert_eq!(seen[0], 10.0);
    assert_eq!(seen[1], 6.0);
    assert_eq!(seen[2], 4.0);
    assert!(seen.len() < 100);
}

#[test]
fn a_flat_derivative_ends_the_iteration() {
    let solver = DispersionSolver::new();
    let calls = Cell::new(0usize);
    let result = solver.solve_wave_number(s(1.0), |_k: Scalar| {
        calls.set(calls.get() + 1);
        if calls.get() < 3 {
            NewtonEvaluation { derivative: s(1.0), next: s(1.0), change: s(1.0) }
        } else {
            NewtonEvaluation { derivative: s(0.0), next: s(f64::INFINITY), change: s(f64::INFINITY) }
        }
    });
    assert!(matches!(result, Err(WaveError::DerivativeUnderflow)));
    assert_eq!(calls.get(), 3);
}

#[test]
fn a_large_residual_is_rejected() {
    let solver = DispersionSolver::new();
    assert!(solver.validate_dispersion(s(1e-6)).is_ok());
    assert!(solver.validate_dispersion(s(-1e-6)).is_ok());
    assert_eq!(f(solver.validate_dispersion(s(-3e-7)).unwrap()), -3e-7);
    match solver.validate_dispersion(s(-1.5e-6)) {
        Err(WaveError::ResidualTooLarge(r)) => assert_eq!(f(r), -1.5e-6),
        other => panic!("expected a residual error, got {:?}", other),
    }
}

#[test]
fn finishing_checks_consistency_before_the_residual() {
    let solver = DispersionSolver::new();
    let unresolved = new_parameters(1.0, 4.0, 2.0).unwrap();
    let good = Resolution {
        phase_velocity: s(3.0),
        wavelength: s(12.0),
        velocity_mismatch: s(0.0),
        residual: s(0.0),
    };
    let p = solver.finish(unresolved, s(0.5), good).unwrap();
    assert_eq!(f(p.k), 0.5);
    assert_eq!(f(p.c), 3.0);
    assert_eq!(f(p.wavelength), 12.0);
    assert_eq!(f(p.h), 1.0);

    let both_bad = Resolution { velocity_mismatch: s(1.0), residual: s(1.0), ..good };
    assert!(matches!(
        solver.finish(unresolved, s(0.5), both_bad),
        Err(WaveError::InvariantViolation(Inconsistency::VelocityMismatch(_)))
    ));
    let residual_bad = Resolution { residual: s(1.0), ..good };
    assert!(matches!(
        solver.finish(unresolved, s(0.5), residual_bad),
        Err(WaveError::ResidualTooLarge(_))
    ));
    assert!(matches!(
        solver.finish(unresolved, s(-0.5), good),
        Err(WaveError::InvariantViolation(Inconsistency::NotPositive(ResolvedQuantity::WaveNumber)))
    ));
}

// Kinematics

#[test]
fn test_velocity_calculator_creation() {
    let calc = create_test_velocity_calculator();
    assert_eq!(f(calc.params.h), 0.5);
    assert_eq!(f(calc.params.period), 4.0);
    assert_eq!(f(calc.params.d), 2.0);
    assert_eq!(f(calc.gravity), 9.81);
    assert_eq!(f(calc.parameters().h), 0.5);
}

#[test]
fn test_horizontal_velocity() {
    let calc = create_test_velocity_calculator();

    // At x=0, t=0: phase = 0, cos(0) = 1, maximum velocity
    let u_max = horizontal_velocity(&calc, 0.0, 0.0);
    assert!(u_max > 0.0);

    // At x=0, t=T/4: phase = -pi/2, zero velocity
    let u_zero = horizontal_velocity(&calc, 0.0, f(calc.params.period) / 4.0);
    assert!(u_zero.abs() < 1e-10);

    // At x=0, t=T/2: phase = -pi, minimum velocity
    let u_min = horizontal_velocity(&calc, 0.0, f(calc.params.period) / 2.0);
    assert!(u_min < 0.0);
    assert!((u_min + u_max).abs() < 1e-10); // Should be symmetric
}

#[test]
fn test_vertical_velocity() {
    let calc = create_test_velocity_calculator();

    // For 1D horizontal propagation, vertical velocity should be zero
    let w = f(calc.vertical_velocity(s(0.0), s(0.0)));
    assert_eq!(w, 0.0);
}

#[test]
fn vertical_velocity_is_zero_everywhere() {
    let calc = create_test_velocity_calculator();
    for &(x, t) in [(0.0, 0.0), (3.5, 1.25), (-7.0, 100.0), (1e9, -4.0)].iter() {
        assert_eq!(calc.vertical_velocity(s(x), s(t)).to_bits(), 0);
        let (u, w) = calc.orbital_velocity_components(s(x), s(t), |x: Scalar, t: Scalar| {
            s(horizontal_velocity(&calc, f(x), f(t)))
        });
        assert_eq!(f(u), horizontal_velocity(&calc, x, t));
        assert_eq!(w.to_bits(), 0);
    }
}

#[test]
fn test_velocity_amplitude() {
    let calc = create_test_velocity_calculator();
    let u_amp = velocity_amplitude(&calc);

    // Should be positive
    assert!(u_amp > 0.0);

    // Should be consistent with maximum velocity
    let u_max = horizontal_velocity(&calc, 0.0, 0.0);
    assert!((u_amp - u_max).abs() < 1e-10);
}

#[test]
fn test_surface_elevation() {
    let calc = create_test_velocity_calculator();

    // At x=0, t=0: phase = 0, cos(0) = 1, maximum elevation
    let eta_max = surface_elevation(&calc, 0.0, 0.0);
    assert_eq!(eta_max, amplitude(&calc.params));

    // At x=0, t=T/4: phase = -pi/2, zero elevation
    let eta_zero = surface_elevation(&calc, 0.0, f(calc.params.period) / 4.0);
    assert!(eta_zero.abs() < 1e-10);
}

#[test]
fn test_wave_steepness() {
    let calc = create_test_velocity_calculator();
    let steepness = wave_steepness(&calc);

    // Should be positive and reasonable for linear waves
    assert!(steepness > 0.0);
    assert!(steepness < 0.5); // Should be well within linear regime
}

#[test]
fn test_linearity_check() {
    let calc = create_test_velocity_calculator();

    // With moderate wave height, should be linear
    assert!(calc.is_linear(s(wave_steepness(&calc))));
}

#[test]
fn linear_below_a_tenth() {
    let calc = create_test_velocity_calculator();
    assert!(calc.is_linear(s(0.0)));
    assert!(calc.is_linear(s(0.0999)));
    assert!(!calc.is_linear(s(0.1)));
    assert!(!calc.is_linear(s(0.3)));
    assert!(!calc.is_linear(s(f64::NAN)));
}

#[test]
fn depth_coefficient_switches_at_a_tenth() {
    let calc = create_test_velocity_calculator();
    let tanh = |x: Scalar| s(f(x).tanh());
    assert_eq!(f(calc.depth_coefficient(s(0.05), tanh)), 1.0);
    assert_eq!(f(calc.depth_coefficient(s(0.0999), tanh)), 1.0);
    assert_eq!(f(calc.depth_coefficient(s(0.1), tanh)), 0.1f64.tanh());
    assert_eq!(f(calc.depth_coefficient(s(2.0), tanh)), 2.0f64.tanh());
    let untouched = |_x: Scalar| -> Scalar { panic!("no tangent in the shallow limit") };
    assert_eq!(f(calc.depth_coefficient(s(0.01), untouched)), 1.0);
}

#[test]
fn test_time_series() {
    let calc = create_test_velocity_calculator();
    let time_points: Vec<f64> = (0..10).map(|i| i as f64 * 0.1).collect();
    let points: Vec<Scalar> = time_points.iter().map(|&t| s(t)).collect();
    let velocities: Vec<f64> = calc
        .velocity_time_series(s(0.0), &points, |x: Scalar, t: Scalar| {
            s(horizontal_velocity(&calc, f(x), f(t)))
        })
        .iter()
        .map(|&u| f(u))
        .collect();

    assert_eq!(velocities.len(), time_points.len());

    // Check that velocities are periodic
    let period_points = (f(calc.params.period) / 0.1) as usize;
    if velocities.len() > period_points {
        let diff = (velocities[0] - velocities[period_points]).abs();
        assert!(diff < 1e-10, "Velocity not periodic: diff = {:.2e}", diff);
    }
    for (i, &t) in time_points.iter().enumerate() {
        assert_eq!(velocities[i], horizontal_velocity(&calc, 0.0, t));
    }
}

#[test]
fn test_spatial_series() {
    let calc = create_test_velocity_calculator();
    let x_points: Vec<f64> = (0..10).map(|i| i as f64 * 0.1).collect();
    let points: Vec<Scalar> = x_points.iter().map(|&x| s(x)).collect();
    let velocities: Vec<f64> = calc
        .velocity_spatial_series(&points, s(0.0), |x: Scalar, t: Scalar| {
            s(horizontal_velocity(&calc, f(x), f(t)))
        })
        .iter()
        .map(|&u| f(u))
        .collect();

    assert_eq!(velocities.len(), x_points.len());

    // Check that velocities are spatially periodic
    let wavelength_points = (f(calc.params.wavelength) / 0.1) as usize;
    if velocities.len() > wavelength_points {
        let diff = (velocities[0] - velocities[wavelength_points]).abs();
        assert!(diff < 1e-10, "Velocity not spatially periodic: diff = {:.2e}", diff);
    }
    for (i, &x) in x_points.iter().enumerate() {
        assert_eq!(velocities[i], horizontal_velocity(&calc, x, 0.0));
    }
}

#[test]
fn a_series_over_a_full_period_repeats() {
    let calc = create_test_velocity_calculator();
    let period = f(calc.params.period);
    let points = vec![s(0.3), s(0.3 + period), s(0.3 + 2.0 * period)];
    let series = calc.velocity_time_series(s(1.0), &points, |x: Scalar, t: Scalar| {
        s(horizontal_velocity(&calc, f(x), f(t)))
    });
    assert_eq!(series.len(), 3);
    assert!((f(series[0]) - f(series[1])).abs() < 1e-10);
    assert!((f(series[0]) - f(series[2])).abs() < 1e-10);
    let empty = calc.velocity_time_series(s(1.0), &[], |_x: Scalar, _t: Scalar| -> Scalar {
        panic!("nothing to sample")
    });
    assert!(empty.is_empty());
}

#[test]
fn a_series_over_a_full_wavelength_repeats() {
    let calc = create_test_velocity_calculator();
    let wavelength = f(calc.params.wavelength);
    let field = |x: Scalar, t: Scalar| s(horizontal_velocity(&calc, f(x), f(t)));
    let points = vec![s(-0.7), s(-0.7 + wavelength), s(-0.7 + 2.0 * wavelength)];
    let series = calc.velocity_spatial_series(&points, s(0.4), field);
    assert_eq!(series.len(), 3);
    assert!((f(series[0]) - f(series[1])).abs() < 1e-10);
    assert!((f(series[0]) - f(series[2])).abs() < 1e-10);
    let eta = surface_elevation(&calc, 1.3, 0.4);
    assert!((eta - surface_elevation(&calc, 1.3 + wavelength, 0.4)).abs() < 1e-10);
    assert!((eta - surface_elevation(&calc, 1.3, 0.4 + f(calc.params.period))).abs() < 1e-10);
}

#[test]
fn the_fields_peak_at_their_amplitudes() {
    let calc = create_test_velocity_calculator();
    let period = f(calc.params.period);
    let points: Vec<Scalar> = (0..=400).map(|i| s(period * i as f64 / 400.0)).collect();
    let velocities = calc.velocity_time_series(s(0.0), &points, |x: Scalar, t: Scalar| {
        s(horizontal_velocity(&calc, f(x), f(t)))
    });
    let elevations = calc.velocity_time_series(s(0.0), &points, |x: Scalar, t: Scalar| {
        s(surface_elevation(&calc, f(x), f(t)))
    });
    let max_u = velocities.iter().map(|&u| f(u)).fold(f64::MIN, f64::max);
    let max_eta = elevations.iter().map(|&e| f(e)).fold(f64::MIN, f64::max);
    assert!((max_u - velocity_amplitude(&calc)).abs() < 1e-10);
    assert!((max_eta - f(calc.params.h) / 2.0).abs() < 1e-10);
}

#[test]
fn velocity_test_recommended_time_step() {
    let calc = create_test_velocity_calculator();
    let dt = recommended_time_step(&calc);

    // Should be positive and reasonable
    assert!(dt > 0.0);
    assert!(dt < f(calc.params.period) / 10.0); // Should be much smaller than period
}

#[test]
fn energy_diagnostic_gates_at_a_tenth() {
    let calc = create_test_velocity_calculator();
    assert_eq!(f(calc.validate_energy_conservation(s(0.0)).unwrap()), 0.0);
    assert_eq!(f(calc.validate_energy_conservation(s(0.1)).unwrap()), 0.1);
    match calc.validate_energy_conservation(s(0.25)) {
        Err(WaveError::EnergyDrift(e)) => assert_eq!(f(e), 0.25),
        other => panic!("expected an energy drift, got {:?}", other),
    }
    let measured = energy_error(&calc, 0.0, 0.0);
    let verdict = calc.validate_energy_conservation(s(measured));
    assert_eq!(verdict.is_err(), measured > 0.1);
}

#[test]
fn replacing_parameters_keeps_gravity() {
    let mut calc = create_test_velocity_calculator();
    let other = solve(0.3, 4.0, 1.0).unwrap();
    calc.update_parameters(other);
    assert_eq!(f(calc.params.h), 0.3);
    assert_eq!(f(calc.params.d), 1.0);
    assert_eq!(f(calc.gravity), 9.81);
}

// Boundary

#[test]
fn test_boundary_applicator_creation() {
    let applicator = create_test_boundary_applicator();
    assert_eq!(f(applicator.current_time), 0.0);
    assert_eq!(f(applicator.generation_position), 0.0);
    assert!(applicator.enabled);
}

#[test]
fn test_time_advancement() {
    let mut applicator = create_test_boundary_applicator();

    advance(&mut applicator, 0.1);
    assert_eq!(f(applicator.current_time), 0.1);

    applicator.update_time(s(1.0));
    assert_eq!(f(applicator.current_time), 1.0);
    assert_eq!(f(applicator.current_time()), 1.0);

    advance(&mut applicator, 0.25);
    assert_eq!(f(applicator.current_time), 1.25);
    assert!(applicator.enabled);
}

#[test]
fn test_boundary_velocity() {
    let mut applicator = create_test_boundary_applicator();

    // At t=0, should have some velocity
    let v0 = boundary_velocity(&applicator);
    assert!(v0 != 0.0);

    // At t=T/4, should be close to zero
    applicator.update_time(s(f(applicator.parameters().period) / 4.0));
    let v_quarter = boundary_velocity(&applicator);
    assert!(v_quarter.abs() < 1e-10);

    // At t=T/2, should be opposite to initial
    applicator.update_time(s(f(applicator.parameters().period) / 2.0));
    let v_half = boundary_velocity(&applicator);
    assert!((v0 + v_half).abs() < 1e-10);
}

#[test]
fn test_boundary_surface_elevation() {
    let mut applicator = create_test_boundary_applicator();

    // At t=0, should have maximum elevation
    let eta0 = boundary_surface_elevation(&applicator);
    assert_eq!(eta0, amplitude(applicator.parameters()));

    // At t=T/4, should be zero
    applicator.update_time(s(f(applicator.parameters().period) / 4.0));
    let eta_quarter = boundary_surface_elevation(&applicator);
    assert!(eta_quarter.abs() < 1e-10);
}

#[test]
fn the_fields_are_evaluated_at_the_generation_position_and_the_current_time() {
    let mut applicator = create_test_boundary_applicator();
    applicator.set_generation_position(s(3.5));
    applicator.update_time(s(1.25));
    let at = applicator.boundary_velocity(|x: Scalar, t: Scalar| s(f(x) * 100.0 + f(t)));
    assert_eq!(f(at), 351.25);
    let eta = applicator.boundary_surface_elevation(|x: Scalar, t: Scalar| s(f(x) - f(t)));
    assert_eq!(f(eta), 2.25);
}

#[test]
fn test_enable_disable() {
    let mut applicator = create_test_boundary_applicator();

    // Initially enabled
    assert!(applicator.is_enabled());
    let v_enabled = boundary_velocity(&applicator);
    assert!(v_enabled != 0.0);

    // Disable
    applicator.set_enabled(false);
    assert!(!applicator.is_enabled());
    let v_disabled = boundary_velocity(&applicator);
    assert_eq!(v_disabled, 0.0);

    // Re-enable
    applicator.set_enabled(true);
    assert!(applicator.is_enabled());
    let v_reenabled = boundary_velocity(&applicator);
    assert_eq!(v_reenabled, v_enabled);
}

#[test]
fn a_disabled_driver_emits_zero_at_any_time() {
    let mut applicator = create_test_boundary_applicator();
    applicator.set_enabled(false);
    for &t in [0.0, 0.3, 1.0, 17.5, -2.0].iter() {
        applicator.update_time(s(t));
        let never = |_x: Scalar, _t: Scalar| -> Scalar { panic!("a disabled driver evaluates nothing") };
        assert_eq!(applicator.boundary_velocity(never).to_bits(), 0);
        assert_eq!(applicator.boundary_surface_elevation(never).to_bits(), 0);
        assert_eq!(applicator.boundary_flux(never, never).to_bits(), 0);
        assert_eq!(applicator.ramp_up_factor(s(2.0), never).to_bits(), 0);
        assert_eq!(applicator.ramp_phase(s(2.0)), RampPhase::Off);
        assert!(!applicator.should_generate_waves(s(1000.0)));
    }
}

#[test]
fn test_ramp_up_factor() {
    let mut applicator = create_test_boundary_applicator();
    let ramp_duration = 2.0;

    // At t=0, should be 0
    applicator.update_time(s(0.0));
    assert_eq!(ramp_up_factor(&applicator, ramp_duration), 0.0);

    // At t=ramp_duration, should be 1
    applicator.update_time(s(ramp_duration));
    assert!((ramp_up_factor(&applicator, ramp_duration) - 1.0).abs() < 1e-10);

    // At t=ramp_duration/2, should be 0.5
    applicator.update_time(s(ramp_duration / 2.0));
    assert!((ramp_up_factor(&applicator, ramp_duration) - 0.5).abs() < 1e-10);

    // Beyond ramp duration, should be 1
    applicator.update_time(s(ramp_duration * 2.0));
    assert_eq!(ramp_up_factor(&applicator, ramp_duration), 1.0);
}

#[test]
fn ramp_phases_and_monotone_taper() {
    let mut applicator = create_test_boundary_applicator();
    assert_eq!(applicator.ramp_phase(s(2.0)), RampPhase::Tapering);
    assert_eq!(applicator.ramp_phase(s(0.0)), RampPhase::Full);
    assert_eq!(applicator.ramp_phase(s(-1.0)), RampPhase::Full);
    assert_eq!(applicator.ramp_phase(s(f64::NAN)), RampPhase::Full);
    applicator.update_time(s(2.0));
    assert_eq!(applicator.ramp_phase(s(2.0)), RampPhase::Full);
    assert_eq!(ramp_up_factor(&applicator, 2.0), 1.0);
    assert_eq!(ramp_up_factor(&applicator, 0.0), 1.0);
    applicator.update_time(s(1.999));
    assert_eq!(applicator.ramp_phase(s(2.0)), RampPhase::Tapering);

    let mut last = 0.0;
    for i in 0..=300 {
        applicator.update_time(s(i as f64 * 0.01));
        let r = ramp_up_factor(&applicator, 2.0);
        assert!(r >= last, "the ramp fell at step {}", i);
        assert!((0.0..=1.0).contains(&r));
        if i >= 200 {
            assert_eq!(r, 1.0);
        }
        last = r;
    }
}

#[test]
fn test_boundary_conditions_application() {
    let applicator = create_test_boundary_applicator();
    let mut velocities = vec![0.0; 10];
    let mut elevations = vec![0.0; 10];

    apply(&applicator, &mut velocities, &mut elevations);

    // First element should be set to boundary values
    assert_eq!(velocities[0], boundary_velocity(&applicator));
    assert_eq!(elevations[0], boundary_surface_elevation(&applicator));

    // Other elements should remain unchanged
    for i in 1..10 {
        assert_eq!(velocities[i], 0.0);
        assert_eq!(elevations[i], 0.0);
    }
}

#[test]
fn applying_touches_the_first_cell_only() {
    let mut applicator = create_test_boundary_applicator();
    applicator.update_time(s(0.7));
    let mut velocities: Vec<f64> = (0..6).map(|i| 10.0 + i as f64).collect();
    let mut elevations: Vec<f64> = (0..4).map(|i| 20.0 + i as f64).collect();
    apply(&applicator, &mut velocities, &mut elevations);
    assert_eq!(velocities[0], boundary_velocity(&applicator));
    assert_eq!(elevations[0], boundary_surface_elevation(&applicator));
    assert_eq!(&velocities[1..], &[11.0, 12.0, 13.0, 14.0, 15.0]);
    assert_eq!(&elevations[1..], &[21.0, 22.0, 23.0]);

    apply_ramped(&applicator, &mut velocities, &mut elevations, 2.0);
    assert_eq!(&velocities[1..], &[11.0, 12.0, 13.0, 14.0, 15.0]);
    assert_eq!(&elevations[1..], &[21.0, 22.0, 23.0]);
    assert_eq!(velocities.len(), 6);
    assert_eq!(elevations.len(), 4);
}

#[test]
fn applying_to_an_empty_grid_or_when_disabled_changes_nothing() {
    let mut applicator = create_test_boundary_applicator();
    let never = |_x: Scalar, _t: Scalar| -> f64 { panic!("nothing to evaluate") };
    let never_taper = |_t: Scalar, _tau: Scalar| -> Scalar { panic!("nothing to taper") };
    let never_scale = |_v: f64, _r: Scalar| -> f64 { panic!("nothing to scale") };

    let mut empty: Vec<f64> = Vec::new();
    let mut cells = vec![1.0, 2.0, 3.0];
    applicator.apply_boundary_conditions(&mut empty, &mut cells, never, never);
    assert!(empty.is_empty());
    assert_eq!(cells, vec![1.0, 2.0, 3.0]);
    applicator.apply_boundary_conditions(&mut cells, &mut empty, never, never);
    assert_eq!(cells, vec![1.0, 2.0, 3.0]);
    applicator.apply_ramped_boundary_conditions(
        &mut empty, &mut cells, s(2.0), never, never, never_taper, never_scale,
    );
    applicator.apply_ramped_boundary_conditions(
        &mut cells, &mut empty, s(2.0), never, never, never_taper, never_scale,
    );
    assert_eq!(cells, vec![1.0, 2.0, 3.0]);

    applicator.set_enabled(false);
    let mut other = vec![4.0, 5.0];
    applicator.apply_boundary_conditions(&mut cells, &mut other, never, never);
    applicator.apply_ramped_boundary_conditions(
        &mut cells, &mut other, s(2.0), never, never, never_taper, never_scale,
    );
    assert_eq!(cells, vec![1.0, 2.0, 3.0]);
    assert_eq!(other, vec![4.0, 5.0]);
}

#[test]
fn test_ramped_boundary_conditions() {
    let mut applicator = create_test_boundary_applicator();
    let mut velocities = vec![0.0; 10];
    let mut elevations = vec![0.0; 10];
    let ramp_duration = 2.0;

    // At t=0, should apply zero boundary conditions
    applicator.update_time(s(0.0));
    apply_ramped(&applicator, &mut velocities, &mut elevations, ramp_duration);
    assert_eq!(velocities[0], 0.0);
    assert_eq!(elevations[0], 0.0);

    // At t=ramp_duration, should apply full boundary conditions
    applicator.update_time(s(ramp_duration));
    apply_ramped(&applicator, &mut velocities, &mut elevations, ramp_duration);
    assert_eq!(velocities[0], boundary_velocity(&applicator));
    assert_eq!(elevations[0], boundary_surface_elevation(&applicator));
}

#[test]
fn ramp_taper() {
    let mut applicator = create_test_boundary_applicator();
    let mut velocities = vec![0.0; 10];
    let mut elevations = vec![0.0; 10];

    // Halfway through the ramp the boundary values are half the raw values.
    applicator.update_time(s(1.0));
    apply_ramped(&applicator, &mut velocities, &mut elevations, 2.0);
    assert!((velocities[0] - 0.5 * boundary_velocity(&applicator)).abs() < 1e-10);
    assert!((elevations[0] - 0.5 * boundary_surface_elevation(&applicator)).abs() < 1e-10);

    applicator.update_time(s(2.0));
    apply_ramped(&applicator, &mut velocities, &mut elevations, 2.0);
    assert!((velocities[0] - boundary_velocity(&applicator)).abs() < 1e-10);
    assert!((elevations[0] - boundary_surface_elevation(&applicator)).abs() < 1e-10);
    for i in 1..10 {
        assert_eq!(velocities[i], 0.0);
        assert_eq!(elevations[i], 0.0);
    }
}

#[test]
fn test_boundary_flux() {
    let applicator = create_test_boundary_applicator();
    let expected_flux = boundary_velocity(&applicator) * f(applicator.parameters().d);
    assert_eq!(boundary_flux(&applicator), expected_flux);
}

#[test]
fn test_status() {
    let applicator = create_test_boundary_applicator();
    let status = status(&applicator);

    assert_eq!(status.enabled, applicator.is_enabled());
    assert_eq!(f(status.current_time), f(applicator.current_time()));
    assert_eq!(f(status.generation_position), f(applicator.generation_position));
    assert_eq!(f(status.current_velocity), boundary_velocity(&applicator));
    assert_eq!(f(status.current_elevation), boundary_surface_elevation(&applicator));
    assert_eq!(status.wave_parameters.k.to_bits(), applicator.parameters().k.to_bits());
    assert_eq!(status.wave_parameters.h.to_bits(), applicator.parameters().h.to_bits());
}

#[test]
fn crest_and_trough_proximity() {
    let applicator = create_test_boundary_applicator();
    let status = status(&applicator);
    let turn = 2.0 * PI;
    // phase 0: at a crest
    assert!(status.at_wave_crest(s(1e-6), s(0.0 % turn), s(0.0 % turn - turn)));
    // phase just below a full turn: at a crest by the second test
    let phase = turn - 1e-9;
    assert!(status.at_wave_crest(s(1e-6), s(phase % turn), s(phase % turn - turn)));
    // phase pi: not at a crest, but at a trough
    let phase = PI;
    assert!(!status.at_wave_crest(s(1e-6), s(phase % turn), s(phase % turn - turn)));
    let shifted = (phase + PI) % turn;
    assert!(status.at_wave_trough(s(1e-6), s(shifted), s(shifted - turn)));
    let shifted = (0.0 + PI) % turn;
    assert!(!status.at_wave_trough(s(1e-6), s(shifted), s(shifted - turn)));
}

#[test]
fn test_reset() {
    let mut applicator = create_test_boundary_applicator();

    // Modify state
    advance(&mut applicator, 5.0);
    applicator.set_enabled(false);

    // Reset
    applicator.reset();

    // Should be back to initial state
    assert_eq!(f(applicator.current_time), 0.0);
    assert!(applicator.is_enabled());
}

#[test]
fn reset_twice_is_reset_once_and_keeps_the_rest() {
    let mut applicator = create_test_boundary_applicator();
    applicator.set_generation_position(s(4.0));
    advance(&mut applicator, 5.0);
    applicator.set_enabled(false);
    applicator.reset();
    let once = (
        applicator.current_time.to_bits(),
        applicator.generation_position.to_bits(),
        applicator.enabled,
        applicator.velocity_calc.params.k.to_bits(),
    );
    applicator.reset();
    let twice = (
        applicator.current_time.to_bits(),
        applicator.generation_position.to_bits(),
        applicator.enabled,
        applicator.velocity_calc.params.k.to_bits(),
    );
    assert_eq!(once, twice);
    assert_eq!(once.0, 0);
    assert_eq!(f64::from_bits(once.1), 4.0);
    assert!(once.2);
}

#[test]
fn replacing_parameters_keeps_time_and_switch() {
    let mut applicator = create_test_boundary_applicator();
    advance(&mut applicator, 5.0);
    applicator.set_enabled(false);
    applicator.set_generation_position(s(1.5));
    applicator.update_parameters(solve(0.3, 4.0, 1.0).unwrap());
    assert_eq!(f(applicator.current_time), 5.0);
    assert_eq!(f(applicator.generation_position), 1.5);
    assert!(!applicator.enabled);
    assert_eq!(f(applicator.parameters().h), 0.3);
}

#[test]
fn waves_are_generated_while_enabled_and_before_the_end() {
    let mut applicator = create_test_boundary_applicator();
    assert!(applicator.should_generate_waves(s(10.0)));
    applicator.update_time(s(10.0));
    assert!(!applicator.should_generate_waves(s(10.0)));
    applicator.update_time(s(9.999));
    assert!(applicator.should_generate_waves(s(10.0)));
    applicator.set_enabled(false);
    assert!(!applicator.should_generate_waves(s(10.0)));
}

#[test]
fn boundary_test_recommended_time_step() {
    let applicator = create_test_boundary_applicator();
    let dt = recommended_time_step(&applicator.velocity_calc);

    assert!(dt > 0.0);
    assert!(dt < f(applicator.parameters().period) / 10.0);
}
