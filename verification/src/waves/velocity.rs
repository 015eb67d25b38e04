//! Kinematics of a resolved wave: what is decided around the field formulas.
//!
//! With the phase phi = k*x - omega*t the fields are eta = a*cos(phi) and
//! u = a*c*D*cos(phi), where a = H/2 and D is the depth coefficient. The host
//! evaluates the formulas; this module chooses the depth coefficient, fixes the
//! vertical velocity, gates linearity and the energy diagnostic, and samples a
//! field along a series of points.

use vstd::arithmetic::power2::{lemma2_to64, lemma2_to64_rest};
use vstd::prelude::*;
use crate::waves::dispersion::STANDARD_GRAVITY_BITS;
use crate::waves::error::WaveError;
use crate::waves::parameters::WaveParameters;
use crate::waves::scalar::Scalar;

verus! {

/// 0.1: the dimensionless depth k*d below which the depth coefficient is 1.
pub const SHALLOW_COEFFICIENT_LIMIT_BITS: u64 = 0x3FB9_9999_9999_999A;

/// 0.1: the steepness a*k below which a wave counts as linear.
pub const LINEAR_STEEPNESS_LIMIT_BITS: u64 = 0x3FB9_9999_9999_999A;

/// 0.1: the largest relative error that the energy diagnostic lets pass.
pub const ENERGY_ERROR_LIMIT_BITS: u64 = 0x3FB9_9999_9999_999A;

/// Kinematics evaluator of one wave.
#[derive(Debug, Clone, Copy)]
pub struct VelocityCalculator {
    /// Wave parameters
    pub params: WaveParameters,
    /// Gravitational acceleration [m/s^2]
    pub gravity: Scalar,
}

impl VelocityCalculator {
    /// Whether `dimensionless_depth` = k*d is in the shallow limit, where the depth
    /// coefficient is 1 and no hyperbolic tangent is taken.
    pub open spec fn in_shallow_limit(dimensionless_depth: Scalar) -> bool {
        dimensionless_depth.spec_lt(Scalar { bits: SHALLOW_COEFFICIENT_LIMIT_BITS })
    }

    /// Whether a steepness a*k is in the linear regime.
    pub open spec fn spec_is_linear(steepness: Scalar) -> bool {
        steepness.spec_lt(Scalar { bits: LINEAR_STEEPNESS_LIMIT_BITS })
    }

    /// The verdict of the energy diagnostic on a relative error.
    pub open spec fn spec_validate_energy_conservation(energy_error: Scalar) -> Result<
        Scalar,
        WaveError,
    > {
        if energy_error.spec_gt(Scalar { bits: ENERGY_ERROR_LIMIT_BITS }) {
            Err(WaveError::EnergyDrift(energy_error))
        } else {
            Ok(energy_error)
        }
    }

    /// Creates a velocity calculator for wave parameters, under gravity 9.81.
    pub fn new(params: WaveParameters) -> (calculator: Self)
        ensures
            calculator.params == params,
            calculator.gravity == (Scalar { bits: STANDARD_GRAVITY_BITS }),
    {
        VelocityCalculator { params, gravity: Scalar::from_bits(STANDARD_GRAVITY_BITS) }
    }

    /// Replaces the wave parameters.
    pub fn update_parameters(&mut self, params: WaveParameters)
        ensures
            final(self).params == params,
            final(self).gravity == old(self).gravity,
    {
        self.params = params;
    }

    /// The wave parameters.
    pub fn parameters(&self) -> (params: &WaveParameters)
        ensures
            *params == self.params,
    {
        &self.params
    }

    /// The depth coefficient D of `dimensionless_depth` = k*d: 1 in the shallow limit,
    /// and otherwise what `hyperbolic_tangent` makes of k*d. The switch guards against
    /// cancellation; `hyperbolic_tangent` is not called in the shallow limit.
    pub fn depth_coefficient<F: Fn(Scalar) -> Scalar>(
        &self,
        dimensionless_depth: Scalar,
        hyperbolic_tangent: F,
    ) -> (coefficient: Scalar)
        requires
            !Self::in_shallow_limit(dimensionless_depth) ==> hyperbolic_tangent.requires(
                (dimensionless_depth,),
            ),
        ensures
            Self::in_shallow_limit(dimensionless_depth) ==> coefficient == Scalar::spec_one(),
            !Self::in_shallow_limit(dimensionless_depth) ==> call_ensures(
                hyperbolic_tangent,
                (dimensionless_depth,),
                coefficient,
            ),
    {
        if dimensionless_depth.lt(Scalar::from_bits(SHALLOW_COEFFICIENT_LIMIT_BITS)) {
            Scalar::one()
        } else {
            hyperbolic_tangent(dimensionless_depth)
        }
    }

    /// The vertical velocity w at position `x` and time `time`: zero everywhere, as the
    /// wave propagates horizontally in one dimension.
    pub fn vertical_velocity(&self, x: Scalar, time: Scalar) -> (w: Scalar)
        ensures
            w == Scalar::spec_zero(),
    {
        Scalar::zero()
    }

    /// Both orbital velocity components (u, w) at position `x` and time `time`, with u
    /// evaluated by `horizontal_velocity`.
    pub fn orbital_velocity_components<F: Fn(Scalar, Scalar) -> Scalar>(
        &self,
        x: Scalar,
        time: Scalar,
        horizontal_velocity: F,
    ) -> (components: (Scalar, Scalar))
        requires
            horizontal_velocity.requires((x, time)),
        ensures
            call_ensures(horizontal_velocity, (x, time), components.0),
            components.1 == Scalar::spec_zero(),
    {
        let u = horizontal_velocity(x, time);
        let w = self.vertical_velocity(x, time);
        (u, w)
    }

    /// The horizontal velocity at the fixed position `x`, at each of `time_points` in
    /// their order.
    pub fn velocity_time_series<F: Fn(Scalar, Scalar) -> Scalar>(
        &self,
        x: Scalar,
        time_points: &[Scalar],
        horizontal_velocity: F,
    ) -> (series: Vec<Scalar>)
        requires
            forall|i: int|
                0 <= i < time_points@.len() ==> horizontal_velocity.requires(
                    (x, #[trigger] time_points@[i]),
                ),
        ensures
            series@.len() == time_points@.len(),
            forall|i: int|
                0 <= i < series@.len() ==> call_ensures(
                    horizontal_velocity,
                    (x, time_points@[i]),
                    #[trigger] series@[i],
                ),
    {
        let mut series: Vec<Scalar> = Vec::new();
        for n in 0..time_points.len()
            invariant
                series@.len() == n,
                forall|i: int|
                    0 <= i < time_points@.len() ==> horizontal_velocity.requires(
                        (x, #[trigger] time_points@[i]),
                    ),
                forall|i: int|
                    0 <= i < n ==> call_ensures(
                        horizontal_velocity,
                        (x, time_points@[i]),
                        #[trigger] series@[i],
                    ),
        {
            let u = horizontal_velocity(x, time_points[n]);
            series.push(u);
        }
        series
    }

    /// The horizontal velocity at the fixed time `time`, at each of `x_points` in their
    /// order.
    pub fn velocity_spatial_series<F: Fn(Scalar, Scalar) -> Scalar>(
        &self,
        x_points: &[Scalar],
        time: Scalar,
        horizontal_velocity: F,
    ) -> (series: Vec<Scalar>)
        requires
            forall|i: int|
                0 <= i < x_points@.len() ==> horizontal_velocity.requires(
                    (#[trigger] x_points@[i], time),
                ),
        ensures
            series@.len() == x_points@.len(),
            forall|i: int|
                0 <= i < series@.len() ==> call_ensures(
                    horizontal_velocity,
                    (x_points@[i], time),
                    #[trigger] series@[i],
                ),
    {
        let mut series: Vec<Scalar> = Vec::new();
        for n in 0..x_points.len()
            invariant
                series@.len() == n,
                forall|i: int|
                    0 <= i < x_points@.len() ==> horizontal_velocity.requires(
                        (#[trigger] x_points@[i], time),
                    ),
                forall|i: int|
                    0 <= i < n ==> call_ensures(
                        horizontal_velocity,
                        (x_points@[i], time),
                        #[trigger] series@[i],
                    ),
        {
            let u = horizontal_velocity(x_points[n], time);
            series.push(u);
        }
        series
    }

    /// The energy diagnostic, on the relative error |KE + PE - E*| / E* that the host
    /// measured: the error is handed back where it does not exceed 0.1.
    pub fn validate_energy_conservation(&self, energy_error: Scalar) -> (verdict: Result<
        Scalar,
        WaveError,
    >)
        ensures
            verdict == Self::spec_validate_energy_conservation(energy_error),
    {
        if energy_error.gt(Scalar::from_bits(ENERGY_ERROR_LIMIT_BITS)) {
            Err(WaveError::EnergyDrift(energy_error))
        } else {
            Ok(energy_error)
        }
    }

    /// Whether a wave of steepness `steepness` = a*k is in the linear regime.
    pub fn is_linear(&self, steepness: Scalar) -> (linear: bool)
        ensures
            linear == Self::spec_is_linear(steepness),
    {
        steepness.lt(Scalar::from_bits(LINEAR_STEEPNESS_LIMIT_BITS))
    }
}

/// The limits of this module are all 0.1, rounded to double precision.
pub proof fn lemma_limits_are_decimal()
    ensures
        (Scalar { bits: SHALLOW_COEFFICIENT_LIMIT_BITS }).is_rounded(1, 10),
        (Scalar { bits: LINEAR_STEEPNESS_LIMIT_BITS }).is_rounded(1, 10),
        (Scalar { bits: ENERGY_ERROR_LIMIT_BITS }).is_rounded(1, 10),
{
    lemma2_to64();
    lemma2_to64_rest();
}

} // verus!
