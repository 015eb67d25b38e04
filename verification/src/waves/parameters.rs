//! The physical description of one regular wave.

use vstd::arithmetic::power2::{lemma2_to64, lemma2_to64_rest, lemma_pow2_adds};
use vstd::prelude::*;
use vstd::string::StringExecFns;
use crate::waves::error::{Inconsistency, InputQuantity, ResolvedQuantity, WaveError};
use crate::waves::scalar::Scalar;

verus! {

/// 0.78: the height-to-depth ratio above which a wave is rejected as breaking.
pub const BREAKING_LIMIT_BITS: u64 = 0x3FE8_F5C2_8F5C_28F6;

/// 1e-6: how far the phase velocity may be off from omega/k.
pub const CONSISTENCY_TOLERANCE_BITS: u64 = 0x3EB0_C6F7_A0B5_ED8D;

/// 1/20: the depth-to-wavelength ratio below which water is shallow.
pub const SHALLOW_LIMIT_BITS: u64 = 0x3FA9_9999_9999_999A;

/// 1/2: the depth-to-wavelength ratio above which water is deep.
pub const DEEP_LIMIT_BITS: u64 = 0x3FE0_0000_0000_0000;

/// Water depth regime, classified by the depth-to-wavelength ratio d/L.
#[derive(Debug, Clone, Copy, PartialEq, Eq, Structural)]
pub enum WaterDepthRegime {
    /// Shallow water: d/L < 1/20
    Shallow,
    /// Intermediate water: 1/20 <= d/L <= 1/2
    Intermediate,
    /// Deep water: d/L > 1/2
    Deep,
}

impl WaterDepthRegime {
    /// The regime of a depth-to-wavelength ratio. A ratio that is not a number is
    /// below no limit and above none, and so falls between them.
    pub open spec fn spec_classify(ratio: Scalar) -> WaterDepthRegime {
        if ratio.spec_lt(Scalar { bits: SHALLOW_LIMIT_BITS }) {
            WaterDepthRegime::Shallow
        } else if ratio.spec_gt(Scalar { bits: DEEP_LIMIT_BITS }) {
            WaterDepthRegime::Deep
        } else {
            WaterDepthRegime::Intermediate
        }
    }

    /// Shallow before intermediate before deep.
    pub open spec fn depth_order(self) -> int {
        match self {
            WaterDepthRegime::Shallow => 0,
            WaterDepthRegime::Intermediate => 1,
            WaterDepthRegime::Deep => 2,
        }
    }

    /// The name under which the regime is shown to a user.
    pub open spec fn spec_label(self) -> Seq<char> {
        match self {
            WaterDepthRegime::Shallow => "Shallow Water"@,
            WaterDepthRegime::Intermediate => "Intermediate Water"@,
            WaterDepthRegime::Deep => "Deep Water"@,
        }
    }

    /// Classifies the depth-to-wavelength ratio d/L.
    pub fn classify(ratio: Scalar) -> (regime: WaterDepthRegime)
        ensures
            regime == Self::spec_classify(ratio),
    {
        if ratio.lt(Scalar::from_bits(SHALLOW_LIMIT_BITS)) {
            WaterDepthRegime::Shallow
        } else if ratio.gt(Scalar::from_bits(DEEP_LIMIT_BITS)) {
            WaterDepthRegime::Deep
        } else {
            WaterDepthRegime::Intermediate
        }
    }

    /// Renders the regime as text.
    pub fn to_string(&self) -> (text: String)
        ensures
            text@ == self.spec_label(),
    {
        match self {
            WaterDepthRegime::Shallow => String::from_str("Shallow Water"),
            WaterDepthRegime::Intermediate => String::from_str("Intermediate Water"),
            WaterDepthRegime::Deep => String::from_str("Deep Water"),
        }
    }
}

/// One regular wave: its inputs and what the dispersion relation makes of them.
///
/// `h`, `d` and `period` are the inputs; `omega` is 2*pi/T; `k`, `c` and
/// `wavelength` are zero until the dispersion solver has resolved them.
#[derive(Debug, Clone, Copy)]
pub struct WaveParameters {
    /// Wave number (2*pi/L) [rad/m]
    pub k: Scalar,
    /// Angular frequency (2*pi/T) [rad/s]
    pub omega: Scalar,
    /// Phase velocity (omega/k) [m/s]
    pub c: Scalar,
    /// Wave height (H) [m]
    pub h: Scalar,
    /// Water depth (d) [m]
    pub d: Scalar,
    /// Wave period (T) [s]
    pub period: Scalar,
    /// Wavelength (L) [m]
    pub wavelength: Scalar,
}

impl WaveParameters {
    /// The verdict on the inputs of a wave. The inputs are tested in the order height,
    /// period, depth; only then the breaking ratio H/d.
    pub open spec fn spec_check_inputs(
        wave_height: Scalar,
        wave_period: Scalar,
        water_depth: Scalar,
        breaking_ratio: Scalar,
    ) -> Result<(), WaveError> {
        if wave_height.spec_le(Scalar::spec_zero()) {
            Err(WaveError::InvalidInput(InputQuantity::WaveHeight))
        } else if wave_period.spec_le(Scalar::spec_zero()) {
            Err(WaveError::InvalidInput(InputQuantity::WavePeriod))
        } else if water_depth.spec_le(Scalar::spec_zero()) {
            Err(WaveError::InvalidInput(InputQuantity::WaterDepth))
        } else if breaking_ratio.spec_gt(Scalar { bits: BREAKING_LIMIT_BITS }) {
            Err(WaveError::BreakingRisk(breaking_ratio))
        } else {
            Ok(())
        }
    }

    /// The parameters right after construction: nothing resolved yet.
    pub open spec fn spec_unresolved(
        wave_height: Scalar,
        wave_period: Scalar,
        water_depth: Scalar,
        omega: Scalar,
    ) -> WaveParameters {
        WaveParameters {
            k: Scalar::spec_zero(),
            omega,
            c: Scalar::spec_zero(),
            h: wave_height,
            d: water_depth,
            period: wave_period,
            wavelength: Scalar::spec_zero(),
        }
    }

    /// The verdict of the consistency check, given `velocity_mismatch` = c - omega/k.
    pub open spec fn spec_validate(self, velocity_mismatch: Scalar) -> Result<(), WaveError> {
        if self.k.spec_le(Scalar::spec_zero()) {
            Err(WaveError::InvariantViolation(Inconsistency::NotPositive(ResolvedQuantity::WaveNumber)))
        } else if self.omega.spec_le(Scalar::spec_zero()) {
            Err(
                WaveError::InvariantViolation(
                    Inconsistency::NotPositive(ResolvedQuantity::AngularFrequency),
                ),
            )
        } else if self.c.spec_le(Scalar::spec_zero()) {
            Err(WaveError::InvariantViolation(Inconsistency::NotPositive(ResolvedQuantity::PhaseVelocity)))
        } else if velocity_mismatch.spec_abs().spec_gt(Scalar { bits: CONSISTENCY_TOLERANCE_BITS }) {
            Err(WaveError::InvariantViolation(Inconsistency::VelocityMismatch(velocity_mismatch)))
        } else {
            Ok(())
        }
    }

    /// Checks the inputs of a wave without building it.
    pub fn check_inputs(
        wave_height: Scalar,
        wave_period: Scalar,
        water_depth: Scalar,
        breaking_ratio: Scalar,
    ) -> (verdict: Result<(), WaveError>)
        ensures
            verdict == Self::spec_check_inputs(wave_height, wave_period, water_depth, breaking_ratio),
    {
        let zero = Scalar::zero();
        if wave_height.le(zero) {
            return Err(WaveError::InvalidInput(InputQuantity::WaveHeight));
        }
        if wave_period.le(zero) {
            return Err(WaveError::InvalidInput(InputQuantity::WavePeriod));
        }
        if water_depth.le(zero) {
            return Err(WaveError::InvalidInput(InputQuantity::WaterDepth));
        }
        if breaking_ratio.gt(Scalar::from_bits(BREAKING_LIMIT_BITS)) {
            return Err(WaveError::BreakingRisk(breaking_ratio));
        }
        Ok(())
    }

    /// Creates the parameters of a wave from its inputs.
    ///
    /// The caller supplies the two quotients that construction needs:
    /// `breaking_ratio` = H/d and `omega` = 2*pi/T. Wave number, phase velocity
    /// and wavelength start at zero.
    pub fn new(
        wave_height: Scalar,
        wave_period: Scalar,
        water_depth: Scalar,
        breaking_ratio: Scalar,
        omega: Scalar,
    ) -> (created: Result<WaveParameters, WaveError>)
        ensures
            created == match Self::spec_check_inputs(
                wave_height,
                wave_period,
                water_depth,
                breaking_ratio,
            ) {
                Ok(()) => Ok(Self::spec_unresolved(wave_height, wave_period, water_depth, omega)),
                Err(e) => Err(e),
            },
    {
        match Self::check_inputs(wave_height, wave_period, water_depth, breaking_ratio) {
            Err(e) => Err(e),
            Ok(()) => Ok(
                WaveParameters {
                    k: Scalar::zero(),
                    omega,
                    c: Scalar::zero(),
                    h: wave_height,
                    d: water_depth,
                    period: wave_period,
                    wavelength: Scalar::zero(),
                },
            ),
        }
    }

    /// Records the solution of the dispersion relation: the wave number, and with it
    /// the phase velocity omega/k and the wavelength 2*pi/k that the caller derived.
    pub fn update_from_dispersion(
        &mut self,
        wave_number: Scalar,
        phase_velocity: Scalar,
        wavelength: Scalar,
    )
        ensures
            *final(self) == (WaveParameters {
                k: wave_number,
                c: phase_velocity,
                wavelength,
                ..*old(self)
            }),
    {
        self.k = wave_number;
        self.c = phase_velocity;
        self.wavelength = wavelength;
    }

    /// Checks resolved parameters for physical consistency, given
    /// `velocity_mismatch` = c - omega/k.
    pub fn validate(&self, velocity_mismatch: Scalar) -> (verdict: Result<(), WaveError>)
        ensures
            verdict == self.spec_validate(velocity_mismatch),
    {
        let zero = Scalar::zero();
        if self.k.le(zero) {
            return Err(
                WaveError::InvariantViolation(Inconsistency::NotPositive(ResolvedQuantity::WaveNumber)),
            );
        }
        if self.omega.le(zero) {
            return Err(
                WaveError::InvariantViolation(
                    Inconsistency::NotPositive(ResolvedQuantity::AngularFrequency),
                ),
            );
        }
        if self.c.le(zero) {
            return Err(
                WaveError::InvariantViolation(
                    Inconsistency::NotPositive(ResolvedQuantity::PhaseVelocity),
                ),
            );
        }
        if velocity_mismatch.abs().gt(Scalar::from_bits(CONSISTENCY_TOLERANCE_BITS)) {
            return Err(WaveError::InvariantViolation(Inconsistency::VelocityMismatch(velocity_mismatch)));
        }
        Ok(())
    }
}

/// Each verdict on the inputs of a wave comes on exactly its inputs: success when
/// none of height, period and depth is zero or negative and the breaking ratio does
/// not exceed 0.78, and each rejection when its test is the first that strikes.
pub proof fn lemma_check_inputs_cases(
    wave_height: Scalar,
    wave_period: Scalar,
    water_depth: Scalar,
    breaking_ratio: Scalar,
)
    ensures
        ({
            let verdict = WaveParameters::spec_check_inputs(
                wave_height,
                wave_period,
                water_depth,
                breaking_ratio,
            );
            let zero = Scalar::spec_zero();
            let limit = Scalar { bits: BREAKING_LIMIT_BITS };
            &&& verdict is Ok <==> !wave_height.spec_le(zero) && !wave_period.spec_le(zero)
                && !water_depth.spec_le(zero) && !breaking_ratio.spec_gt(limit)
            &&& verdict == Err::<(), WaveError>(WaveError::InvalidInput(InputQuantity::WaveHeight))
                <==> wave_height.spec_le(zero)
            &&& verdict == Err::<(), WaveError>(WaveError::InvalidInput(InputQuantity::WavePeriod))
                <==> !wave_height.spec_le(zero) && wave_period.spec_le(zero)
            &&& verdict == Err::<(), WaveError>(WaveError::InvalidInput(InputQuantity::WaterDepth))
                <==> !wave_height.spec_le(zero) && !wave_period.spec_le(zero)
                && water_depth.spec_le(zero)
            &&& verdict == Err::<(), WaveError>(WaveError::BreakingRisk(breaking_ratio))
                <==> !wave_height.spec_le(zero) && !wave_period.spec_le(zero)
                && !water_depth.spec_le(zero) && breaking_ratio.spec_gt(limit)
        }),
{
}

/// Each verdict of the consistency check comes on exactly its parameters: success when
/// none of wave number, angular frequency and phase velocity is zero or negative and
/// the mismatch of the phase velocity does not exceed 1e-6 in magnitude, and each
/// rejection when its test is the first that strikes.
pub proof fn lemma_validate_cases(params: WaveParameters, velocity_mismatch: Scalar)
    ensures
        ({
            let verdict = params.spec_validate(velocity_mismatch);
            let zero = Scalar::spec_zero();
            let off = velocity_mismatch.spec_abs().spec_gt(
                Scalar { bits: CONSISTENCY_TOLERANCE_BITS },
            );
            &&& verdict is Ok <==> !params.k.spec_le(zero) && !params.omega.spec_le(zero)
                && !params.c.spec_le(zero) && !off
            &&& verdict == Err::<(), WaveError>(
                WaveError::InvariantViolation(Inconsistency::NotPositive(ResolvedQuantity::WaveNumber)),
            ) <==> params.k.spec_le(zero)
            &&& verdict == Err::<(), WaveError>(
                WaveError::InvariantViolation(
                    Inconsistency::NotPositive(ResolvedQuantity::AngularFrequency),
                ),
            ) <==> !params.k.spec_le(zero) && params.omega.spec_le(zero)
            &&& verdict == Err::<(), WaveError>(
                WaveError::InvariantViolation(
                    Inconsistency::NotPositive(ResolvedQuantity::PhaseVelocity),
                ),
            ) <==> !params.k.spec_le(zero) && !params.omega.spec_le(zero) && params.c.spec_le(zero)
            &&& verdict == Err::<(), WaveError>(
                WaveError::InvariantViolation(Inconsistency::VelocityMismatch(velocity_mismatch)),
            ) <==> !params.k.spec_le(zero) && !params.omega.spec_le(zero) && !params.c.spec_le(
                zero,
            ) && off
        }),
{
}

/// A larger depth-to-wavelength ratio never gives a shallower regime, so between a
/// shallow and a deep ratio every regime on the way is met in order.
pub proof fn lemma_regime_monotone(lower: Scalar, upper: Scalar)
    requires
        lower.spec_le(upper),
    ensures
        WaterDepthRegime::spec_classify(lower).depth_order() <= WaterDepthRegime::spec_classify(
            upper,
        ).depth_order(),
{
}

/// Inputs that pass construction are, where they are numbers, strictly positive, and
/// their breaking ratio does not exceed the limit.
pub proof fn lemma_accepted_inputs_positive(
    wave_height: Scalar,
    wave_period: Scalar,
    water_depth: Scalar,
    breaking_ratio: Scalar,
)
    requires
        WaveParameters::spec_check_inputs(wave_height, wave_period, water_depth, breaking_ratio) is Ok,
    ensures
        !wave_height.is_nan() ==> wave_height.spec_gt(Scalar::spec_zero()),
        !wave_period.is_nan() ==> wave_period.spec_gt(Scalar::spec_zero()),
        !water_depth.is_nan() ==> water_depth.spec_gt(Scalar::spec_zero()),
        !breaking_ratio.is_nan() ==> breaking_ratio.spec_le(Scalar { bits: BREAKING_LIMIT_BITS }),
{
}

/// Parameters that pass the consistency check have, where they are numbers, a strictly
/// positive wave number, angular frequency and phase velocity.
pub proof fn lemma_validated_positive(params: WaveParameters, velocity_mismatch: Scalar)
    requires
        params.spec_validate(velocity_mismatch) is Ok,
    ensures
        !params.k.is_nan() ==> params.k.spec_gt(Scalar::spec_zero()),
        !params.omega.is_nan() ==> params.omega.spec_gt(Scalar::spec_zero()),
        !params.c.is_nan() ==> params.c.spec_gt(Scalar::spec_zero()),
        !velocity_mismatch.is_nan() ==> velocity_mismatch.spec_abs().spec_le(
            Scalar { bits: CONSISTENCY_TOLERANCE_BITS },
        ),
{
}

/// The limits of this module are the decimal numbers of the rules, rounded to double
/// precision: 0.78, 1e-6, 1/20 and 1/2.
pub proof fn lemma_limits_are_decimal()
    ensures
        (Scalar { bits: BREAKING_LIMIT_BITS }).is_rounded(78, 100),
        (Scalar { bits: CONSISTENCY_TOLERANCE_BITS }).is_rounded(1, 1_000_000),
        (Scalar { bits: SHALLOW_LIMIT_BITS }).is_rounded(1, 20),
        (Scalar { bits: DEEP_LIMIT_BITS }).is_rounded(1, 2),
{
    lemma2_to64();
    lemma2_to64_rest();
    lemma_pow2_adds(64, 8);
}

} // verus!
