//! Why the engine rejects a wave.

use vstd::prelude::*;
use crate::waves::scalar::Scalar;

verus! {

/// One of the three physical inputs that describe a wave.
#[derive(Debug, Clone, Copy, PartialEq, Eq, Structural)]
pub enum InputQuantity {
    WaveHeight,
    WavePeriod,
    WaterDepth,
}

/// One of the resolved quantities that must be positive.
#[derive(Debug, Clone, Copy, PartialEq, Eq, Structural)]
pub enum ResolvedQuantity {
    WaveNumber,
    AngularFrequency,
    PhaseVelocity,
}

/// What the consistency check of resolved parameters found.
#[derive(Debug, Clone, Copy)]
pub enum Inconsistency {
    /// A resolved quantity is zero or negative.
    NotPositive(ResolvedQuantity),
    /// The phase velocity is off from omega/k by more than the tolerance; carries c - omega/k.
    VelocityMismatch(Scalar),
}

/// The closed set of failures of construction, solving and diagnostics.
#[derive(Debug, Clone, Copy)]
pub enum WaveError {
    /// A physical input is zero or negative.
    InvalidInput(InputQuantity),
    /// The wave is prone to depth-limited breaking; carries H/d.
    BreakingRisk(Scalar),
    /// The Newton step is ill-defined because the derivative is too small.
    DerivativeUnderflow,
    /// The Newton iteration hit its cap; carries the cap.
    NoConvergence(usize),
    /// The dispersion residual of the solution is too large; carries the residual.
    ResidualTooLarge(Scalar),
    /// The resolved parameters are not consistent.
    InvariantViolation(Inconsistency),
    /// The energy diagnostic is off by too much; carries the relative error.
    EnergyDrift(Scalar),
}

} // verus!
