//! Wave description, dispersion solving, kinematics and the inflow boundary.

pub mod boundary;
pub mod dispersion;
pub mod error;
pub mod parameters;
pub mod scalar;
pub mod velocity;

pub use boundary::BoundaryApplicator;
pub use dispersion::DispersionSolver;
pub use error::WaveError;
pub use parameters::{WaterDepthRegime, WaveParameters};
pub use scalar::Scalar;
pub use velocity::VelocityCalculator;
