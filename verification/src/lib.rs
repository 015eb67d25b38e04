//! A one-dimensional regular wave generator for a wave flume: its rules, verified.
//!
//! From a wave height, a period and a still-water depth the engine resolves a
//! consistent set of wave parameters, evaluates surface elevation and velocity, and
//! drives the inflow boundary of a flow solver. Two parties share that work. A host
//! evaluates the formulas in double precision. This library holds everything that
//! is decided from the numbers: which inputs are admitted, how the Newton iteration
//! proceeds and ends, which checks a solution passes, when a field is evaluated at
//! all and where, how the start-up ramp is phased, and which cell of a grid is
//! written. Quantities cross the border as bit patterns ([`waves::Scalar`]), and
//! every decision on them is proved against a model of the numbers they stand for.
//!
//! [`waves`] is the engine. [`gui`] is the model behind a display of the channel:
//! its parameters, its tooltips and the equations shown in them.

pub mod gui;
pub mod waves;
