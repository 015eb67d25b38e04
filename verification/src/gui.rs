//! The model behind the wave channel display: what the widgets show and remember.

pub mod equations;
pub mod wave_channel;

pub use equations::{Equation, EquationRegistry};
pub use wave_channel::{TooltipSet, WaveChannelApp};
