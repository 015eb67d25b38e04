//! The inflow boundary driver: simulation time, the enable switch, the start-up ramp and
//! the hand-over of boundary values to the leftmost cell of a host grid.
//!
//! The driver owns where and when the wave fields are evaluated (the generation
//! position and the current time) and whether anything is emitted at all. The
//! fields are evaluated by the host, through the functions that each operation
//! takes; a disabled driver never calls them.

use vstd::prelude::*;
use crate::waves::dispersion::STANDARD_GRAVITY_BITS;
use crate::waves::parameters::WaveParameters;
use crate::waves::scalar::Scalar;
use crate::waves::velocity::VelocityCalculator;

verus! {

/// Where the driver stands on its start-up ramp.
#[derive(Debug, Clone, Copy, PartialEq, Eq, Structural)]
pub enum RampPhase {
    /// The driver is disabled: the envelope is 0.
    Off,
    /// There is no ramp, or it has run its course: the envelope is 1.
    Full,
    /// The current time is inside the ramp: the envelope is the raised-cosine taper.
    Tapering,
}

/// Boundary condition applicator for wave generation.
#[derive(Debug, Clone, Copy)]
pub struct BoundaryApplicator {
    /// Velocity calculator for wave generation
    pub velocity_calc: VelocityCalculator,
    /// Current simulation time
    pub current_time: Scalar,
    /// Wave generation position (typically x = 0)
    pub generation_position: Scalar,
    /// Flag to enable/disable wave generation
    pub enabled: bool,
}

/// Status information for wave generation boundary.
#[derive(Debug, Clone, Copy)]
pub struct BoundaryStatus {
    /// Whether wave generation is enabled
    pub enabled: bool,
    /// Current simulation time
    pub current_time: Scalar,
    /// Wave generation position
    pub generation_position: Scalar,
    /// Current boundary velocity
    pub current_velocity: Scalar,
    /// Current boundary surface elevation
    pub current_elevation: Scalar,
    /// Wave parameters
    pub wave_parameters: WaveParameters,
}

impl BoundaryApplicator {
    /// What an enabled driver emits for a field is the field at the generation position
    /// and the current time; a disabled driver emits zero.
    pub open spec fn emits<F: Fn(Scalar, Scalar) -> Scalar>(self, field: F, value: Scalar) -> bool {
        if self.enabled {
            call_ensures(field, (self.generation_position, self.current_time), value)
        } else {
            value == Scalar::spec_zero()
        }
    }

    /// Whether an apply operation writes at all: the driver is enabled and neither grid
    /// is empty.
    pub open spec fn writes<T>(self, velocities: Seq<T>, surface_elevations: Seq<T>) -> bool {
        self.enabled && velocities.len() > 0 && surface_elevations.len() > 0
    }

    /// The phase of a ramp of `ramp_duration` at the current time.
    pub open spec fn spec_ramp_phase(self, ramp_duration: Scalar) -> RampPhase {
        if !self.enabled {
            RampPhase::Off
        } else if ramp_duration.spec_le(Scalar::spec_zero()) {
            RampPhase::Full
        } else if self.current_time.spec_lt(ramp_duration) {
            RampPhase::Tapering
        } else {
            RampPhase::Full
        }
    }

    /// Whether `factor` is the ramp envelope of `ramp_duration` at the current time: 0
    /// when disabled, 1 without a ramp or past it, and inside it what `taper` makes of
    /// the current time and the duration.
    pub open spec fn ramps_to<R: Fn(Scalar, Scalar) -> Scalar>(
        self,
        ramp_duration: Scalar,
        taper: R,
        factor: Scalar,
    ) -> bool {
        match self.spec_ramp_phase(ramp_duration) {
            RampPhase::Off => factor == Scalar::spec_zero(),
            RampPhase::Full => factor == Scalar::spec_one(),
            RampPhase::Tapering => call_ensures(taper, (self.current_time, ramp_duration), factor),
        }
    }

    /// Whether `cell` is a ramped boundary value: the field at the generation position
    /// and the current time, scaled by the ramp envelope.
    pub open spec fn ramped_cell<
        T,
        F: Fn(Scalar, Scalar) -> T,
        R: Fn(Scalar, Scalar) -> Scalar,
        S: Fn(T, Scalar) -> T,
    >(self, ramp_duration: Scalar, field: F, taper: R, scale: S, raw: T, factor: Scalar, cell: T) -> bool {
        &&& call_ensures(field, (self.generation_position, self.current_time), raw)
        &&& self.ramps_to(ramp_duration, taper, factor)
        &&& call_ensures(scale, (raw, factor), cell)
    }

    /// Whether `flux` is the mass flux of an enabled driver: the boundary velocity
    /// `velocity` times the still-water depth, as `product` multiplies.
    pub open spec fn fluxes_to<F: Fn(Scalar, Scalar) -> Scalar, M: Fn(Scalar, Scalar) -> Scalar>(
        self,
        horizontal_velocity: F,
        product: M,
        velocity: Scalar,
        flux: Scalar,
    ) -> bool {
        &&& call_ensures(
            horizontal_velocity,
            (self.generation_position, self.current_time),
            velocity,
        )
        &&& call_ensures(product, (velocity, self.velocity_calc.params.d), flux)
    }

    /// Creates a boundary applicator for wave parameters: at time zero, generating at
    /// position zero, enabled.
    pub fn new(params: WaveParameters) -> (applicator: Self)
        ensures
            applicator.velocity_calc.params == params,
            applicator.velocity_calc.gravity == (Scalar { bits: STANDARD_GRAVITY_BITS }),
            applicator.current_time == Scalar::spec_zero(),
            applicator.generation_position == Scalar::spec_zero(),
            applicator.enabled,
    {
        BoundaryApplicator {
            velocity_calc: VelocityCalculator::new(params),
            current_time: Scalar::zero(),
            generation_position: Scalar::zero(),
            enabled: true,
        }
    }

    /// Replaces the wave parameters. Time, position and the enable switch stay.
    pub fn update_parameters(&mut self, params: WaveParameters)
        ensures
            final(self).velocity_calc.params == params,
            final(self).velocity_calc.gravity == old(self).velocity_calc.gravity,
            final(self).current_time == old(self).current_time,
            final(self).generation_position == old(self).generation_position,
            final(self).enabled == old(self).enabled,
    {
        self.velocity_calc.update_parameters(params);
    }

    /// Sets the wave generation position.
    pub fn set_generation_position(&mut self, x: Scalar)
        ensures
            *final(self) == (BoundaryApplicator { generation_position: x, ..*old(self) }),
    {
        self.generation_position = x;
    }

    /// Enables or disables wave generation.
    pub fn set_enabled(&mut self, enabled: bool)
        ensures
            *final(self) == (BoundaryApplicator { enabled, ..*old(self) }),
    {
        self.enabled = enabled;
    }

    /// Whether wave generation is enabled.
    pub fn is_enabled(&self) -> (enabled: bool)
        ensures
            enabled == self.enabled,
    {
        self.enabled
    }

    /// Sets the simulation time.
    pub fn update_time(&mut self, time: Scalar)
        ensures
            *final(self) == (BoundaryApplicator { current_time: time, ..*old(self) }),
    {
        self.current_time = time;
    }

    /// The current simulation time.
    pub fn current_time(&self) -> (time: Scalar)
        ensures
            time == self.current_time,
    {
        self.current_time
    }

    /// The boundary velocity at the current time: `horizontal_velocity` at the generation
    /// position and the current time when enabled, zero when disabled.
    pub fn boundary_velocity<F: Fn(Scalar, Scalar) -> Scalar>(&self, horizontal_velocity: F) -> (u:
        Scalar)
        requires
            self.enabled ==> horizontal_velocity.requires(
                (self.generation_position, self.current_time),
            ),
        ensures
            self.emits(horizontal_velocity, u),
    {
        if !self.enabled {
            return Scalar::zero();
        }
        horizontal_velocity(self.generation_position, self.current_time)
    }

    /// The boundary surface elevation at the current time: `surface_elevation` at the
    /// generation position and the current time when enabled, zero when disabled.
    pub fn boundary_surface_elevation<F: Fn(Scalar, Scalar) -> Scalar>(
        &self,
        surface_elevation: F,
    ) -> (eta: Scalar)
        requires
            self.enabled ==> surface_elevation.requires(
                (self.generation_position, self.current_time),
            ),
        ensures
            self.emits(surface_elevation, eta),
    {
        if !self.enabled {
            return Scalar::zero();
        }
        surface_elevation(self.generation_position, self.current_time)
    }

    /// Writes the current boundary velocity and elevation into the first cell of each
    /// grid. Nothing is written when the driver is disabled or either grid is empty, and
    /// no cell beyond the first is ever touched.
    pub fn apply_boundary_conditions<T, U: Fn(Scalar, Scalar) -> T, E: Fn(Scalar, Scalar) -> T>(
        &self,
        velocities: &mut [T],
        surface_elevations: &mut [T],
        horizontal_velocity: U,
        surface_elevation: E,
    )
        requires
            self.writes(old(velocities)@, old(surface_elevations)@) ==> {
                &&& horizontal_velocity.requires((self.generation_position, self.current_time))
                &&& surface_elevation.requires((self.generation_position, self.current_time))
            },
        ensures
            final(velocities)@.len() == old(velocities)@.len(),
            final(surface_elevations)@.len() == old(surface_elevations)@.len(),
            forall|i: int|
                1 <= i < old(velocities)@.len() ==> final(velocities)@[i] == old(velocities)@[i],
            forall|i: int|
                1 <= i < old(surface_elevations)@.len() ==> final(surface_elevations)@[i] == old(
                    surface_elevations,
                )@[i],
            self.writes(old(velocities)@, old(surface_elevations)@) ==> {
                &&& call_ensures(
                    horizontal_velocity,
                    (self.generation_position, self.current_time),
                    final(velocities)@[0],
                )
                &&& call_ensures(
                    surface_elevation,
                    (self.generation_position, self.current_time),
                    final(surface_elevations)@[0],
                )
            },
            !self.writes(old(velocities)@, old(surface_elevations)@) ==> {
                &&& final(velocities)@ == old(velocities)@
                &&& final(surface_elevations)@ == old(surface_elevations)@
            },
    {
        if !self.enabled || velocities.is_empty() || surface_elevations.is_empty() {
            return ;
        }
        velocities[0] = horizontal_velocity(self.generation_position, self.current_time);
        surface_elevations[0] = surface_elevation(self.generation_position, self.current_time);
    }

    /// The wave parameters.
    pub fn parameters(&self) -> (params: &WaveParameters)
        ensures
            *params == self.velocity_calc.params,
    {
        self.velocity_calc.parameters()
    }

    /// Where the driver stands on a ramp of `ramp_duration`.
    pub fn ramp_phase(&self, ramp_duration: Scalar) -> (phase: RampPhase)
        ensures
            phase == self.spec_ramp_phase(ramp_duration),
    {
        if !self.enabled {
            RampPhase::Off
        } else if ramp_duration.le(Scalar::zero()) {
            RampPhase::Full
        } else if self.current_time.lt(ramp_duration) {
            RampPhase::Tapering
        } else {
            RampPhase::Full
        }
    }

    /// The ramp-up factor for a smooth start of wave generation over `ramp_duration`.
    ///
    /// `taper` is the raised cosine (1 - cos(pi*t/tau))/2 of a time t inside a ramp of
    /// duration tau; it is called only there.
    pub fn ramp_up_factor<R: Fn(Scalar, Scalar) -> Scalar>(&self, ramp_duration: Scalar, taper: R) -> (factor:
        Scalar)
        requires
            self.spec_ramp_phase(ramp_duration) is Tapering ==> taper.requires(
                (self.current_time, ramp_duration),
            ),
        ensures
            self.ramps_to(ramp_duration, taper, factor),
    {
        match self.ramp_phase(ramp_duration) {
            RampPhase::Off => Scalar::zero(),
            RampPhase::Full => Scalar::one(),
            RampPhase::Tapering => taper(self.current_time, ramp_duration),
        }
    }

    /// Writes the ramped boundary velocity and elevation into the first cell of each
    /// grid: the values of `apply_boundary_conditions`, each scaled by the ramp-up
    /// factor. Nothing is written when the driver is disabled or either grid is empty,
    /// and no cell beyond the first is ever touched.
    pub fn apply_ramped_boundary_conditions<
        T,
        U: Fn(Scalar, Scalar) -> T,
        E: Fn(Scalar, Scalar) -> T,
        R: Fn(Scalar, Scalar) -> Scalar,
        S: Fn(T, Scalar) -> T,
    >(
        &self,
        velocities: &mut [T],
        surface_elevations: &mut [T],
        ramp_duration: Scalar,
        horizontal_velocity: U,
        surface_elevation: E,
        taper: R,
        scale: S,
    )
        requires
            self.writes(old(velocities)@, old(surface_elevations)@) ==> {
                &&& horizontal_velocity.requires((self.generation_position, self.current_time))
                &&& surface_elevation.requires((self.generation_position, self.current_time))
                &&& self.spec_ramp_phase(ramp_duration) is Tapering ==> taper.requires(
                    (self.current_time, ramp_duration),
                )
                &&& forall|value: T, factor: Scalar| scale.requires((value, factor))
            },
        ensures
            final(velocities)@.len() == old(velocities)@.len(),
            final(surface_elevations)@.len() == old(surface_elevations)@.len(),
            forall|i: int|
                1 <= i < old(velocities)@.len() ==> final(velocities)@[i] == old(velocities)@[i],
            forall|i: int|
                1 <= i < old(surface_elevations)@.len() ==> final(surface_elevations)@[i] == old(
                    surface_elevations,
                )@[i],
            self.writes(old(velocities)@, old(surface_elevations)@) ==> exists|
                raw_velocity: T,
                raw_elevation: T,
                factor: Scalar,
            |
                {
                    &&& #[trigger] self.ramped_cell(
                        ramp_duration,
                        horizontal_velocity,
                        taper,
                        scale,
                        raw_velocity,
                        factor,
                        final(velocities)@[0],
                    )
                    &&& #[trigger] self.ramped_cell(
                        ramp_duration,
                        surface_elevation,
                        taper,
                        scale,
                        raw_elevation,
                        factor,
                        final(surface_elevations)@[0],
                    )
                },
            !self.writes(old(velocities)@, old(surface_elevations)@) ==> {
                &&& final(velocities)@ == old(velocities)@
                &&& final(surface_elevations)@ == old(surface_elevations)@
            },
    {
        if !self.enabled || velocities.is_empty() || surface_elevations.is_empty() {
            return ;
        }
        let ramp_factor = self.ramp_up_factor(ramp_duration, &taper);
        let raw_velocity = horizontal_velocity(self.generation_position, self.current_time);
        let raw_elevation = surface_elevation(self.generation_position, self.current_time);
        let ghost shown_velocity = raw_velocity;
        let ghost shown_elevation = raw_elevation;
        velocities[0] = scale(raw_velocity, ramp_factor);
        surface_elevations[0] = scale(raw_elevation, ramp_factor);
        proof {
            assert(self.ramped_cell(
                ramp_duration,
                horizontal_velocity,
                taper,
                scale,
                shown_velocity,
                ramp_factor,
                velocities@[0],
            ));
            assert(self.ramped_cell(
                ramp_duration,
                surface_elevation,
                taper,
                scale,
                shown_elevation,
                ramp_factor,
                surface_elevations@[0],
            ));
        }
    }

    /// The boundary flux, velocity times depth, for mass conservation: zero when
    /// disabled, and otherwise what `product` makes of the boundary velocity and the
    /// still-water depth.
    pub fn boundary_flux<F: Fn(Scalar, Scalar) -> Scalar, M: Fn(Scalar, Scalar) -> Scalar>(
        &self,
        horizontal_velocity: F,
        product: M,
    ) -> (flux: Scalar)
        requires
            self.enabled ==> {
                &&& horizontal_velocity.requires((self.generation_position, self.current_time))
                &&& forall|velocity: Scalar| product.requires((velocity, self.velocity_calc.params.d))
            },
        ensures
            !self.enabled ==> flux == Scalar::spec_zero(),
            self.enabled ==> exists|velocity: Scalar| #[trigger]
                self.fluxes_to(horizontal_velocity, product, velocity, flux),
    {
        if !self.enabled {
            return Scalar::zero();
        }
        let velocity = self.boundary_velocity(&horizontal_velocity);
        let depth = self.parameters().d;
        let flux = product(velocity, depth);
        assert(self.fluxes_to(horizontal_velocity, product, velocity, flux));
        flux
    }

    /// Whether wave generation should be active: the driver is enabled and the current
    /// time is before `simulation_duration`.
    pub fn should_generate_waves(&self, simulation_duration: Scalar) -> (active: bool)
        ensures
            active == (self.enabled && self.current_time.spec_lt(simulation_duration)),
    {
        self.enabled && self.current_time.lt(simulation_duration)
    }

    /// A snapshot of the driver with its current boundary values.
    pub fn status<U: Fn(Scalar, Scalar) -> Scalar, E: Fn(Scalar, Scalar) -> Scalar>(
        &self,
        horizontal_velocity: U,
        surface_elevation: E,
    ) -> (status: BoundaryStatus)
        requires
            self.enabled ==> {
                &&& horizontal_velocity.requires((self.generation_position, self.current_time))
                &&& surface_elevation.requires((self.generation_position, self.current_time))
            },
        ensures
            status.enabled == self.enabled,
            status.current_time == self.current_time,
            status.generation_position == self.generation_position,
            self.emits(horizontal_velocity, status.current_velocity),
            self.emits(surface_elevation, status.current_elevation),
            status.wave_parameters == self.velocity_calc.params,
    {
        BoundaryStatus {
            enabled: self.enabled,
            current_time: self.current_time,
            generation_position: self.generation_position,
            current_velocity: self.boundary_velocity(horizontal_velocity),
            current_elevation: self.boundary_surface_elevation(surface_elevation),
            wave_parameters: *self.parameters(),
        }
    }

    /// Resets the driver to time zero and enables it. Position and parameters stay.
    pub fn reset(&mut self)
        ensures
            *final(self) == (BoundaryApplicator {
                current_time: Scalar::spec_zero(),
                enabled: true,
                ..*old(self)
            }),
    {
        self.current_time = Scalar::zero();
        self.enabled = true;
    }

    /// Advances the time by one step `dt`, which `sum` adds to the current time. The
    /// step is not bounded: the driver does not police stability.
    pub fn advance_time<A: Fn(Scalar, Scalar) -> Scalar>(&mut self, dt: Scalar, sum: A)
        requires
            sum.requires((old(self).current_time, dt)),
        ensures
            call_ensures(sum, (old(self).current_time, dt), final(self).current_time),
            *final(self) == (BoundaryApplicator {
                current_time: final(self).current_time,
                ..*old(self)
            }),
    {
        self.current_time = sum(self.current_time, dt);
    }
}

impl BoundaryStatus {
    /// Whether a phase is within `tolerance` of a given point of the cycle, where
    /// `wrapped` is its offset from that point reduced modulo a full turn and
    /// `wrapped_less_turn` is that less one turn.
    pub open spec fn spec_at_cycle_point(
        tolerance: Scalar,
        wrapped: Scalar,
        wrapped_less_turn: Scalar,
    ) -> bool {
        wrapped.spec_abs().spec_lt(tolerance) || wrapped_less_turn.spec_abs().spec_lt(tolerance)
    }

    /// Whether the wave is at a crest, given the current phase reduced modulo 2*pi and
    /// the same less 2*pi.
    pub fn at_wave_crest(&self, tolerance: Scalar, crest_phase: Scalar, crest_phase_less_turn: Scalar) -> (at_crest:
        bool)
        ensures
            at_crest == Self::spec_at_cycle_point(tolerance, crest_phase, crest_phase_less_turn),
    {
        crest_phase.abs().lt(tolerance) || crest_phase_less_turn.abs().lt(tolerance)
    }

    /// Whether the wave is at a trough, given the current phase plus pi reduced modulo
    /// 2*pi and the same less 2*pi.
    pub fn at_wave_trough(
        &self,
        tolerance: Scalar,
        trough_phase: Scalar,
        trough_phase_less_turn: Scalar,
    ) -> (at_trough: bool)
        ensures
            at_trough == Self::spec_at_cycle_point(tolerance, trough_phase, trough_phase_less_turn),
    {
        trough_phase.abs().lt(tolerance) || trough_phase_less_turn.abs().lt(tolerance)
    }
}

/// A disabled driver emits zero for every field, whatever the time and the position.
pub proof fn lemma_disabled_emits_zero<F: Fn(Scalar, Scalar) -> Scalar>(
    applicator: BoundaryApplicator,
    field: F,
    value: Scalar,
)
    requires
        !applicator.enabled,
        applicator.emits(field, value),
    ensures
        value == Scalar::spec_zero(),
        applicator.spec_ramp_phase(Scalar::spec_one()) == RampPhase::Off,
{
}

/// Once the current time has reached the end of a ramp, and where there is no ramp, the
/// envelope of an enabled driver is exactly 1; a disabled driver's is exactly 0.
pub proof fn lemma_ramp_ends_at_one<R: Fn(Scalar, Scalar) -> Scalar>(
    applicator: BoundaryApplicator,
    ramp_duration: Scalar,
    taper: R,
    factor: Scalar,
)
    requires
        applicator.ramps_to(ramp_duration, taper, factor),
    ensures
        !applicator.enabled ==> factor == Scalar::spec_zero(),
        applicator.enabled && ramp_duration.spec_le(applicator.current_time) ==> factor
            == Scalar::spec_one(),
        applicator.enabled && ramp_duration.spec_le(Scalar::spec_zero()) ==> factor
            == Scalar::spec_one(),
        applicator.enabled && applicator.current_time.rank() == ramp_duration.rank() ==> factor
            == Scalar::spec_one() || applicator.current_time.is_nan() || ramp_duration.is_nan(),
{
}

/// The state that `reset` leaves: time zero and enabled, the rest as before.
pub open spec fn reset_of(applicator: BoundaryApplicator) -> BoundaryApplicator {
    BoundaryApplicator { current_time: Scalar::spec_zero(), enabled: true, ..applicator }
}

/// `reset` leaves the driver at time zero and enabled, and resetting twice is
/// resetting once.
pub proof fn lemma_reset_idempotent(applicator: BoundaryApplicator)
    ensures
        reset_of(applicator).current_time == Scalar::spec_zero(),
        reset_of(applicator).enabled,
        reset_of(reset_of(applicator)) == reset_of(applicator),
{
}

} // verus!
