//! The wave channel panel: its parameters, its open tooltips, and the wavelength that
//! it displays.
//!
//! The display uses the classical dispersion relation omega^2 = g*k*tanh(k*d),
//! which is simpler than the one the engine solves and kept apart from it.

use vstd::arithmetic::power2::{lemma2_to64, lemma2_to64_rest, lemma_pow2_adds};
use vstd::prelude::*;
use vstd::string::StringExecFns;
use crate::waves::scalar::Scalar;

pub use crate::waves::parameters::WaterDepthRegime;

verus! {

/// 50 m: the default channel length.
pub const DEFAULT_CHANNEL_LENGTH_BITS: u64 = 0x4049_0000_0000_0000;

/// 2 m: the default still water level.
pub const DEFAULT_STILL_WATER_LEVEL_BITS: u64 = 0x4000_0000_0000_0000;

/// 0.5 m: the default wave height.
pub const DEFAULT_WAVE_HEIGHT_BITS: u64 = 0x3FE0_0000_0000_0000;

/// 4 s: the default wave period.
pub const DEFAULT_WAVE_PERIOD_BITS: u64 = 0x4010_0000_0000_0000;

/// The default number of grid points.
pub const DEFAULT_GRID_RESOLUTION: usize = 100;

/// The default number of waves to generate.
pub const DEFAULT_NUMBER_OF_WAVES: usize = 50;

/// The cap on refinements of the displayed wavelength.
pub const MAX_WAVELENGTH_REFINEMENTS: usize = 20;

/// 1e-6 m: the change of wavelength below which refinement has converged.
pub const WAVELENGTH_TOLERANCE_BITS: u64 = 0x3EB0_C6F7_A0B5_ED8D;

/// The tooltips that are currently open, by their identifiers.
pub struct TooltipSet {
    ids: Vec<String>,
}

impl View for TooltipSet {
    type V = Set<Seq<char>>;

    closed spec fn view(&self) -> Set<Seq<char>> {
        Set::new(|id: Seq<char>| exists|i: int| 0 <= i < self.ids@.len() && self.ids@[i]@ == id)
    }
}

impl TooltipSet {
    /// Well-formedness: no identifier is held twice.
    pub closed spec fn wf(&self) -> bool {
        forall|i: int, j: int|
            0 <= i < j < self.ids@.len() ==> self.ids@[i]@ != self.ids@[j]@
    }

    /// No tooltip open.
    pub fn new() -> (set: Self)
        ensures
            set.wf(),
            set@ == Set::<Seq<char>>::empty(),
    {
        let set = TooltipSet { ids: Vec::new() };
        assert(set@ =~= Set::<Seq<char>>::empty());
        set
    }

    fn position(&self, tooltip_id: &str) -> (found: Option<usize>)
        ensures
            match found {
                Some(i) => i < self.ids@.len() && self.ids@[i as int]@ == tooltip_id@,
                None => forall|i: int| 0 <= i < self.ids@.len() ==> self.ids@[i]@ != tooltip_id@,
            },
    {
        let probe = String::from_str(tooltip_id);
        let mut i: usize = 0;
        while i < self.ids.len()
            invariant
                i <= self.ids@.len(),
                probe@ == tooltip_id@,
                forall|j: int| 0 <= j < i ==> self.ids@[j]@ != tooltip_id@,
            decreases self.ids@.len() - i,
        {
            if self.ids[i] == probe {
                return Some(i);
            }
            i = i + 1;
        }
        None
    }

    /// Whether the tooltip `tooltip_id` is open.
    pub fn contains(&self, tooltip_id: &str) -> (open: bool)
        ensures
            open == self@.contains(tooltip_id@),
    {
        self.position(tooltip_id).is_some()
    }

    /// Opens the tooltip `tooltip_id`; true if it was closed before.
    pub fn insert(&mut self, tooltip_id: &str) -> (newly_open: bool)
        requires
            old(self).wf(),
        ensures
            final(self).wf(),
            final(self)@ == old(self)@.insert(tooltip_id@),
            newly_open == !old(self)@.contains(tooltip_id@),
    {
        match self.position(tooltip_id) {
            Some(_) => {
                assert(self@ =~= self@.insert(tooltip_id@));
                false
            },
            None => {
                let ghost before = self.ids@;
                self.ids.push(String::from_str(tooltip_id));
                assert(self.ids@ == before.push(self.ids@.last()));
                assert(self@ =~= old(self)@.insert(tooltip_id@)) by {
                    assert forall|id: Seq<char>| old(self)@.insert(tooltip_id@).contains(
                        id,
                    ) implies self@.contains(id) by {
                        if id == tooltip_id@ {
                            assert(self.ids@[before.len() as int]@ == id);
                        } else {
                            let i = choose|i: int| 0 <= i < before.len() && before[i]@ == id;
                            assert(self.ids@[i]@ == id);
                        }
                    }
                    assert forall|id: Seq<char>| self@.contains(id) implies old(self)@.insert(
                        tooltip_id@,
                    ).contains(id) by {
                        let i = choose|i: int| 0 <= i < self.ids@.len() && self.ids@[i]@ == id;
                        if i < before.len() {
                            assert(before[i]@ == id);
                        }
                    }
                }
                true
            },
        }
    }

    /// Closes the tooltip `tooltip_id`; true if it was open before.
    pub fn remove(&mut self, tooltip_id: &str) -> (was_open: bool)
        requires
            old(self).wf(),
        ensures
            final(self).wf(),
            final(self)@ == old(self)@.remove(tooltip_id@),
            was_open == old(self)@.contains(tooltip_id@),
    {
        match self.position(tooltip_id) {
            None => {
                assert(self@ =~= self@.remove(tooltip_id@));
                false
            },
            Some(at) => {
                let ghost before = self.ids@;
                self.ids.remove(at);
                assert(self.ids@ == before.remove(at as int));
                assert(self@ =~= old(self)@.remove(tooltip_id@)) by {
                    assert forall|id: Seq<char>| old(self)@.remove(tooltip_id@).contains(
                        id,
                    ) implies self@.contains(id) by {
                        let i = choose|i: int| 0 <= i < before.len() && before[i]@ == id;
                        if i < at {
                            assert(self.ids@[i]@ == id);
                        } else {
                            assert(self.ids@[i - 1]@ == id);
                        }
                    }
                    assert forall|id: Seq<char>| self@.contains(id) implies old(self)@.remove(
                        tooltip_id@,
                    ).contains(id) by {
                        let i = choose|i: int| 0 <= i < self.ids@.len() && self.ids@[i]@ == id;
                        if i < at {
                            assert(before[i]@ == id);
                        } else {
                            assert(before[i + 1]@ == id);
                        }
                    }
                }
                true
            },
        }
    }
}

/// The text around an equation in a tooltip, and which equation it is.
#[derive(Debug, Clone, Copy)]
pub struct EquationNote<'a> {
    /// Identifier of the equation in the registry
    pub equation_id: &'a str,
    /// Text shown before the equation
    pub text_before: &'a str,
    /// Text shown after the equation
    pub text_after: &'a str,
}

/// What the panel derives of a period and a depth before it refines a wavelength.
#[derive(Debug, Clone, Copy)]
pub struct WavelengthEstimates {
    /// The shallow-water wavelength T*sqrt(g*d)
    pub shallow: Scalar,
    /// The depth over the shallow-water wavelength, by which the regime is chosen
    pub depth_ratio: Scalar,
    /// The deep-water wavelength g*T^2/(2*pi)
    pub deep: Scalar,
}

/// One refinement of an intermediate-water wavelength.
#[derive(Debug, Clone, Copy)]
pub struct Refinement {
    /// The refined wavelength (g*T^2/(2*pi)) * tanh(2*pi*d/L) of the wavelength L before
    pub wavelength: Scalar,
    /// The refined wavelength minus the one before
    pub change: Scalar,
}

/// The wave channel panel.
pub struct WaveChannelApp {
    pub channel_length: Scalar,
    pub grid_resolution: usize,
    pub still_water_level: Scalar,
    /// Water surface elevation, one value per grid point
    pub surface_elevation: Vec<Scalar>,
    /// Wave height (H)
    pub wave_height: Scalar,
    /// Wave period (T)
    pub wave_period: Scalar,
    /// Number of waves to generate
    pub number_of_waves: usize,
    /// Which tooltips are currently open
    pub open_tooltips: TooltipSet,
}

impl Default for WaveChannelApp {
    fn default() -> (app: Self)
        ensures
            app.is_default(),
    {
        Self::new()
    }
}

impl WaveChannelApp {
    /// The panel as it starts: a 50 m channel of 100 grid points with 2 m of still
    /// water, waves of 0.5 m and 4 s, 50 of them, and no tooltip open.
    pub open spec fn is_default(self) -> bool {
        &&& self.channel_length == (Scalar { bits: DEFAULT_CHANNEL_LENGTH_BITS })
        &&& self.grid_resolution == DEFAULT_GRID_RESOLUTION
        &&& self.still_water_level == (Scalar { bits: DEFAULT_STILL_WATER_LEVEL_BITS })
        &&& self.surface_elevation@ == Seq::new(
            DEFAULT_GRID_RESOLUTION as nat,
            |i: int| Scalar::spec_zero(),
        )
        &&& self.wave_height == (Scalar { bits: DEFAULT_WAVE_HEIGHT_BITS })
        &&& self.wave_period == (Scalar { bits: DEFAULT_WAVE_PERIOD_BITS })
        &&& self.number_of_waves == DEFAULT_NUMBER_OF_WAVES
        &&& self.open_tooltips.wf()
        &&& self.open_tooltips@ == Set::<Seq<char>>::empty()
    }

    /// Whether refinement has converged at `refinement`.
    pub open spec fn settled(refinement: Refinement) -> bool {
        refinement.change.spec_abs().spec_lt(Scalar { bits: WAVELENGTH_TOLERANCE_BITS })
    }

    /// The wavelength from which refinement number `i` of a run starts: the deep-water
    /// wavelength for the first, and after that the wavelength refined before.
    pub open spec fn refined_from(deep: Scalar, trace: Seq<Refinement>, i: int) -> Scalar {
        if i <= 0 {
            deep
        } else {
            trace[i - 1].wavelength
        }
    }

    /// Whether `trace` is a finished run of refinements from the deep-water wavelength:
    /// at most 20, each a result of `refine` at the wavelength before, none but the last
    /// converged, and the last converged unless the cap is used up.
    pub open spec fn is_refinement<F: Fn(Scalar) -> Refinement>(
        deep: Scalar,
        refine: F,
        trace: Seq<Refinement>,
    ) -> bool {
        &&& 0 < trace.len() <= MAX_WAVELENGTH_REFINEMENTS
        &&& forall|i: int|
            0 <= i < trace.len() ==> call_ensures(
                refine,
                (Self::refined_from(deep, trace, i),),
                #[trigger] trace[i],
            )
        &&& forall|i: int| 0 <= i < trace.len() - 1 ==> !Self::settled(#[trigger] trace[i])
        &&& trace.len() == MAX_WAVELENGTH_REFINEMENTS || Self::settled(trace.last())
    }

    /// Whether `wavelength` is the displayed wavelength for `estimates`: the shallow-water
    /// estimate in shallow water, the deep-water estimate in deep water, and in between
    /// the last wavelength of the refinement run `trace`.
    pub open spec fn displays<F: Fn(Scalar) -> Refinement>(
        estimates: WavelengthEstimates,
        refine: F,
        trace: Seq<Refinement>,
        wavelength: Scalar,
    ) -> bool {
        match WaterDepthRegime::spec_classify(estimates.depth_ratio) {
            WaterDepthRegime::Shallow => wavelength == estimates.shallow,
            WaterDepthRegime::Deep => wavelength == estimates.deep,
            WaterDepthRegime::Intermediate => {
                &&& Self::is_refinement(estimates.deep, refine, trace)
                &&& wavelength == trace.last().wavelength
            },
        }
    }

    /// The tooltip on the wave celerity in a regime.
    pub open spec fn spec_celerity_note(regime: WaterDepthRegime) -> (Seq<char>, Seq<char>, Seq<char>) {
        match regime {
            WaterDepthRegime::Shallow => (
                "shallow_water_celerity"@,
                "Shallow water celerity:"@,
                "Independent of wave period. Applies when h/L < 1/20."@,
            ),
            WaterDepthRegime::Deep => (
                "deep_water_celerity"@,
                "Deep water celerity:"@,
                "Proportional to wave period (dispersive). Applies when h/L > 1/2."@,
            ),
            WaterDepthRegime::Intermediate => (
                "dispersion_relation"@,
                "Intermediate water celerity from full dispersion relation:"@,
                "Solved iteratively. Transitional between shallow and deep water behavior when 1/20 < h/L < 1/2."@,
            ),
        }
    }

    /// The tooltip on the wavelength in a regime.
    pub open spec fn spec_wavelength_note(regime: WaterDepthRegime) -> (
        Seq<char>,
        Seq<char>,
        Seq<char>,
    ) {
        match regime {
            WaterDepthRegime::Shallow => (
                "shallow_water_wavelength"@,
                "Shallow water wavelength:"@,
                "Independent of wave height, depends only on period and depth."@,
            ),
            WaterDepthRegime::Deep => (
                "deep_water_wavelength"@,
                "Deep water wavelength:"@,
                "Depends only on period, independent of depth."@,
            ),
            WaterDepthRegime::Intermediate => (
                "dispersion_relation"@,
                "Intermediate water wavelength from full dispersion relation:"@,
                "Solved iteratively for accurate results."@,
            ),
        }
    }

    /// Creates the panel with its default parameters.
    pub fn new() -> (app: Self)
        ensures
            app.is_default(),
    {
        let grid_resolution = DEFAULT_GRID_RESOLUTION;
        let mut surface_elevation: Vec<Scalar> = Vec::new();
        while surface_elevation.len() < grid_resolution
            invariant
                surface_elevation@.len() <= grid_resolution,
                forall|i: int|
                    0 <= i < surface_elevation@.len() ==> surface_elevation@[i]
                        == Scalar::spec_zero(),
            decreases grid_resolution - surface_elevation@.len(),
        {
            surface_elevation.push(Scalar::zero());
        }
        assert(surface_elevation@ =~= Seq::new(
            DEFAULT_GRID_RESOLUTION as nat,
            |i: int| Scalar::spec_zero(),
        ));
        WaveChannelApp {
            channel_length: Scalar::from_bits(DEFAULT_CHANNEL_LENGTH_BITS),
            grid_resolution,
            still_water_level: Scalar::from_bits(DEFAULT_STILL_WATER_LEVEL_BITS),
            surface_elevation,
            wave_height: Scalar::from_bits(DEFAULT_WAVE_HEIGHT_BITS),
            wave_period: Scalar::from_bits(DEFAULT_WAVE_PERIOD_BITS),
            number_of_waves: DEFAULT_NUMBER_OF_WAVES,
            open_tooltips: TooltipSet::new(),
        }
    }

    /// Brings the surface elevation to the length of the grid: cut where the grid became
    /// coarser, continued with still water where it became finer.
    pub fn update_surface_elevation(&mut self)
        ensures
            final(self).surface_elevation@.len() == old(self).grid_resolution,
            forall|i: int|
                0 <= i < old(self).grid_resolution ==> final(self).surface_elevation@[i] == (if i
                    < old(self).surface_elevation@.len() {
                    old(self).surface_elevation@[i]
                } else {
                    Scalar::spec_zero()
                }),
            final(self).channel_length == old(self).channel_length,
            final(self).grid_resolution == old(self).grid_resolution,
            final(self).still_water_level == old(self).still_water_level,
            final(self).wave_height == old(self).wave_height,
            final(self).wave_period == old(self).wave_period,
            final(self).number_of_waves == old(self).number_of_waves,
            final(self).open_tooltips == old(self).open_tooltips,
    {
        if self.surface_elevation.len() > self.grid_resolution {
            self.surface_elevation.truncate(self.grid_resolution);
        }
        while self.surface_elevation.len() < self.grid_resolution
            invariant
                self.grid_resolution == old(self).grid_resolution,
                self.channel_length == old(self).channel_length,
                self.still_water_level == old(self).still_water_level,
                self.wave_height == old(self).wave_height,
                self.wave_period == old(self).wave_period,
                self.number_of_waves == old(self).number_of_waves,
                self.open_tooltips == old(self).open_tooltips,
                old(self).surface_elevation@.len() > old(self).grid_resolution
                    ==> self.surface_elevation@.len() == self.grid_resolution,
                old(self).surface_elevation@.len() <= old(self).grid_resolution ==> old(
                    self,
                ).surface_elevation@.len() <= self.surface_elevation@.len() <= self.grid_resolution,
                forall|i: int|
                    0 <= i < self.surface_elevation@.len() ==> self.surface_elevation@[i] == (if i
                        < old(self).surface_elevation@.len() {
                        old(self).surface_elevation@[i]
                    } else {
                        Scalar::spec_zero()
                    }),
            decreases self.grid_resolution - self.surface_elevation@.len(),
        {
            self.surface_elevation.push(Scalar::zero());
        }
    }

    /// Whether the tooltip `tooltip_id` is open.
    pub fn is_tooltip_open(&self, tooltip_id: &str) -> (open: bool)
        ensures
            open == self.open_tooltips@.contains(tooltip_id@),
    {
        self.open_tooltips.contains(tooltip_id)
    }

    /// Opens the tooltip `tooltip_id` if it is closed, and closes it if it is open.
    pub fn toggle_tooltip(&mut self, tooltip_id: &str)
        requires
            old(self).open_tooltips.wf(),
        ensures
            final(self).open_tooltips.wf(),
            final(self).open_tooltips@ == (if old(self).open_tooltips@.contains(tooltip_id@) {
                old(self).open_tooltips@.remove(tooltip_id@)
            } else {
                old(self).open_tooltips@.insert(tooltip_id@)
            }),
            final(self).channel_length == old(self).channel_length,
            final(self).grid_resolution == old(self).grid_resolution,
            final(self).still_water_level == old(self).still_water_level,
            final(self).surface_elevation@ == old(self).surface_elevation@,
            final(self).wave_height == old(self).wave_height,
            final(self).wave_period == old(self).wave_period,
            final(self).number_of_waves == old(self).number_of_waves,
    {
        if self.open_tooltips.contains(tooltip_id) {
            self.open_tooltips.remove(tooltip_id);
        } else {
            self.open_tooltips.insert(tooltip_id);
        }
    }

    /// Closes the tooltip `tooltip_id`.
    pub fn close_tooltip(&mut self, tooltip_id: &str)
        requires
            old(self).open_tooltips.wf(),
        ensures
            final(self).open_tooltips.wf(),
            final(self).open_tooltips@ == old(self).open_tooltips@.remove(tooltip_id@),
            final(self).channel_length == old(self).channel_length,
            final(self).grid_resolution == old(self).grid_resolution,
            final(self).still_water_level == old(self).still_water_level,
            final(self).surface_elevation@ == old(self).surface_elevation@,
            final(self).wave_height == old(self).wave_height,
            final(self).wave_period == old(self).wave_period,
            final(self).number_of_waves == old(self).number_of_waves,
    {
        self.open_tooltips.remove(tooltip_id);
    }

    /// Closes the open tooltip `tooltip_id` on a click that lands outside of it: on any
    /// click while neither its popup nor its button is hovered.
    pub fn dismiss_tooltip(
        &mut self,
        tooltip_id: &str,
        any_click: bool,
        popup_hovered: bool,
        button_hovered: bool,
    )
        requires
            old(self).open_tooltips.wf(),
        ensures
            final(self).open_tooltips.wf(),
            final(self).open_tooltips@ == (if any_click && !popup_hovered && !button_hovered {
                old(self).open_tooltips@.remove(tooltip_id@)
            } else {
                old(self).open_tooltips@
            }),
            final(self).channel_length == old(self).channel_length,
            final(self).grid_resolution == old(self).grid_resolution,
            final(self).still_water_level == old(self).still_water_level,
            final(self).surface_elevation@ == old(self).surface_elevation@,
            final(self).wave_height == old(self).wave_height,
            final(self).wave_period == old(self).wave_period,
            final(self).number_of_waves == old(self).number_of_waves,
    {
        if any_click && !popup_hovered && !button_hovered {
            self.close_tooltip(tooltip_id);
        }
    }

    /// Classifies the water depth regime of `depth_ratio`, the depth over the wavelength.
    pub fn classify_water_depth(depth_ratio: Scalar) -> (regime: WaterDepthRegime)
        ensures
            regime == WaterDepthRegime::spec_classify(depth_ratio),
    {
        WaterDepthRegime::classify(depth_ratio)
    }

    /// The wavelength that the panel displays for a period and a depth.
    ///
    /// The regime is chosen by the shallow-water estimate. In shallow and in deep water
    /// the estimate of that regime is the answer. In between, the deep-water wavelength
    /// is refined by `refine` until the change is below 1e-6, at most 20 times, and the
    /// last refinement is the answer whether or not it converged.
    pub fn calculate_wavelength_adaptive<F: Fn(Scalar) -> Refinement>(
        estimates: WavelengthEstimates,
        refine: F,
    ) -> (wavelength: Scalar)
        requires
            WaterDepthRegime::spec_classify(estimates.depth_ratio) is Intermediate ==> forall|
                l: Scalar,
            | refine.requires((l,)),
        ensures
            exists|trace: Seq<Refinement>| #[trigger]
                Self::displays(estimates, refine, trace, wavelength),
    {
        match Self::classify_water_depth(estimates.depth_ratio) {
            WaterDepthRegime::Shallow => {
                assert(Self::displays(estimates, refine, Seq::<Refinement>::empty(), estimates.shallow));
                estimates.shallow
            },
            WaterDepthRegime::Deep => {
                assert(Self::displays(estimates, refine, Seq::<Refinement>::empty(), estimates.deep));
                estimates.deep
            },
            WaterDepthRegime::Intermediate => {
                let mut l_new = estimates.deep;
                let mut rounds: usize = 0;
                let mut done = false;
                let ghost mut trace: Seq<Refinement> = Seq::empty();
                while rounds < MAX_WAVELENGTH_REFINEMENTS && !done
                    invariant
                        rounds <= MAX_WAVELENGTH_REFINEMENTS,
                        trace.len() == rounds,
                        forall|l: Scalar| refine.requires((l,)),
                        l_new == Self::refined_from(estimates.deep, trace, rounds as int),
                        forall|i: int|
                            0 <= i < trace.len() ==> call_ensures(
                                refine,
                                (Self::refined_from(estimates.deep, trace, i),),
                                #[trigger] trace[i],
                            ),
                        forall|i: int|
                            0 <= i < trace.len() - 1 ==> !Self::settled(#[trigger] trace[i]),
                        done ==> rounds > 0,
                        rounds > 0 ==> done == Self::settled(trace.last()),
                    decreases MAX_WAVELENGTH_REFINEMENTS - rounds,
                {
                    let refinement = refine(l_new);
                    let ghost longer = trace.push(refinement);
                    proof {
                        assert forall|i: int| 0 <= i < longer.len() implies call_ensures(
                            refine,
                            (Self::refined_from(estimates.deep, longer, i),),
                            #[trigger] longer[i],
                        ) by {
                            if i < trace.len() {
                                assert(longer[i] == trace[i]);
                                assert(Self::refined_from(estimates.deep, longer, i)
                                    == Self::refined_from(estimates.deep, trace, i));
                            }
                        }
                        assert forall|i: int| 0 <= i < longer.len() - 1 implies !Self::settled(
                            #[trigger] longer[i],
                        ) by {
                            assert(longer[i] == trace[i]);
                            if i == trace.len() - 1 {
                                assert(trace[i] == trace.last());
                            }
                        }
                        assert(longer.last() == refinement);
                        trace = longer;
                    }
                    l_new = refinement.wavelength;
                    rounds = rounds + 1;
                    done = refinement.change.abs().lt(Scalar::from_bits(WAVELENGTH_TOLERANCE_BITS));
                }
                assert(Self::is_refinement(estimates.deep, refine, trace));
                assert(Self::displays(estimates, refine, trace, l_new));
                l_new
            },
        }
    }

    /// The tooltip on the wave celerity in a regime.
    pub fn celerity_note(regime: WaterDepthRegime) -> (note: EquationNote<'static>)
        ensures
            (note.equation_id@, note.text_before@, note.text_after@) == Self::spec_celerity_note(
                regime,
            ),
    {
        match regime {
            WaterDepthRegime::Shallow => EquationNote {
                equation_id: "shallow_water_celerity",
                text_before: "Shallow water celerity:",
                text_after: "Independent of wave period. Applies when h/L < 1/20.",
            },
            WaterDepthRegime::Deep => EquationNote {
                equation_id: "deep_water_celerity",
                text_before: "Deep water celerity:",
                text_after: "Proportional to wave period (dispersive). Applies when h/L > 1/2.",
            },
            WaterDepthRegime::Intermediate => EquationNote {
                equation_id: "dispersion_relation",
                text_before: "Intermediate water celerity from full dispersion relation:",
                text_after: "Solved iteratively. Transitional between shallow and deep water behavior when 1/20 < h/L < 1/2.",
            },
        }
    }

    /// The tooltip on the wavelength in a regime.
    pub fn wavelength_note(regime: WaterDepthRegime) -> (note: EquationNote<'static>)
        ensures
            (note.equation_id@, note.text_before@, note.text_after@) == Self::spec_wavelength_note(
                regime,
            ),
    {
        match regime {
            WaterDepthRegime::Shallow => EquationNote {
                equation_id: "shallow_water_wavelength",
                text_before: "Shallow water wavelength:",
                text_after: "Independent of wave height, depends only on period and depth.",
            },
            WaterDepthRegime::Deep => EquationNote {
                equation_id: "deep_water_wavelength",
                text_before: "Deep water wavelength:",
                text_after: "Depends only on period, independent of depth.",
            },
            WaterDepthRegime::Intermediate => EquationNote {
                equation_id: "dispersion_relation",
                text_before: "Intermediate water wavelength from full dispersion relation:",
                text_after: "Solved iteratively for accurate results.",
            },
        }
    }
}

/// Whether `refine` has one result at each wavelength, as arithmetic has.
pub open spec fn is_function<F: Fn(Scalar) -> Refinement>(refine: F) -> bool {
    forall|l: Scalar, a: Refinement, b: Refinement|
        #[trigger] call_ensures(refine, (l,), a) && #[trigger] call_ensures(refine, (l,), b) ==> a
            == b
}

proof fn lemma_refinements_agree<F: Fn(Scalar) -> Refinement>(
    deep: Scalar,
    refine: F,
    first: Seq<Refinement>,
    second: Seq<Refinement>,
    i: int,
)
    requires
        is_function(refine),
        WaveChannelApp::is_refinement(deep, refine, first),
        WaveChannelApp::is_refinement(deep, refine, second),
        0 <= i < first.len(),
        i < second.len(),
    ensures
        first[i] == second[i],
    decreases i,
{
    if i > 0 {
        lemma_refinements_agree(deep, refine, first, second, i - 1);
    }
    assert(WaveChannelApp::refined_from(deep, first, i) == WaveChannelApp::refined_from(
        deep,
        second,
        i,
    ));
    assert(call_ensures(refine, (WaveChannelApp::refined_from(deep, first, i),), first[i]));
    assert(call_ensures(refine, (WaveChannelApp::refined_from(deep, second, i),), second[i]));
}

/// Where the refinement is a function of the wavelength, the displayed wavelength is a
/// function of the estimates: two runs that explain a display show the same.
pub proof fn lemma_display_is_determined<F: Fn(Scalar) -> Refinement>(
    estimates: WavelengthEstimates,
    refine: F,
    first: Seq<Refinement>,
    first_shown: Scalar,
    second: Seq<Refinement>,
    second_shown: Scalar,
)
    requires
        is_function(refine),
        WaveChannelApp::displays(estimates, refine, first, first_shown),
        WaveChannelApp::displays(estimates, refine, second, second_shown),
    ensures
        first_shown == second_shown,
{
    if WaterDepthRegime::spec_classify(estimates.depth_ratio) is Intermediate {
        let deep = estimates.deep;
        if first.len() < second.len() {
            lemma_refinements_agree(deep, refine, first, second, first.len() - 1);
            assert(!WaveChannelApp::settled(second[first.len() - 1]));
            assert(false);
        } else if second.len() < first.len() {
            lemma_refinements_agree(deep, refine, first, second, second.len() - 1);
            assert(!WaveChannelApp::settled(first[second.len() - 1]));
            assert(false);
        }
        lemma_refinements_agree(deep, refine, first, second, first.len() - 1);
    }
}

/// Toggling a tooltip twice leaves the set of open tooltips as it was.
pub proof fn lemma_toggle_twice(open: Set<Seq<char>>, tooltip_id: Seq<char>)
    ensures
        toggled(toggled(open, tooltip_id), tooltip_id) == open,
        toggled(open, tooltip_id).contains(tooltip_id) == !open.contains(tooltip_id),
{
    assert(toggled(toggled(open, tooltip_id), tooltip_id) =~= open);
}

/// The set of open tooltips after `tooltip_id` is toggled.
pub open spec fn toggled(open: Set<Seq<char>>, tooltip_id: Seq<char>) -> Set<Seq<char>> {
    if open.contains(tooltip_id) {
        open.remove(tooltip_id)
    } else {
        open.insert(tooltip_id)
    }
}

/// The defaults of the panel are 50, 2, 1/2 and 4, which double precision holds
/// exactly, and its tolerance is 1e-6 rounded to double precision.
pub proof fn lemma_defaults_are_decimal()
    ensures
        (Scalar { bits: DEFAULT_CHANNEL_LENGTH_BITS }).is_rounded(50, 1),
        (Scalar { bits: DEFAULT_STILL_WATER_LEVEL_BITS }).is_rounded(2, 1),
        (Scalar { bits: DEFAULT_WAVE_HEIGHT_BITS }).is_rounded(1, 2),
        (Scalar { bits: DEFAULT_WAVE_PERIOD_BITS }).is_rounded(4, 1),
        (Scalar { bits: WAVELENGTH_TOLERANCE_BITS }).is_rounded(1, 1_000_000),
{
    lemma2_to64();
    lemma2_to64_rest();
    lemma_pow2_adds(64, 8);
}

} // verus!
