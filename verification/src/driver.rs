//! The simulation driver.
//!
//! The driver owns the time loop's state: the run's parameters, the step
//! counter, and the current chain.  Each turn of the loop writes the current
//! chain as the slice of the current time index, optionally reports
//! progress at the configured cadence, and replaces the chain with the next
//! one, advancing the counter.  The contracts pin the schedule down: time
//! indices start at zero, advance by exactly one, and cover `0 ..= n_steps`,
//! so slices reach the sink in strictly increasing time order and the run
//! terminates after the configured number of steps.

use vstd::prelude::*;

use crate::layout::flatten;
use crate::vec3::Vec3;

verus! {

/// The immutable configuration of one run, constructed once and shared by
/// every component.  The physical constants — gyromagnetic ratio, damping,
/// exchange stiffness, saturation constant, lattice spacing, external field
/// and time step — are carried as opaque 64-bit words for the arithmetic's
/// owner to interpret; the discrete dimensions are what the library itself
/// reads.
#[derive(Clone, Copy, PartialEq, Eq, Structural, Debug)]
pub struct SimulationParameters {
    /// Gyromagnetic ratio γ.
    pub gamma: u64,
    /// Damping constant α.
    pub alpha: u64,
    /// Exchange stiffness A_ex.
    pub a_ex: u64,
    /// Saturation-magnetization constant μ₀Mₛ.
    pub mu0_ms: u64,
    /// Lattice spacing D.
    pub spacing: u64,
    /// External field H_ext.
    pub h_ext: Vec3,
    /// Time step dt.
    pub dt: u64,
    /// Number of sites N of the chain.
    pub n_sites: usize,
    /// Number of integration steps T; slices are written for `0 ..= T`.
    pub n_steps: u64,
    /// Progress is reported at every step whose index is a multiple of
    /// this cadence.
    pub report_every: u64,
}

impl SimulationParameters {
    /// The run's dimensions make sense: a nonempty chain whose flattened
    /// slice fits in memory, a step count that leaves room for the final
    /// slice index, and a positive reporting cadence.
    pub open spec fn wf(self) -> bool {
        &&& self.n_sites >= 1
        &&& self.n_sites * 3 <= usize::MAX
        &&& self.n_steps < u64::MAX
        &&& self.report_every >= 1
    }
}

/// The state of the time loop: the configuration, the index of the slice
/// written next, and the chain as of that time.
pub struct SimulationDriver {
    pub params: SimulationParameters,
    pub step: u64,
    pub chain: Vec<Vec3>,
}

impl SimulationDriver {
    /// The driver is well formed: valid parameters, a chain of the declared
    /// length, and a step counter within the run.
    pub open spec fn wf(self) -> bool {
        &&& self.params.wf()
        &&& self.chain@.len() == self.params.n_sites
        &&& self.step <= self.params.n_steps + 1
    }

    /// Starts a run at time index zero from the initial configuration.
    pub fn new(params: SimulationParameters, initial: Vec<Vec3>) -> (d: SimulationDriver)
        requires
            params.wf(),
            initial@.len() == params.n_sites,
        ensures
            d.wf(),
            d.params == params,
            d.step == 0,
            d.chain@ == initial@,
    {
        SimulationDriver { params, step: 0, chain: initial }
    }

    /// The time index of the slice the driver writes next.
    pub fn time_index(&self) -> (t: u64)
        ensures
            t == self.step,
    {
        self.step
    }

    /// The run is over: every slice of `0 ..= n_steps` has been written.
    pub fn finished(&self) -> (r: bool)
        ensures
            r <==> self.step > self.params.n_steps,
    {
        self.step > self.params.n_steps
    }

    /// Whether the current step is on the reporting cadence.
    pub fn should_report(&self) -> (r: bool)
        requires
            self.params.wf(),
        ensures
            r <==> self.step % self.params.report_every == 0,
    {
        self.step % self.params.report_every == 0
    }

    /// The current chain flattened into the slice written at the current
    /// time index: site-major, components interleaved in x, y, z order.
    pub fn slice(&self) -> (r: Vec<u64>)
        requires
            self.wf(),
        ensures
            r@.len() == 3 * self.chain@.len(),
            forall|i: int|
                0 <= i < self.chain@.len() ==> r@[3 * i] == (#[trigger] self.chain@[i]).x && r@[3
                    * i + 1] == self.chain@[i].y && r@[3 * i + 2] == self.chain@[i].z,
    {
        flatten(&self.chain)
    }

    /// Replaces the chain with the next step's result and advances the time
    /// index by exactly one, so successive slices carry strictly increasing
    /// indices and the run ends once index `n_steps` has been written.
    pub fn advance(&mut self, next: Vec<Vec3>)
        requires
            old(self).wf(),
            old(self).step <= old(self).params.n_steps,
            next@.len() == old(self).params.n_sites,
        ensures
            final(self).wf(),
            final(self).params == old(self).params,
            final(self).step == old(self).step + 1,
            final(self).chain@ == next@,
    {
        self.chain = next;
        self.step = self.step + 1;
    }
}

} // verus!
