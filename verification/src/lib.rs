//! Structural core of a Landau-Lifshitz-Gilbert chain integrator.
//!
//! The library holds everything about the integrator that is discrete and
//! decidable: the free-boundary exchange stencil, the Runge-Kutta stage
//! schedule and step plan, the layout of the persisted time series, and the
//! driver's step/report schedule.  Component values of a moment are carried
//! as opaque 64-bit words; the caller owns their numeric interpretation.

pub mod driver;
pub mod layout;
pub mod rk4;
pub mod stage;
pub mod stencil;
pub mod vec3;

