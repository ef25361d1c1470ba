//! Core of a Bayesian two-layer regression model over blocks of genetic
//! markers, sampled by Hamiltonian Monte Carlo.
//!
//! The verified core covers the memory-compact genotype matrix, the flat
//! parameter layout shared by the energy and its gradient, the per-group
//! model state, and the decision kernel of the repeat-until-accept HMC
//! sampler.  Floating-point arithmetic (the energy, its gradient and the
//! leapfrog updates) is carried out by the unverified driver around this
//! crate, which feeds its results back to the kernel as events.
use vstd::prelude::*;

pub mod genotype;
pub mod model;
pub mod params;
pub mod sampler;

verus! {

/// A network of marker groups.  Each group is trained independently by its
/// own sampler, so the network itself carries no shared state.
pub struct Net {}

} // verus!
