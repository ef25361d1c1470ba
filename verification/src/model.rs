//! Per-group model state: the residual this group targets, its structured
//! parameters (b1, w1, w2), the four precision hyperparameters, and the
//! bound genotype matrix.  The scalar type is left generic; the driver
//! around the crate instantiates it with its floating-point type and
//! carries out the arithmetic of the energy and its gradient, reading the
//! state through the verified accessors.
use vstd::prelude::*;

use crate::genotype::GenotypeMatrix;
use crate::params::flat_layout;
use crate::params::flatten_params;
use crate::params::split_params;

verus! {

/// One group of markers with its own parameters, precisions and sampler
/// inputs.
pub struct MarkerGroup<T> {
    /// r: the partial residual this group targets, one entry per individual.
    pub residual: Vec<T>,
    /// w1: the first-layer weights, one per marker.
    pub w1: Vec<T>,
    /// b1: the first-layer bias.
    pub b1: T,
    /// w2: the second-layer weight.
    pub w2: T,
    /// Precision of the prior on w1.
    pub lambda_w1: T,
    /// Precision of the prior on b1.
    pub lambda_b1: T,
    /// Precision of the prior on w2.
    pub lambda_w2: T,
    /// Precision of the noise.
    pub lambda_e: T,
    /// M: the number of markers in this group.
    pub dim: usize,
    /// The bound genotype matrix, if loaded.
    pub marker_data: Option<GenotypeMatrix>,
}

impl<T> MarkerGroup<T> {
    /// Well-formed: the weight vector has one entry per marker, and a bound
    /// genotype matrix matches the group's shape.
    pub open spec fn wf(self) -> bool {
        &&& self.w1@.len() == self.dim
        &&& match self.marker_data {
            Some(m) => m.wf() && m.n_cols == self.dim && m.n_rows == self.residual@.len(),
            None => true,
        }
    }

    /// The flat parameter vector this state denotes: (b1, w1, w2).
    pub open spec fn theta(self) -> Seq<T> {
        flat_layout(self.b1, self.w1@, self.w2)
    }
}

impl<T: Copy> MarkerGroup<T> {
    /// Construct a group over `dim` markers.  All four precisions start at
    /// `default_precision` (the callers' unit precision); no genotype data
    /// is bound yet.
    pub fn new(
        residual: Vec<T>,
        w1: Vec<T>,
        b1: T,
        w2: T,
        dim: usize,
        default_precision: T,
    ) -> (g: MarkerGroup<T>)
        requires
            w1@.len() == dim,
        ensures
            g.wf(),
            g.residual == residual,
            g.w1 == w1,
            g.b1 == b1,
            g.w2 == w2,
            g.lambda_w1 == default_precision,
            g.lambda_b1 == default_precision,
            g.lambda_w2 == default_precision,
            g.lambda_e == default_precision,
            g.dim == dim,
            g.marker_data is None,
    {
        MarkerGroup {
            residual,
            w1,
            b1,
            w2,
            lambda_w1: default_precision,
            lambda_b1: default_precision,
            lambda_w2: default_precision,
            lambda_e: default_precision,
            dim,
            marker_data: None,
        }
    }

    /// Overwrite the four precision hyperparameters.  Positivity is a
    /// property of the scalar type and is checked by the caller before the
    /// call; everything else is left unchanged.
    pub fn set_precisions(&mut self, lambda_w1: T, lambda_b1: T, lambda_w2: T, lambda_e: T)
        ensures
            final(self).lambda_w1 == lambda_w1,
            final(self).lambda_b1 == lambda_b1,
            final(self).lambda_w2 == lambda_w2,
            final(self).lambda_e == lambda_e,
            final(self).residual == old(self).residual,
            final(self).w1 == old(self).w1,
            final(self).b1 == old(self).b1,
            final(self).w2 == old(self).w2,
            final(self).dim == old(self).dim,
            final(self).marker_data == old(self).marker_data,
            old(self).wf() ==> final(self).wf(),
    {
        self.lambda_w1 = lambda_w1;
        self.lambda_b1 = lambda_b1;
        self.lambda_w2 = lambda_w2;
        self.lambda_e = lambda_e;
    }

    /// Bind the genotype matrix for this group.  The driver loads and packs
    /// the data; the shape must match the group.
    pub fn load_marker_data(&mut self, data: GenotypeMatrix)
        requires
            data.wf(),
            data.n_cols == old(self).dim,
            data.n_rows == old(self).residual@.len(),
        ensures
            final(self).marker_data == Some(data),
            final(self).residual == old(self).residual,
            final(self).w1 == old(self).w1,
            final(self).b1 == old(self).b1,
            final(self).w2 == old(self).w2,
            final(self).lambda_w1 == old(self).lambda_w1,
            final(self).lambda_b1 == old(self).lambda_b1,
            final(self).lambda_w2 == old(self).lambda_w2,
            final(self).lambda_e == old(self).lambda_e,
            final(self).dim == old(self).dim,
            old(self).wf() ==> final(self).wf(),
    {
        self.marker_data = Some(data);
    }

    /// Drop the genotype matrix to free memory between phases.
    pub fn forget_marker_data(&mut self)
        ensures
            final(self).marker_data is None,
            final(self).residual == old(self).residual,
            final(self).w1 == old(self).w1,
            final(self).b1 == old(self).b1,
            final(self).w2 == old(self).w2,
            final(self).lambda_w1 == old(self).lambda_w1,
            final(self).lambda_b1 == old(self).lambda_b1,
            final(self).lambda_w2 == old(self).lambda_w2,
            final(self).lambda_e == old(self).lambda_e,
            final(self).dim == old(self).dim,
            old(self).wf() ==> final(self).wf(),
    {
        self.marker_data = None;
    }

    /// Whether genotype data is bound.  The energy and its gradient may only
    /// be evaluated while this holds.
    pub fn has_marker_data(&self) -> (r: bool)
        ensures
            r == (self.marker_data is Some),
    {
        self.marker_data.is_some()
    }

    /// The current flat parameter vector theta = (b1, w1, w2), of dimension
    /// M + 2.
    pub fn param_vec(&self) -> (theta: Vec<T>)
        requires
            self.wf(),
        ensures
            theta@ == self.theta(),
            theta@.len() == self.dim + 2,
    {
        flatten_params(self.b1, &self.w1, self.w2)
    }

    /// Write an accepted flat parameter vector back into the structured
    /// state, following the shared layout: index 0 is b1, indices 1..=M are
    /// w1, index M + 1 is w2.
    pub fn set_params(&mut self, theta: &Vec<T>)
        requires
            old(self).wf(),
            theta@.len() == old(self).dim + 2,
        ensures
            final(self).wf(),
            final(self).b1 == theta@[0],
            final(self).w1@ == theta@.subrange(1, theta@.len() - 1),
            final(self).w2 == theta@[theta@.len() - 1],
            final(self).theta() == theta@,
            final(self).residual == old(self).residual,
            final(self).lambda_w1 == old(self).lambda_w1,
            final(self).lambda_b1 == old(self).lambda_b1,
            final(self).lambda_w2 == old(self).lambda_w2,
            final(self).lambda_e == old(self).lambda_e,
            final(self).dim == old(self).dim,
            final(self).marker_data == old(self).marker_data,
    {
        let (b1, w1, w2) = split_params(theta);
        self.b1 = b1;
        self.w1 = w1;
        self.w2 = w2;
    }
}

} // verus!
