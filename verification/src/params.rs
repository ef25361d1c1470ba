//! The flat parameter layout shared by the posterior, its gradient and the
//! momentum vector: index 0 holds the first-layer bias, indices 1..=M the
//! first-layer weights, and index M+1 the second-layer weight, for a total
//! dimension of D = M + 2.
use vstd::prelude::*;

verus! {

/// The flat layout of a parameter (or gradient) vector: the bias first,
/// then the M first-layer weights, then the second-layer weight.
pub open spec fn flat_layout<T>(b1: T, w1: Seq<T>, w2: T) -> Seq<T> {
    seq![b1] + w1 + seq![w2]
}

/// Flatten the structured parameters (b1, w1, w2) into the layout that the
/// sampler integrates over.  The same function assembles gradient vectors,
/// so both sides of the layout contract coincide by construction.
pub fn flatten_params<T: Copy>(b1: T, w1: &Vec<T>, w2: T) -> (theta: Vec<T>)
    ensures
        theta@ == flat_layout(b1, w1@, w2),
        theta@.len() == w1@.len() + 2,
{
    let mut theta: Vec<T> = Vec::new();
    theta.push(b1);
    let mut j: usize = 0;
    while j < w1.len()
        invariant
            j <= w1@.len(),
            theta@.len() == j + 1,
            theta@[0] == b1,
            forall|k: int| 0 <= k < j ==> theta@[k + 1] == w1@[k],
        decreases w1@.len() - j,
    {
        theta.push(w1[j]);
        j += 1;
    }
    theta.push(w2);
    proof {
        assert(theta@ =~= flat_layout(b1, w1@, w2));
    }
    theta
}

/// Split a flat vector back into (b1, w1, w2).  Inverse of `flatten_params`
/// on every vector of dimension at least 2.
pub fn split_params<T: Copy>(theta: &Vec<T>) -> (parts: (T, Vec<T>, T))
    requires
        theta@.len() >= 2,
    ensures
        parts.0 == theta@[0],
        parts.1@ == theta@.subrange(1, theta@.len() - 1),
        parts.2 == theta@[theta@.len() - 1],
        theta@ == flat_layout(parts.0, parts.1@, parts.2),
{
    let b1 = theta[0];
    let last = theta.len() - 1;
    let mut w1: Vec<T> = Vec::new();
    let mut j: usize = 1;
    while j < last
        invariant
            1 <= j <= last,
            last == theta@.len() - 1,
            theta@.len() >= 2,
            w1@.len() == j - 1,
            forall|k: int| 0 <= k < j - 1 ==> w1@[k] == theta@[k + 1],
        decreases last - j,
    {
        w1.push(theta[j]);
        j += 1;
    }
    let w2 = theta[last];
    proof {
        assert(w1@ =~= theta@.subrange(1, theta@.len() - 1));
        assert(theta@ =~= flat_layout(b1, w1@, w2));
    }
    (b1, w1, w2)
}

/// Layout law: in `flat_layout(b1, w1, w2)` the bias sits at index 0, the
/// j-th first-layer weight at index j + 1, and the second-layer weight at
/// index M + 1.  Gradient vectors are assembled by the same function, so
/// their indices follow the same layout.
pub proof fn lemma_flat_layout<T>(b1: T, w1: Seq<T>, w2: T)
    ensures
        flat_layout(b1, w1, w2).len() == w1.len() + 2,
        flat_layout(b1, w1, w2)[0] == b1,
        forall|j: int| 0 <= j < w1.len() ==> flat_layout(b1, w1, w2)[j + 1] == w1[j],
        flat_layout(b1, w1, w2)[w1.len() as int + 1] == w2,
{
}

/// Round-trip law: splitting a flattened vector recovers exactly the
/// structured parameters it was built from.
pub proof fn lemma_layout_round_trip<T>(b1: T, w1: Seq<T>, w2: T)
    ensures
        flat_layout(b1, w1, w2)[0] == b1,
        flat_layout(b1, w1, w2).subrange(1, flat_layout(b1, w1, w2).len() - 1) == w1,
        flat_layout(b1, w1, w2)[flat_layout(b1, w1, w2).len() - 1] == w2,
{
    assert(flat_layout(b1, w1, w2).subrange(1, flat_layout(b1, w1, w2).len() - 1) =~= w1);
}

} // verus!
