use vstd::prelude::*;

use crate::errors::EngineError;

verus! {

/// The structural part of one rotation key: an identity matrix of the
/// series' dimension whose four entries at the two distinct axes `a` and `b`
/// are overwritten with a planar rotation of some angle. The two axes being
/// distinct and in range is what makes the key invertible by construction,
/// whatever the angle; the angle itself is numeric data that the caller
/// attaches when it realizes the key as a concrete matrix.
#[derive(Clone, Copy, Debug, PartialEq, Eq, Structural)]
pub struct KeyPlan {
    /// First rotation axis.
    pub a: usize,
    /// Second rotation axis, always distinct from `a`.
    pub b: usize,
}

impl KeyPlan {
    /// Both axes lie inside a `dim`-dimensional key and are distinct.
    pub open spec fn wf(self, dim: nat) -> bool {
        &&& self.a < dim
        &&& self.b < dim
        &&& self.a != self.b
    }
}

/// An ordered series of rotation-key plans, all of one dimension.
/// The chain applies plan `i` at step `i`; the fully composed transform is
/// the left fold `keys[n-1] * ... * keys[1] * keys[0]`.
pub struct KeySeries {
    /// The dimension every key of the series rotates in.
    pub dim: usize,
    /// The plans, in application order.
    pub plans: Vec<KeyPlan>,
}

impl KeySeries {
    /// A series is well formed when its dimension admits a planar rotation
    /// (at least two axes) and every plan's axes fit that dimension.
    pub open spec fn wf(self) -> bool {
        &&& self.dim >= 2
        &&& forall|i: int|
            0 <= i < self.plans@.len() ==> (#[trigger] self.plans@[i]).wf(self.dim as nat)
    }

    /// How many keys the series holds.
    pub open spec fn spec_len(self) -> nat {
        self.plans@.len()
    }

    /// How many keys the series holds.
    pub fn len(&self) -> (n: usize)
        ensures
            n == self.spec_len(),
    {
        self.plans.len()
    }
}

/// Relies on `rand::random_range`: a value drawn uniformly from the given
/// range, from the thread-local generator. It panics on an empty range,
/// which `dim > 0` rules out.
#[verifier::external_body]
fn random_axis(dim: usize) -> (r: usize)
    requires
        dim > 0,
    ensures
        r < dim,
{
    rand::random_range(0..dim)
}

/// Draws one key plan: axis `a` uniformly from the `dim` axes, and axis `b`
/// uniformly from the remaining `dim - 1`, so that the two always differ.
fn random_plan(dim: usize) -> (p: KeyPlan)
    requires
        dim >= 2,
    ensures
        p.wf(dim as nat),
{
    let a = random_axis(dim);
    let r = random_axis(dim - 1);
    let b = if r >= a {
        r + 1
    } else {
        r
    };
    KeyPlan { a, b }
}

/// Generates an ordered series of `count` randomly drawn rotation-key plans
/// of dimension `dim`. A dimension below two admits no planar rotation and
/// is rejected with `InvalidDimension`.
pub fn generate(dim: usize, count: usize) -> (r: Result<KeySeries, EngineError>)
    ensures
        dim >= 2 ==> (r matches Ok(s) && s.wf() && s.dim == dim && s.spec_len() == count),
        dim < 2 ==> (r matches Err(e) && e is InvalidDimension),
{
    if dim < 2 {
        return Err(EngineError::InvalidDimension);
    }
    let mut plans: Vec<KeyPlan> = Vec::new();
    let mut k: usize = 0;
    while k < count
        invariant
            2 <= dim,
            k <= count,
            plans@.len() == k,
            forall|i: int| 0 <= i < k ==> (#[trigger] plans@[i]).wf(dim as nat),
        decreases count - k,
    {
        let p = random_plan(dim);
        plans.push(p);
        k = k + 1;
    }
    Ok(KeySeries { dim, plans })
}

} // verus!
