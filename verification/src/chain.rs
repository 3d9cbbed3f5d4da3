use vstd::prelude::*;

use crate::errors::EngineError;
use crate::keys::KeySeries;

verus! {

/// What a step asks of the owner of the numeric matrices. The chain itself
/// tracks only the step index; the caller holds the realized key matrices
/// and the current matrix, and performs the one multiplication each action
/// names before rendering the result.
#[derive(Clone, Copy, Debug, PartialEq, Eq, Structural)]
pub enum StepAction {
    /// The step was taken at a boundary: nothing changed.
    Stay,
    /// Multiply the current matrix from the left by key `key`.
    Apply { key: usize },
    /// Multiply the current matrix from the left by the inverse of key `key`.
    ApplyInverse { key: usize },
}

/// The stepping state machine that walks a plaintext matrix through the key
/// series toward the fully composed end state and back. Its invariant is
/// that the current matrix always equals the composition
/// `keys[index-1] * ... * keys[0]` applied to the plaintext, which is why
/// the whole state is determined by `index` alone: the chain emits which key
/// to apply or invert, and `word()` names the composition it has asked for.
pub struct TransformChain {
    /// Row count of the plaintext, equal to the key dimension.
    pub rows: usize,
    /// Column count of the plaintext.
    pub cols: usize,
    /// The ordered rotation-key series.
    pub series: KeySeries,
    /// How many keys are currently applied; ranges over `0 ..= series len`.
    pub index: usize,
}

/// One request made of the chain: a forward or a backward step.
#[derive(Clone, Copy, Debug, PartialEq, Eq, Structural)]
pub enum StepOp {
    Forward,
    Backward,
}

impl TransformChain {
    pub open spec fn wf(self) -> bool {
        &&& self.series.wf()
        &&& self.series.dim == self.rows
        &&& self.index <= self.series.spec_len()
    }

    /// The indices of the keys currently applied to the plaintext, in
    /// application order: always exactly `0, 1, ..., index - 1`.
    pub open spec fn word(self) -> Seq<int> {
        Seq::new(self.index as nat, |i: int| i)
    }

    /// The same chain at another step index.
    pub open spec fn with_index(self, i: usize) -> TransformChain {
        TransformChain { index: i, ..self }
    }

    /// Builds a chain at the start state from the plaintext shape and a key
    /// series. A series whose dimension differs from the plaintext's row
    /// count cannot be applied to it and is rejected with `ShapeMismatch`.
    pub fn new(rows: usize, cols: usize, series: KeySeries) -> (r: Result<TransformChain, EngineError>)
        requires
            series.wf(),
        ensures
            series.dim == rows ==> (r matches Ok(c) && c == (TransformChain {
                rows,
                cols,
                series,
                index: 0,
            }) && c.wf()),
            series.dim != rows ==> (r matches Err(e) && e is ShapeMismatch),
    {
        if series.dim != rows {
            return Err(EngineError::ShapeMismatch);
        }
        Ok(TransformChain { rows, cols, series, index: 0 })
    }

    /// One forward step, a no-op at the end boundary.
    pub fn step_forward(&mut self) -> (a: StepAction)
        requires
            old(self).wf(),
        ensures
            final(self).wf(),
            (*final(self), a) == spec_step_forward(*old(self)),
            old(self).index < old(self).series.spec_len() ==> (a == (StepAction::Apply {
                key: old(self).index,
            }) && final(self).index == old(self).index + 1 && final(self).word() == old(
                self,
            ).word().push(old(self).index as int)),
            old(self).index == old(self).series.spec_len() ==> (*final(self) == *old(self)
                && a is Stay),
    {
        if self.index < self.series.len() {
            let k = self.index;
            self.index = self.index + 1;
            proof {
                assert(self.word() =~= old(self).word().push(old(self).index as int));
            }
            StepAction::Apply { key: k }
        } else {
            StepAction::Stay
        }
    }

    /// One backward step, a no-op at the start boundary. The action names
    /// the key whose inverse undoes the most recent forward step; the caller
    /// inverts it by general matrix inversion, which may fail numerically —
    /// on such a failure the caller leaves its matrix alone and calls
    /// `step_forward` once to move the index back in line with it.
    pub fn step_backward(&mut self) -> (a: StepAction)
        requires
            old(self).wf(),
        ensures
            final(self).wf(),
            (*final(self), a) == spec_step_backward(*old(self)),
            old(self).index > 0 ==> (a == (StepAction::ApplyInverse {
                key: (old(self).index - 1) as usize,
            }) && final(self).index == old(self).index - 1 && final(self).word() == old(
                self,
            ).word().drop_last()),
            old(self).index == 0 ==> (*final(self) == *old(self) && a is Stay),
    {
        if self.index > 0 {
            self.index = self.index - 1;
            proof {
                assert(self.word() =~= old(self).word().drop_last());
            }
            StepAction::ApplyInverse { key: self.index }
        } else {
            StepAction::Stay
        }
    }

    /// Back to the start state: the caller reloads the plaintext snapshot.
    pub fn reset(&mut self)
        requires
            old(self).wf(),
        ensures
            final(self).wf(),
            *final(self) == old(self).with_index(0),
            final(self).word() == Seq::<int>::empty(),
    {
        self.index = 0;
        proof {
            assert(self.word() =~= Seq::<int>::empty());
        }
    }

    /// To the end state: the caller loads the precomputed ciphertext.
    pub fn goto_end(&mut self)
        requires
            old(self).wf(),
        ensures
            final(self).wf(),
            final(self).index == old(self).series.spec_len(),
            *final(self) == old(self).with_index(final(self).index),
    {
        self.index = self.series.len();
    }
}

/// The forward transition: below the end boundary it applies the key at the
/// current index and advances; at the boundary it changes nothing.
pub open spec fn spec_step_forward(c: TransformChain) -> (TransformChain, StepAction) {
    if c.index < c.series.spec_len() {
        (c.with_index((c.index + 1) as usize), StepAction::Apply { key: c.index })
    } else {
        (c, StepAction::Stay)
    }
}

/// The backward transition: above the start boundary it retreats and asks
/// for the inverse of the key it had applied last; at the boundary it
/// changes nothing.
pub open spec fn spec_step_backward(c: TransformChain) -> (TransformChain, StepAction) {
    if c.index > 0 {
        (
            c.with_index((c.index - 1) as usize),
            StepAction::ApplyInverse { key: (c.index - 1) as usize },
        )
    } else {
        (c, StepAction::Stay)
    }
}

/// The state after one forward or backward step.
pub open spec fn apply_op(c: TransformChain, op: StepOp) -> TransformChain {
    match op {
        StepOp::Forward => spec_step_forward(c).0,
        StepOp::Backward => spec_step_backward(c).0,
    }
}

/// The state after a whole interleaving of forward and backward steps.
pub open spec fn apply_ops(c: TransformChain, ops: Seq<StepOp>) -> TransformChain
    decreases ops.len(),
{
    if ops.len() == 0 {
        c
    } else {
        apply_ops(apply_op(c, ops[0]), ops.subrange(1, ops.len() as int))
    }
}

/// `n` forward steps in a row.
pub open spec fn forward_ops(n: nat) -> Seq<StepOp> {
    Seq::new(n, |i: int| StepOp::Forward)
}

/// Stepping, in whatever interleaving, only moves the index: the shape and
/// the key series are untouched, and well-formedness is preserved.
pub proof fn lemma_ops_only_move_index(c: TransformChain, ops: Seq<StepOp>)
    requires
        c.wf(),
    ensures
        apply_ops(c, ops).wf(),
        apply_ops(c, ops) == c.with_index(apply_ops(c, ops).index),
    decreases ops.len(),
{
    if ops.len() > 0 {
        let c1 = apply_op(c, ops[0]);
        assert(c1.wf());
        lemma_ops_only_move_index(c1, ops.subrange(1, ops.len() as int));
    }
}

/// The round-trip law, one level up: any two interleavings of forward and
/// backward steps from one starting chain that end at the same index end in
/// the same state altogether, and so have asked for the same composition —
/// returning the index to a prior value returns the chain to the state
/// observed there.
pub proof fn lemma_return_to_index(c: TransformChain, ops1: Seq<StepOp>, ops2: Seq<StepOp>)
    requires
        c.wf(),
        apply_ops(c, ops1).index == apply_ops(c, ops2).index,
    ensures
        apply_ops(c, ops1) == apply_ops(c, ops2),
{
    lemma_ops_only_move_index(c, ops1);
    lemma_ops_only_move_index(c, ops2);
}

/// The round-trip law at one step: below the end boundary, a forward step
/// followed by a backward step restores the chain exactly, and the backward
/// action asks for the inverse of precisely the key the forward action
/// applied.
pub proof fn lemma_round_trip(c: TransformChain)
    requires
        c.wf(),
        c.index < c.series.spec_len(),
    ensures
        spec_step_backward(spec_step_forward(c).0).0 == c,
        spec_step_forward(c).1 == (StepAction::Apply { key: c.index }),
        spec_step_backward(spec_step_forward(c).0).1 == (StepAction::ApplyInverse {
            key: c.index,
        }),
{
    assert(c.series.plans.len() == c.series.plans@.len());
    assert(c.index + 1 <= usize::MAX);
}

/// The round-trip law in the other order: above the start boundary, a
/// backward step followed by a forward step restores the chain exactly, and
/// the forward action reapplies precisely the key the backward action had
/// undone.
pub proof fn lemma_round_trip_reverse(c: TransformChain)
    requires
        c.wf(),
        c.index > 0,
    ensures
        spec_step_forward(spec_step_backward(c).0).0 == c,
        spec_step_backward(c).1 == (StepAction::ApplyInverse { key: (c.index - 1) as usize }),
        spec_step_forward(spec_step_backward(c).0).1 == (StepAction::Apply {
            key: (c.index - 1) as usize,
        }),
{
}

/// Forward steps advance the index one key at a time while keys remain.
pub proof fn lemma_forward_run(c: TransformChain, n: nat)
    requires
        c.wf(),
        c.index + n <= c.series.spec_len(),
    ensures
        apply_ops(c, forward_ops(n)).index == c.index + n,
    decreases n,
{
    if n > 0 {
        assert(c.series.plans.len() == c.series.plans@.len());
        let c1 = apply_op(c, forward_ops(n)[0]);
        assert(c1.index == c.index + 1);
        assert(forward_ops(n).subrange(1, n as int) =~= forward_ops((n - 1) as nat));
        lemma_forward_run(c1, (n - 1) as nat);
    }
}

/// Stepping forward exactly once per key from the start state reaches the
/// end state: the index stands at the key count and the composition word is
/// `0, 1, ..., n-1` — every key applied exactly once, in series order, the
/// same left fold that defines the eagerly computed ciphertext.
pub proof fn lemma_full_forward_run(c: TransformChain)
    requires
        c.wf(),
        c.index == 0,
    ensures
        apply_ops(c, forward_ops(c.series.spec_len())).index == c.series.spec_len(),
        apply_ops(c, forward_ops(c.series.spec_len())).word() == Seq::new(
            c.series.spec_len(),
            |i: int| i,
        ),
{
    lemma_forward_run(c, c.series.spec_len());
}

} // verus!
