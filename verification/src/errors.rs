use vstd::prelude::*;

verus! {

/// The failures that the engine's fallible operations can surface.
#[derive(Clone, Copy, Debug, PartialEq, Eq, Structural)]
pub enum EngineError {
    /// Key generation was requested for a dimension below two.
    InvalidDimension,
    /// A key series' dimension does not match the plaintext's row count.
    ShapeMismatch,
    /// A key failed to invert numerically during a backward step.
    NumericalInversionError,
}

} // verus!
