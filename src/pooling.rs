//! Post-processing choices carried from the descriptor to the runtime handle.
use vstd::prelude::*;

verus! {

/// How per-token embeddings are collapsed into one vector.
#[derive(Debug, Clone, Copy, PartialEq, Eq, Structural)]
pub enum Pooling {
    Cls,
    Mean,
    LastToken,
}

/// The numeric precision scheme of the model's weights or outputs.
#[derive(Debug, Clone, Copy, PartialEq, Eq, Structural)]
pub enum QuantizationMode {
    /// Weights and outputs are used as stored.
    Unquantized,
    Static,
    Dynamic,
}

/// Which output tensor to read from a graph with several outputs.
#[derive(Debug, Clone, Copy, PartialEq, Eq)]
pub enum OutputKey {
    OnlyOne,
    ByOrder(usize),
    ByName(&'static str),
}

} // verus!
