//! The ways in which an operation of the bridge fails.

use vstd::prelude::*;
use crate::kind::ValueKind;

verus! {

/// The side of a signature.
#[derive(Clone, Copy, Debug, PartialEq, Eq, Structural)]
pub enum Side {
    /// The parameters.
    Parameter,
    /// The results.
    Result,
}

/// Why an operation of the bridge failed.
#[derive(Debug, PartialEq, Eq)]
pub enum BridgeError {
    /// The bytes are no module that the engine can compile. Holds the
    /// engine's description.
    Compilation(String),
    /// The module could not be bound into the store. Holds the engine's
    /// description.
    Instantiation(String),
    /// The module imports something that the linker does not define. Holds
    /// the engine's description, which names the import.
    UnresolvedImport(String),
    /// The argument at this position is missing or is no number.
    ArgumentType {
        /// The position of the argument, from zero.
        position: usize,
    },
    /// The signature holds a kind that the bridge does not convert.
    UnsupportedType {
        /// The kind.
        kind: ValueKind,
        /// Whether it is the kind of a parameter or of a result.
        side: Side,
        /// Its position on that side, from zero.
        position: usize,
    },
    /// The callee trapped or the engine could not run it. Holds the engine's
    /// description.
    Invocation(String),
    /// The callee returns more than one value.
    MultiResultUnsupported,
}

} // verus!
