//! Why an outline could not be built.

use vstd::prelude::*;

verus! {

/// The ways in which building an outline fails. No outline is built in
/// any of them.
#[derive(Clone, Copy, Debug, PartialEq, Eq, Structural)]
pub enum PathError {
    /// The document holds no path element with path data.
    MissingPathData,
    /// The path data is not well-formed: a command letter or a numeric
    /// token could not be read.
    Syntax,
    /// The command at this position has a number of parameters that its
    /// letter does not admit.
    ParameterCount { command: usize },
    /// The commands draw nothing: no segment comes out of them.
    NoSegments,
}

} // verus!
