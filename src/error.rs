use vstd::prelude::*;

verus! {

/// What can go wrong in this library.
#[derive(Clone, Copy, Debug, PartialEq, Eq, Structural)]
pub enum Error {
    StlWriteFailed,
    StepReadFailed,
    IgesReadFailed,
    StepWriteFailed,
    IgesWriteFailed,
    TriangulationFailed,
    UntriangulatedFace,
    /// A wire needs at least one edge, so at least two points.
    NotEnoughPoints,
    /// A sketch with no edge has no first point to close onto.
    NothingToClose,
    /// Three points on one line, or coincident ones, determine no arc.
    CollinearArc,
    /// An edge does not start where the one before it ends.
    DisconnectedEdges,
}

} // verus!
