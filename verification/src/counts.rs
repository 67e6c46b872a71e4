//! The counts of a session, and the gauges that show them.

use vstd::prelude::*;

verus! {

/// How many paths a finishing workflow counted: in the snapshot that it
/// began with, in the store as listed, and among the listed ones those that
/// are new.
pub struct Counts {
    pub num_original_paths: nat,
    pub num_final_paths: nat,
    pub num_new_paths: nat,
}

/// A count that is reported for observation.
#[derive(Clone, Copy, Debug, PartialEq, Eq, Hash, Structural)]
pub enum Gauge {
    NumOriginalPaths,
    NumFinalPaths,
    NumNewPaths,
}

} // verus!
