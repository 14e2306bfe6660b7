//! The ways in which a session refuses a call.

use vstd::prelude::*;

verus! {

/// Why a session refused a call or gave up on what the engine handed back.
#[derive(Clone, Copy, Debug, PartialEq, Eq, Structural)]
pub enum Error {
    /// The engine could not be set up: it handed back nothing to work with.
    EngineInitFailed,
    /// The engine reported a failure while decoding, or handed back bytes
    /// that are not the records asked for.
    DecompressionFailed,
    /// A point record buffer does not have the session's point size.
    PointSizeMismatch,
    /// A point was submitted, or the end of the points was signalled, after
    /// the end of the points had already been signalled.
    AlreadyFinalized,
    /// The chunk table was asked for before the end of the points was
    /// signalled.
    NotFinalized,
}

} // verus!
