//! The unified error surface of this crate.

use vstd::prelude::*;

verus! {

/// Everything that can go wrong in this crate, as one flat kind space.
/// Failures of the outside object parser are wrapped into [`Error::Format`]
/// rather than leaked verbatim.
#[derive(Clone, Copy, Debug, PartialEq, Eq, Structural)]
pub enum Error {
    /// The input buffer matches no recognized container magic, or the
    /// matched format's structural metadata is too corrupt to parse at all.
    Format,
    /// An architecture string does not match any known tag.
    UnrecognizedArchitecture,
}

} // verus!
