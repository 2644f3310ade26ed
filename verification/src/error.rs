use vstd::prelude::*;

verus! {

/// The single error kind of the dispatch layer.
///
/// Whatever the transport-level cause, a rejected send or notify surfaces
/// here as this one uniform condition; callers needing finer diagnosis must
/// consult the transport directly.
#[derive(Clone, Copy, Debug, PartialEq, Eq, Structural)]
pub enum Error {
    /// The transport could not accept the outbound message.
    RequestFailed,
}

} // verus!
