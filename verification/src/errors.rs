use vstd::prelude::*;

verus! {

/// Why a queue operation failed.
///
/// `QueueNotFound`: the operation addressed a name absent from the registry;
/// the transport layer recovers it as a client error.
/// `LockFailure`: a synchronization primitive around the broker was left
/// poisoned by a prior panic; the embedding reports it as a server error. The
/// verified core never panics and so never produces it itself; it is part of
/// the error taxonomy for the embedding that serializes access to the broker.
#[derive(Clone, Copy, Debug, PartialEq, Eq, Structural)]
pub enum QueueError {
    QueueNotFound,
    LockFailure,
}

} // verus!
