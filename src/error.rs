use vstd::prelude::*;

verus! {

/// The kinds of failure that a cache operation reports.
#[derive(Clone, Copy, Debug, PartialEq, Eq, Structural)]
pub enum CacheError {
    /// The address is malformed, or the server could not be reached.
    Connection,
    /// The server answered a command with an error reply.
    Protocol,
    /// The reply does not have the shape that the operation expects.
    Decode,
    /// The key, or the field of a hash, holds no value.
    NotFound,
}

} // verus!
