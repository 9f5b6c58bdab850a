//! The closed error taxonomy carried by every fallible operation of the
//! interface. Callers branch on the kind, never on the message text, which is
//! for diagnostics only.

use vstd::prelude::*;

verus! {

/// Error taxonomy for database operations.
///
/// Every fallible operation of the interface reports failure through exactly
/// one of these kinds; no operation signals failure through any other channel.
/// Each kind carries a human-readable message (for `Io` and `Other`, a
/// description of the underlying cause).
#[derive(Debug, Clone)]
pub enum AgentDbError {
    /// A referenced key or resource was absent where the operation required
    /// its presence. Plain `get` of an absent key is *not* this error: it
    /// returns `Ok(None)`.
    NotFound(String),
    /// The operation or option is not implemented by this backend; consult
    /// the capability descriptor before calling.
    Unsupported(String),
    /// A commit- or rollback-specific failure (conflict, constraint
    /// violation), or a transaction used out of order.
    Transaction(String),
    /// Backend connectivity or session failure; also reported for any
    /// operation on a closed instance.
    Connection(String),
    /// Encoding or decoding of a request or response payload failed.
    Serialization(String),
    /// Caller-supplied arguments violate the operation's preconditions, such
    /// as a declared size limit.
    InvalidOperation(String),
    /// A backend-internal failure not covered by a more specific kind.
    Backend(String),
    /// An underlying transport or storage I/O failure.
    Io(String),
    /// Escape hatch for causes outside the taxonomy.
    Other(String),
}

} // verus!
