use vstd::prelude::*;

verus! {

/// Everything that can go wrong in a session or a conversion.
///
/// Every error is handed to the caller of the operation during which it
/// arose; nothing is retried and nothing is recovered from silently.
#[derive(Clone, Copy, Debug, PartialEq, Eq, Structural)]
pub enum SessionError {
    /// The endpoint could not be opened: it is missing, or it is already in use.
    EndpointUnavailable,
    /// An operation that needs an idle, connected session was asked of a
    /// session that is not one.
    NotConnected,
    /// The transport refused a write; the rest of the batch was abandoned.
    WriteFailed,
    /// The device's reply lacked something a status snapshot needs.
    StatusParseFailed,
    /// The document to convert is not well-formed markup. The caller's
    /// parser finds that out, so it is the caller that answers with this.
    DocumentParseFailed,
    /// The connection has been released.
    Closed,
}

} // verus!
