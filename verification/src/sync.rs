use vstd::prelude::*;

verus! {

/// Which side of the connection this endpoint is.  The tag only breaks
/// symmetry in the handshakes; both sides otherwise run the same code.
#[derive(Clone, Copy, PartialEq, Eq, Structural, Debug)]
pub enum RelativeNodeType {
    Initiator,
    Responder,
}

/// Identifier of one substream within a multiplexer.
///
/// Both peers allocate identifiers from a symmetric monotone counter, so the
/// n-th allocation yields the same value on the two sides and the open
/// handshake can match without exchanging the identifier beforehand.
#[derive(Clone, Copy, PartialEq, Eq, Structural, Debug, Hash)]
pub struct SymmetricConvID(pub u64);

/// Errors surfaced by substream operations.
#[derive(Clone, Copy, PartialEq, Eq, Structural, Debug)]
pub enum StreamError {
    /// The inbound queue is gone: the substream was torn down, or the demux
    /// loop exited and drained everything it had buffered.
    ConnectionReset,
    /// The underlying transport failed; the whole multiplexer instance is
    /// dead and nothing more can be sent on it.
    TransportFailed,
}

} // verus!
