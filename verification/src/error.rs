//! The error kinds that the core surfaces.

use vstd::prelude::*;

verus! {

/// What can go wrong in a session, from the handshake to the routing of a
/// mining message.
#[derive(Debug, Clone, Copy, PartialEq, Eq, Structural)]
pub enum Error {
    /// A decryption or authentication failure during the handshake.
    HandshakeCrypto,
    /// The certificate is malformed or its signature does not verify.
    BadCertificate,
    /// The certificate is presented at or after the end of its validity.
    CertExpired,
    /// The certificate is presented before the start of its validity.
    CertNotYetValid,
    /// An operation was called in a terminal state or out of order.
    ProtocolMisuse,
    /// The message is known but not admissible on this connection.
    UnexpectedMessage,
    /// The message could not be decoded.
    BadMessage,
    /// A transport frame failed authentication.
    AuthFailure,
    /// A share names a channel that the session does not know.
    UnknownChannel,
    /// A share names a job that no upstream announced.
    UnknownJob,
    /// The peer that a message is meant for is gone.
    PeerClosed,
    /// The nonce of a transport direction is used up.
    CipherExhausted,
    /// The plaintext does not fit in one frame.
    TooLarge,
    /// A buffer does not have the length that the frame needs.
    ShortBuffer,
}

impl Error {
    /// Whether the session has to be torn down after this error.
    ///
    /// Only `UnexpectedMessage` and the two lookup misses that surface as it
    /// leave the session usable; a length mismatch is caught before the
    /// cipher is fed and leaves it usable too.
    pub open spec fn spec_is_terminal(self) -> bool {
        !(self == Error::UnexpectedMessage || self == Error::UnknownChannel || self
            == Error::UnknownJob || self == Error::ShortBuffer || self == Error::TooLarge)
    }

    /// The error as the caller of the router sees it: a lookup that missed is
    /// reported as an unexpected message, every other error as itself.
    pub open spec fn spec_surfaced(self) -> Error {
        if self == Error::UnknownChannel || self == Error::UnknownJob {
            Error::UnexpectedMessage
        } else {
            self
        }
    }

    #[verifier::when_used_as_spec(spec_is_terminal)]
    pub fn is_terminal(self) -> (r: bool)
        ensures
            r == self.spec_is_terminal(),
    {
        match self {
            Error::UnexpectedMessage
            | Error::UnknownChannel
            | Error::UnknownJob
            | Error::ShortBuffer
            | Error::TooLarge => false,
            _ => true,
        }
    }

    #[verifier::when_used_as_spec(spec_surfaced)]
    pub fn surfaced(self) -> (r: Error)
        ensures
            r == self.spec_surfaced(),
    {
        match self {
            Error::UnknownChannel | Error::UnknownJob => Error::UnexpectedMessage,
            other => other,
        }
    }
}

/// Surfacing is idempotent, and what surfaces is never a lookup miss.
pub proof fn lemma_surfaced_idempotent(e: Error)
    ensures
        e.spec_surfaced().spec_surfaced() == e.spec_surfaced(),
        e.spec_surfaced() != Error::UnknownChannel,
        e.spec_surfaced() != Error::UnknownJob,
{
}

} // verus!
