//! The Noise protocol, as the crate `snow` runs it.
//!
//! The states of a handshake and of a transport are values of `snow` that
//! this library carries and never looks into. Each function below makes one
//! call into `snow`; what it says of the call is assumed, not proved.

use crate::wire::bytes_equal;
use snow::Error as SnowError;
use vstd::string::StringSliceAdditionalSpecFns;
use snow::{HandshakeState, TransportState};
use vstd::prelude::*;

verus! {

/// The one handshake pattern of the protocol, with its Diffie-Hellman
/// function, cipher and hash.
pub const NOISE_PARAMS: &'static str = "Noise_NX_25519_ChaChaPoly_BLAKE2s";

/// Largest Noise message, frame header not counted.
pub const MAX_MESSAGE_SIZE: usize = 65535;

/// Bytes of a Diffie-Hellman key.
pub const SNOW_PSKLEN: usize = 32;

/// Bytes of the authentication tag that the cipher appends.
pub const SNOW_TAGLEN: usize = 16;

/// Bytes of the cleartext length that precedes a frame.
pub const HEADER_SIZE: usize = 2;

#[verifier::external_type_specification]
#[verifier::external_body]
pub struct ExHandshakeState(HandshakeState);

#[verifier::external_type_specification]
#[verifier::external_body]
pub struct ExTransportState(TransportState);

#[verifier::external_type_specification]
#[verifier::external_body]
pub struct ExSnowError(SnowError);

/// A static keypair of the handshake: the long-term identity of a
/// responder.
#[derive(Debug, Clone, PartialEq, Eq)]
pub struct StaticKeypair {
    pub private: Vec<u8>,
    pub public: Vec<u8>,
}

/// Parses `params` and calls `snow::Builder::generate_keypair`.
///
/// Assumed: for the parameters `NOISE_PARAMS`, `snow` parses them, finds its
/// random numbers and its Diffie-Hellman function and so does not fail, and
/// both keys of the keypair have 32 bytes.
#[verifier::external_body]
pub(crate) fn snow_generate_keypair(params: &str) -> (res: Result<StaticKeypair, SnowError>)
    requires
        params.spec_bytes() == NOISE_PARAMS.spec_bytes(),
    ensures
        res is Ok,
        res matches Ok(keypair) ==> keypair.private@.len() == SNOW_PSKLEN && keypair.public@.len()
            == SNOW_PSKLEN,
{
    let keypair = snow::Builder::new(params.parse()?).generate_keypair()?;
    Ok(StaticKeypair { private: keypair.private, public: keypair.public })
}

/// Parses `params` and calls `snow::Builder::build_initiator`.
///
/// Assumed: for the parameters `NOISE_PARAMS`, whose pattern asks the
/// initiator for no key, `snow` parses them, finds every function that they
/// name and so does not fail. Nothing is assumed of the state.
#[verifier::external_body]
pub(crate) fn snow_build_initiator(params: &str) -> (res: Result<HandshakeState, SnowError>)
    requires
        params.spec_bytes() == NOISE_PARAMS.spec_bytes(),
    ensures
        res is Ok,
{
    snow::Builder::new(params.parse()?).build_initiator()
}

/// Parses `params` and calls `snow::Builder::local_private_key` and
/// `build_responder`.
///
/// Assumed: for the parameters `NOISE_PARAMS`, whose pattern asks the
/// responder for its private key and for nothing else, `snow` parses them,
/// finds every function that they name and so does not fail. Nothing is
/// assumed of the state. `snow` panics on a key of more than 32 bytes.
#[verifier::external_body]
pub(crate) fn snow_build_responder(params: &str, private_key: &[u8]) -> (res: Result<
    HandshakeState,
    SnowError,
>)
    requires
        params.spec_bytes() == NOISE_PARAMS.spec_bytes(),
        private_key@.len() <= SNOW_PSKLEN,
    ensures
        res is Ok,
{
    snow::Builder::new(params.parse()?).local_private_key(private_key).build_responder()
}

/// Calls `snow::HandshakeState::write_message`.
///
/// Assumed, for a state of the pattern of `NOISE_PARAMS`, which is the
/// only one that the functions above build: the buffer keeps its length, and
/// no more bytes are reported written than it has. `snow` panics on a buffer
/// that has room for the two keys of a flight but not for the tag of the
/// second, so a buffer of 64 to 79 bytes is not accepted here.
#[verifier::external_body]
pub(crate) fn snow_handshake_write(
    state: &mut HandshakeState,
    payload: &[u8],
    message: &mut [u8],
) -> (res: Result<usize, SnowError>)
    requires
        old(message)@.len() < 2 * SNOW_PSKLEN || old(message)@.len() >= 2 * SNOW_PSKLEN
            + SNOW_TAGLEN,
    ensures
        final(message)@.len() == old(message)@.len(),
        res matches Ok(written) ==> written <= old(message)@.len(),
{
    state.write_message(payload, message)
}

/// Calls `snow::HandshakeState::read_message`.
///
/// Assumed: the buffer keeps its length, and no more bytes are reported
/// read than it has.
#[verifier::external_body]
pub(crate) fn snow_handshake_read(
    state: &mut HandshakeState,
    message: &[u8],
    payload: &mut [u8],
) -> (res: Result<usize, SnowError>)
    ensures
        final(payload)@.len() == old(payload)@.len(),
        res matches Ok(read) ==> read <= old(payload)@.len(),
{
    state.read_message(message, payload)
}

/// Calls `snow::HandshakeState::get_remote_static` and copies the key.
/// Nothing is assumed of it.
#[verifier::external_body]
pub(crate) fn snow_remote_static(state: &HandshakeState) -> Option<Vec<u8>> {
    state.get_remote_static().map(|key| key.to_vec())
}

/// Calls `snow::HandshakeState::into_transport_mode`. Nothing is assumed of
/// the state.
#[verifier::external_body]
pub(crate) fn snow_into_transport_mode(state: HandshakeState) -> Result<
    TransportState,
    SnowError,
> {
    state.into_transport_mode()
}

/// Calls `snow::TransportState::write_message`.
///
/// Assumed: the buffer keeps its length; on success the payload and its tag
/// were written, and they fit; on failure the buffer is as it was.
#[verifier::external_body]
pub(crate) fn snow_transport_write(
    state: &mut TransportState,
    payload: &[u8],
    message: &mut [u8],
) -> (res: Result<usize, SnowError>)
    ensures
        final(message)@.len() == old(message)@.len(),
        res matches Ok(written) ==> written == payload@.len() + SNOW_TAGLEN && written <= old(
            message,
        )@.len(),
        res is Err ==> final(message)@ == old(message)@,
{
    state.write_message(payload, message)
}

/// Calls `snow::TransportState::read_message`.
///
/// Assumed: the buffer keeps its length; on success the message without its
/// tag was written, and it fits.
#[verifier::external_body]
pub(crate) fn snow_transport_read(
    state: &mut TransportState,
    payload: &[u8],
    message: &mut [u8],
) -> (res: Result<usize, SnowError>)
    ensures
        final(message)@.len() == old(message)@.len(),
        res matches Ok(read) ==> read + SNOW_TAGLEN == payload@.len() && read <= old(
            message,
        )@.len(),
{
    state.read_message(payload, message)
}

/// Calls `snow::TransportState::sending_nonce`. Nothing is assumed of it.
#[verifier::external_body]
pub(crate) fn snow_sending_nonce(state: &TransportState) -> u64 {
    state.sending_nonce()
}

/// Calls `snow::TransportState::receiving_nonce`. Nothing is assumed of it.
#[verifier::external_body]
pub(crate) fn snow_receiving_nonce(state: &TransportState) -> u64 {
    state.receiving_nonce()
}

/// Whether `params` names the one handshake pattern of the protocol. A
/// handshake is set up for no other.
pub fn noise_params_accepted(params: &str) -> (ok: bool)
    ensures
        ok == (params.spec_bytes() == NOISE_PARAMS.spec_bytes()),
{
    bytes_equal(params.as_bytes(), NOISE_PARAMS.as_bytes())
}

/// Generates a static keypair for the handshake: two keys of 32 bytes.
///
/// `snow` does not fail to make one for the pattern of the protocol; were it
/// to fail, the error would be `HandshakeCrypto`.
pub fn generate_keypair() -> (res: Result<StaticKeypair, crate::error::Error>)
    ensures
        res matches Ok(keypair) && keypair.private@.len() == SNOW_PSKLEN && keypair.public@.len()
            == SNOW_PSKLEN,
{
    match snow_generate_keypair(NOISE_PARAMS) {
        Ok(keypair) => Ok(keypair),
        Err(_) => Err(crate::error::Error::HandshakeCrypto),
    }
}

} // verus!
