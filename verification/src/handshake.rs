//! The two roles of the handshake.
//!
//! The initiator sends its ephemeral key and expects one answer: the
//! ephemeral and the static key of the responder and, encrypted, the
//! certificate of the static key. The initiator accepts the answer only if
//! the certificate is valid under the authority that it trusts. Each role
//! is stepped twice; a role that is done refuses every further step.

use crate::auth::{
    lemma_issued_certificate_valid_in_window, lemma_signature_message_round_trip, spec_presented,
    Authority, AuthorityPublicKey, AuthorityView, Certificate, SignatureNoiseMessage,
    SignatureNoiseMessageView, SIGNATURE_MESSAGE_LEN,
};
use crate::buffers::{bytes_as_slice, bytes_contents, bytes_mut_freeze};
use crate::clock::unix_time_now;
use bytes::Bytes;
use crate::error::Error;
use crate::noise::{
    generate_keypair, noise_params_accepted, snow_build_initiator, snow_build_responder,
    snow_handshake_read,
    snow_handshake_write, snow_into_transport_mode, snow_remote_static, StaticKeypair,
    NOISE_PARAMS, SNOW_PSKLEN,
};
use crate::transport::TransportMode;
use core::time::Duration;
use snow::Error as SnowError;
use vstd::string::StringSliceAdditionalSpecFns;
use snow::{HandshakeState, TransportState};
use vstd::prelude::*;
use vstd::slice::slice_to_vec;

verus! {

/// A message of the handshake.
pub type Message = Vec<u8>;

/// Bytes of the first flight, from the initiator: an ephemeral key and room
/// for a tag.
pub const FIRST_FLIGHT_LEN: usize = 48;

/// Bytes of the second flight, from the responder: an ephemeral key, the
/// static key with its tag, the certificate with its tag.
pub const BUFFER_LEN: usize = 172;

/// The stage of a role that has taken both of its steps.
pub const STAGE_DONE: usize = 2;

/// What a step of the handshake gives.
#[derive(Debug, Clone, PartialEq, Eq)]
pub enum StepResult {
    /// A message for the peer, whose answer is the input of the next step.
    ExpectReply(Message),
    /// A message for the peer, who does not answer it.
    NoMoreReply(Message),
    /// The role is done; no message.
    Done,
}

/// One role of the handshake, stepped from stage 0 through stage 1 to done.
pub trait Step: Sized {
    /// How many steps the role has taken.
    open spec fn spec_stage(&self) -> nat {
        arbitrary()
    }

    /// Gives up the state of the handshake.
    fn into_handshake_state(self) -> HandshakeState;

    /// Takes the next step, on the message of the peer where one is due.
    ///
    /// A step that succeeds moves the role on by one stage; a step that
    /// fails leaves the stage as it was. A role that is done is not changed
    /// by a step, and fails it with `ProtocolMisuse`.
    fn step(&mut self, in_msg: Option<Message>) -> (res: Result<StepResult, Error>)
        ensures
            old(self).spec_stage() >= STAGE_DONE ==> res == Err::<StepResult, Error>(
                Error::ProtocolMisuse,
            ) && *final(self) == *old(self),
            res is Ok ==> old(self).spec_stage() < STAGE_DONE && final(self).spec_stage()
                == old(self).spec_stage() + 1,
            res is Err ==> final(self).spec_stage() == old(self).spec_stage(),
            res == Ok::<StepResult, Error>(StepResult::Done) <==> res is Ok && final(
                self
            ).spec_stage() == STAGE_DONE,
    ;

    /// Ends the handshake and gives the transport cipher of the session.
    ///
    /// Fails with `ProtocolMisuse` exactly for a role that is not done. For
    /// a role that is done, `snow` is asked to turn the state of the
    /// handshake into a transport: the result is the transport that
    /// `TransportMode::new` makes of its state, or `HandshakeCrypto` where
    /// `snow` refuses.
    fn into_transport_mode(self) -> (res: Result<TransportMode, Error>)
        ensures
            res matches Err(Error::ProtocolMisuse) <==> self.spec_stage() < STAGE_DONE,
            self.spec_stage() >= STAGE_DONE ==> exists|answer: Result<TransportState, SnowError>|
                #[trigger] transport_result(answer, res),
            res matches Ok(mode) ==> !mode.spec_poisoned(),
            res matches Err(e) ==> e == Error::ProtocolMisuse || e == Error::HandshakeCrypto,
    ;
}

/// Whether `res` is what a role that is done makes of the answer of `snow`
/// to the turning of its handshake into a transport: a mode that holds the
/// transport state that `snow` gave, with no frame failed yet, or
/// `HandshakeCrypto` where `snow` refused.
pub open spec fn transport_result(
    answer: Result<TransportState, SnowError>,
    res: Result<TransportMode, Error>,
) -> bool {
    match answer {
        Ok(state) => res matches Ok(mode) && mode.spec_inner() == state && !mode.spec_poisoned(),
        Err(_) => res matches Err(e) && e == Error::HandshakeCrypto,
    }
}

/// Turns the answer of `snow` to the end of a handshake into the transport
/// cipher of the session, or into the error of the role.
pub fn finished_transport(answer: Result<TransportState, SnowError>) -> (res: Result<
    TransportMode,
    Error,
>)
    ensures
        transport_result(answer, res),
{
    match answer {
        Ok(state) => Ok(TransportMode::new(state)),
        Err(_) => Err(Error::HandshakeCrypto),
    }
}

/// What the initiator returns at stage 0 for what `snow` answered when the
/// first flight was written into `buffer`: the bytes that were written, for
/// the peer to answer; `HandshakeCrypto` where `snow` refused or reports
/// more bytes than the buffer has.
pub open spec fn spec_first_flight(written: Result<usize, SnowError>, buffer: Seq<u8>) -> Result<
    Seq<u8>,
    Error,
> {
    match written {
        Ok(n) => if n <= buffer.len() {
            Ok(buffer.subrange(0, n as int))
        } else {
            Err(Error::HandshakeCrypto)
        },
        Err(_) => Err(Error::HandshakeCrypto),
    }
}

/// Turns the answer of `snow` to the writing of the first flight into the
/// result of the step.
pub fn first_flight(written: Result<usize, SnowError>, buffer: Vec<u8>) -> (res: Result<
    StepResult,
    Error,
>)
    ensures
        first_flight_result(written, buffer@, res),
{
    match written {
        Ok(n) => {
            if n <= buffer.len() {
                let mut buffer = buffer;
                buffer.truncate(n);
                Ok(StepResult::ExpectReply(buffer))
            } else {
                Err(Error::HandshakeCrypto)
            }
        },
        Err(_) => Err(Error::HandshakeCrypto),
    }
}

/// What the responder returns at stage 0 for what `snow` answered when the
/// second flight was written into `buffer`: the whole buffer, where it has
/// the length of a second flight and was filled; `HandshakeCrypto`
/// otherwise.
pub open spec fn spec_second_flight(written: Result<usize, SnowError>, buffer: Seq<u8>) -> Result<
    Seq<u8>,
    Error,
> {
    match written {
        Ok(n) => if n == BUFFER_LEN && buffer.len() == BUFFER_LEN {
            Ok(buffer)
        } else {
            Err(Error::HandshakeCrypto)
        },
        Err(_) => Err(Error::HandshakeCrypto),
    }
}

/// Turns the answer of `snow` to the writing of the second flight into the
/// result of the step.
pub fn second_flight(written: Result<usize, SnowError>, buffer: Vec<u8>) -> (res: Result<
    StepResult,
    Error,
>)
    ensures
        second_flight_result(written, buffer@, res),
{
    match written {
        Ok(n) => {
            if n == BUFFER_LEN && buffer.len() == BUFFER_LEN {
                Ok(StepResult::NoMoreReply(buffer))
            } else {
                Err(Error::HandshakeCrypto)
            }
        },
        Err(_) => Err(Error::HandshakeCrypto),
    }
}

/// Whether `res` is what the initiator returns at stage 0 for the answer
/// `written` of `snow` to the writing of the first flight into `buffer`.
pub open spec fn first_flight_result(
    written: Result<usize, SnowError>,
    buffer: Seq<u8>,
    res: Result<StepResult, Error>,
) -> bool {
    match spec_first_flight(written, buffer) {
        Ok(bytes) => res matches Ok(StepResult::ExpectReply(m)) && m@ == bytes,
        Err(e) => res == Err::<StepResult, Error>(e),
    }
}

/// Whether `res` is what the responder returns at stage 0 for the answer
/// `written` of `snow` to the writing of the second flight into `buffer`.
pub open spec fn second_flight_result(
    written: Result<usize, SnowError>,
    buffer: Seq<u8>,
    res: Result<StepResult, Error>,
) -> bool {
    match spec_second_flight(written, buffer) {
        Ok(bytes) => res matches Ok(StepResult::NoMoreReply(m)) && m@ == bytes,
        Err(e) => res == Err::<StepResult, Error>(e),
    }
}

/// What the initiator returns at stage 1 for the outcome of the check of
/// the certificate: it is done, or the check has failed.
pub open spec fn spec_checked(outcome: Result<(), Error>) -> Result<StepResult, Error> {
    match outcome {
        Ok(()) => Ok(StepResult::Done),
        Err(e) => Err(e),
    }
}

/// What the initiator makes of the second flight once `snow` has decrypted
/// it: in this order, `HandshakeCrypto` where the handshake gave no static
/// key of the responder; `BadCertificate` where the payload is not a
/// certificate message; `CertNotYetValid` where the clock gives no time; and
/// else what presenting the certificate at that time gives, for that static
/// key and under the authority that the initiator trusts.
pub open spec fn spec_check_remote_certificate(
    remote_static_key: Option<Seq<u8>>,
    signature_noise_message: Seq<u8>,
    authority_public_key: Seq<u8>,
    now: Option<u64>,
) -> Result<(), Error> {
    match remote_static_key {
        None => Err(Error::HandshakeCrypto),
        Some(key) => match SignatureNoiseMessageView::from_bytes(signature_noise_message) {
            None => Err(Error::BadCertificate),
            Some(message) => match now {
                None => Err(Error::CertNotYetValid),
                Some(now) => spec_presented(message, key, authority_public_key).validate_at(
                    now,
                ),
            },
        },
    }
}

/// The bytes of a key that may be missing.
pub open spec fn spec_key_view(key: Option<Vec<u8>>) -> Option<Seq<u8>> {
    match key {
        Some(key) => Some(key@),
        None => None,
    }
}

/// The certificate message of a certificate that an authority issues at
/// `issued`, with a signature of 64 bytes that verifies under its public
/// key, passes the check of an initiator that trusts the authority and was
/// given the certified static key by the handshake, at exactly the instants
/// from `issued` up to, but not including, `issued + valid_for`.
pub proof fn lemma_issued_certificate_passes_check_in_window(
    authority: AuthorityView,
    pubkey: Seq<u8>,
    issued: u64,
    valid_for: u64,
    instant: u64,
)
    requires
        authority.issues_verifiably(pubkey, issued, valid_for),
        authority.new_cert_at(pubkey, issued, valid_for).unwrap().encodable(),
    ensures
        spec_check_remote_certificate(
            Some(pubkey),
            authority.new_cert_at(pubkey, issued, valid_for).unwrap().to_bytes(),
            authority.public,
            Some(instant),
        ) is Ok <==> issued <= instant < issued + valid_for,
{
    let message = authority.new_cert_at(pubkey, issued, valid_for).unwrap();
    lemma_signature_message_round_trip(message);
    lemma_issued_certificate_valid_in_window(authority, pubkey, issued, valid_for, instant);
}

/// Checks the certificate that the responder sent against the static key
/// that the handshake gave and the authority that the initiator trusts, at
/// the time `now`, in seconds since the Unix epoch.
pub fn check_remote_certificate(
    remote_static_key: Option<Vec<u8>>,
    signature_noise_message: &[u8],
    authority_public_key: &[u8],
    now: Option<u64>,
) -> (res: Result<(), Error>)
    ensures
        res == spec_check_remote_certificate(
            spec_key_view(remote_static_key),
            signature_noise_message@,
            authority_public_key@,
            now,
        ),
{
    let remote_static_key = match remote_static_key {
        Some(key) => key,
        None => {
            return Err(Error::HandshakeCrypto);
        },
    };
    let message = match SignatureNoiseMessage::from_bytes(signature_noise_message) {
        Ok(message) => message,
        Err(e) => {
            return Err(e);
        },
    };
    let now = match now {
        Some(now) => now,
        None => {
            return Err(Error::CertNotYetValid);
        },
    };
    let certificate = Certificate::from_noise_message(
        message,
        remote_static_key,
        slice_to_vec(authority_public_key),
    );
    certificate.validate_at(now)
}

/// The certificate message that the second flight carried, for what `snow`
/// answered when the flight was read into `buffer`: `HandshakeCrypto` where
/// `snow` refused the flight; `BadCertificate` where the payload does not
/// have the 76 bytes of a certificate message; else the payload.
pub open spec fn spec_second_flight_payload(read: Result<usize, SnowError>, buffer: Seq<u8>) -> Result<
    Seq<u8>,
    Error,
> {
    match read {
        Ok(n) => if n == SIGNATURE_MESSAGE_LEN && n <= buffer.len() {
            Ok(buffer.subrange(0, n as int))
        } else {
            Err(Error::BadCertificate)
        },
        Err(_) => Err(Error::HandshakeCrypto),
    }
}

/// Turns the answer of `snow` to the reading of the second flight into the
/// certificate message that the flight carried, or into the error of the
/// step.
pub fn second_flight_payload(read: Result<usize, SnowError>, buffer: Vec<u8>) -> (res: Result<
    Vec<u8>,
    Error,
>)
    ensures
        match spec_second_flight_payload(read, buffer@) {
            Ok(bytes) => res matches Ok(payload) && payload@ == bytes,
            Err(e) => res matches Err(f) && f == e,
        },
{
    match read {
        Ok(n) => {
            if n == SIGNATURE_MESSAGE_LEN && n <= buffer.len() {
                let mut buffer = buffer;
                buffer.truncate(n);
                Ok(buffer)
            } else {
                Err(Error::BadCertificate)
            }
        },
        Err(_) => Err(Error::HandshakeCrypto),
    }
}

/// What the initiator returns at stage 1 for what `snow` answered when the
/// second flight was read into `buffer`, for the static key that the
/// handshake gave, the authority that the initiator trusts and the time of
/// the clock: the error of `spec_second_flight_payload`, or else what the
/// check of the certificate message gives.
pub open spec fn spec_second_flight_outcome(
    read: Result<usize, SnowError>,
    buffer: Seq<u8>,
    remote_static_key: Option<Seq<u8>>,
    authority_public_key: Seq<u8>,
    now: Option<u64>,
) -> Result<StepResult, Error> {
    match spec_second_flight_payload(read, buffer) {
        Err(e) => Err(e),
        Ok(payload) => spec_checked(
            spec_check_remote_certificate(remote_static_key, payload, authority_public_key, now),
        ),
    }
}

/// Decides the second step of the initiator from what `snow` answered when
/// the second flight was read into `buffer`, the static key that the
/// handshake gave, the authority that the initiator trusts and the time of
/// the clock, in seconds since the Unix epoch.
pub fn second_flight_outcome(
    read: Result<usize, SnowError>,
    buffer: Vec<u8>,
    remote_static_key: Option<Vec<u8>>,
    authority_public_key: &[u8],
    now: Option<u64>,
) -> (res: Result<StepResult, Error>)
    ensures
        res == spec_second_flight_outcome(
            read,
            buffer@,
            spec_key_view(remote_static_key),
            authority_public_key@,
            now,
        ),
{
    let payload = match second_flight_payload(read, buffer) {
        Ok(payload) => payload,
        Err(e) => {
            return Err(e);
        },
    };
    match check_remote_certificate(remote_static_key, payload.as_slice(), authority_public_key, now) {
        Ok(()) => Ok(StepResult::Done),
        Err(e) => Err(e),
    }
}

/// What the responder makes of the answer of `snow` to the reading of the
/// first flight: it goes on where `snow` accepted the flight, and fails
/// with `HandshakeCrypto` where `snow` refused it.
pub open spec fn spec_first_flight_read(read: Result<usize, SnowError>) -> Result<(), Error> {
    match read {
        Ok(_) => Ok(()),
        Err(_) => Err(Error::HandshakeCrypto),
    }
}

/// Turns the answer of `snow` to the reading of the first flight into the
/// leave to go on, or into the error of the step.
pub fn first_flight_read(read: Result<usize, SnowError>) -> (res: Result<(), Error>)
    ensures
        res == spec_first_flight_read(read),
{
    match read {
        Ok(_) => Ok(()),
        Err(_) => Err(Error::HandshakeCrypto),
    }
}

/// Whether `res` is what the responder returns at stage 0 for the answers
/// of `snow` to the reading of the first flight and, where that was
/// accepted, to the writing of the second flight into `buffer`.
pub open spec fn responder_flight_result(
    read: Result<usize, SnowError>,
    written: Result<usize, SnowError>,
    buffer: Seq<u8>,
    res: Result<StepResult, Error>,
) -> bool {
    match spec_first_flight_read(read) {
        Err(e) => res == Err::<StepResult, Error>(e),
        Ok(()) => second_flight_result(written, buffer, res),
    }
}

/// The role of the downstream: it starts the handshake and checks the
/// certificate of the upstream.
#[derive(Debug)]
pub struct Initiator {
    stage: usize,
    handshake_state: HandshakeState,
    /// The public key of the authority whose certificate proves the identity
    /// of the responder.
    authority_public_key: AuthorityPublicKey,
}

impl Initiator {
    /// The state of the handshake, as `snow` keeps it for the initiator.
    pub closed spec fn spec_handshake_state(self) -> HandshakeState {
        self.handshake_state
    }

    /// The authority that the initiator trusts.
    pub closed spec fn spec_authority_public_key(self) -> Seq<u8> {
        self.authority_public_key@
    }

    /// An initiator at stage 0, for the handshake that `params` names.
    /// Succeeds exactly for the parameter string `NOISE_PARAMS`, and fails
    /// with `HandshakeCrypto` for every other.
    pub fn with_params(params: &str, authority_public_key: AuthorityPublicKey) -> (res: Result<
        Initiator,
        Error,
    >)
        ensures
            res is Ok <==> params.spec_bytes() == NOISE_PARAMS.spec_bytes(),
            match res {
                Ok(initiator) => initiator.spec_stage() == 0
                    && initiator.spec_authority_public_key() == authority_public_key@,
                Err(e) => e == Error::HandshakeCrypto,
            },
    {
        if !noise_params_accepted(params) {
            return Err(Error::HandshakeCrypto);
        }
        match snow_build_initiator(params) {
            Ok(handshake_state) => Ok(
                Initiator { stage: 0, handshake_state, authority_public_key },
            ),
            Err(_) => Err(Error::HandshakeCrypto),
        }
    }

    /// An initiator at stage 0 that trusts the given authority. For the
    /// pattern of the protocol `snow` sets the handshake up without fail.
    pub fn new(authority_public_key: AuthorityPublicKey) -> (res: Result<Initiator, Error>)
        ensures
            res matches Ok(initiator) && initiator.spec_stage() == 0
                && initiator.spec_authority_public_key() == authority_public_key@,
    {
        Self::with_params(NOISE_PARAMS, authority_public_key)
    }

    /// An initiator at stage 0 that trusts the authority with the given
    /// public key. Succeeds exactly for bytes that Ed25519 accepts as a
    /// public key, and fails with `BadCertificate` for all others.
    pub fn from_raw_k(authority_public_key: [u8; 32]) -> (res: Result<Initiator, Error>)
        ensures
            res is Ok <==> crate::ed25519::ed25519_public_key_valid(authority_public_key@),
            match res {
                Ok(initiator) => initiator.spec_stage() == 0
                    && initiator.spec_authority_public_key() == authority_public_key@,
                Err(e) => e == Error::BadCertificate,
            },
    {
        match AuthorityPublicKey::from_bytes(authority_public_key.as_slice()) {
            Some(key) => Self::new(key),
            None => Err(Error::BadCertificate),
        }
    }

    /// Verifies the signature of the static key of the responder, for what
    /// `snow` answered when the second flight was read into `buffer`: the
    /// payload must be a certificate of the static key that the handshake
    /// gave, valid now under the authority that the initiator trusts.
    fn verify_remote_static_key_signature(
        &mut self,
        read: Result<usize, SnowError>,
        buffer: Vec<u8>,
    ) -> (res: Result<StepResult, Error>)
        ensures
            *final(self) == *old(self),
            exists|remote_static_key: Option<Seq<u8>>, now: Option<u64>|
                res == #[trigger] spec_second_flight_outcome(
                    read,
                    buffer@,
                    remote_static_key,
                    old(self).spec_authority_public_key(),
                    now,
                ),
    {
        let remote_static_key = snow_remote_static(&self.handshake_state);
        let now = unix_time_now();
        let ghost remote = spec_key_view(remote_static_key);
        let res = second_flight_outcome(
            read,
            buffer,
            remote_static_key,
            self.authority_public_key.as_bytes(),
            now,
        );
        assert(res == spec_second_flight_outcome(
            read,
            buffer@,
            remote,
            self.spec_authority_public_key(),
            now,
        ));
        res
    }
}

impl Step for Initiator {
    closed spec fn spec_stage(&self) -> nat {
        self.stage as nat
    }

    /// Gives up the state of the handshake that the initiator has stepped.
    fn into_handshake_state(self) -> (state: HandshakeState)
        ensures
            state == self.spec_handshake_state(),
    {
        self.handshake_state
    }

    /// At stage 0 the input is not read. `snow` is asked to write the first
    /// flight into a buffer of 48 bytes, and the step returns what
    /// `first_flight` makes of its answer: the bytes that were written, for
    /// the responder to answer, or `HandshakeCrypto`.
    ///
    /// At stage 1 the input is the answer of the responder. Without it the
    /// step fails with `UnexpectedMessage`. With it `snow` is asked to read
    /// the answer into a buffer of 172 bytes, and the step returns what
    /// `second_flight_outcome` makes of what `snow` answered:
    /// `HandshakeCrypto` where `snow` refuses the
    /// flight, `BadCertificate` where the payload does not have the 76 bytes
    /// of a certificate message, and else the outcome of the check of the
    /// payload, for the static key that the handshake gave, the authority
    /// that the initiator trusts, and the time of the clock.
    fn step(&mut self, in_msg: Option<Message>) -> (res: Result<StepResult, Error>)
        ensures
            final(self).spec_authority_public_key() == old(self).spec_authority_public_key(),
            old(self).spec_stage() == 0 ==> exists|written: Result<usize, SnowError>, buffer: Seq<u8>|
                buffer.len() == FIRST_FLIGHT_LEN && #[trigger] first_flight_result(
                    written,
                    buffer,
                    res,
                ),
            old(self).spec_stage() == 1 && in_msg is None ==> res == Err::<StepResult, Error>(
                Error::UnexpectedMessage,
            ),
            old(self).spec_stage() == 1 && in_msg is Some ==> exists|
                read: Result<usize, SnowError>,
                buffer: Seq<u8>,
                remote_static_key: Option<Seq<u8>>,
                now: Option<u64>,
            |
                buffer.len() == BUFFER_LEN && res == #[trigger] spec_second_flight_outcome(
                    read,
                    buffer,
                    remote_static_key,
                    old(self).spec_authority_public_key(),
                    now,
                ),
    {
        let mut noise_bytes: Vec<u8> = Vec::new();
        let result = if self.stage == 0 {
            // -> e
            noise_bytes.resize(FIRST_FLIGHT_LEN, 0);
            let empty: Vec<u8> = Vec::new();
            let written = snow_handshake_write(
                &mut self.handshake_state,
                empty.as_slice(),
                noise_bytes.as_mut_slice(),
            );
            let ghost buffer = noise_bytes@;
            let flight = first_flight(written, noise_bytes);
            assert(first_flight_result(written, buffer, flight));
            match flight {
                Ok(result) => result,
                Err(e) => {
                    return Err(e);
                },
            }
        } else if self.stage == 1 {
            // <- e, ee, s, es, SIGNATURE_NOISE_MESSAGE
            let in_msg = match in_msg {
                Some(in_msg) => in_msg,
                None => {
                    return Err(Error::UnexpectedMessage);
                },
            };
            noise_bytes.resize(BUFFER_LEN, 0);
            let read = snow_handshake_read(
                &mut self.handshake_state,
                in_msg.as_slice(),
                noise_bytes.as_mut_slice(),
            );
            let ghost buffer = noise_bytes@;
            let ghost authority = old(self).spec_authority_public_key();
            assert(self.spec_authority_public_key() == authority);
            let outcome = self.verify_remote_static_key_signature(read, noise_bytes);
            proof {
                let (remote, now) = choose|remote: Option<Seq<u8>>, now: Option<u64>|
                    outcome == #[trigger] spec_second_flight_outcome(
                        read,
                        buffer,
                        remote,
                        authority,
                        now,
                    );
                assert(outcome == spec_second_flight_outcome(read, buffer, remote, authority, now));
            }
            match outcome {
                Ok(result) => result,
                Err(e) => {
                    return Err(e);
                },
            }
        } else {
            return Err(Error::ProtocolMisuse);
        };
        self.stage = self.stage + 1;
        Ok(result)
    }

    fn into_transport_mode(self) -> (res: Result<TransportMode, Error>) {
        if self.stage < STAGE_DONE {
            return Err(Error::ProtocolMisuse);
        }
        let answer = snow_into_transport_mode(self.handshake_state);
        let res = finished_transport(answer);
        assert(transport_result(answer, res));
        res
    }
}

/// The role of the upstream: it answers the handshake with its static key
/// and the certificate of that key.
#[derive(Debug)]
pub struct Responder {
    stage: usize,
    handshake_state: HandshakeState,
    /// The certificate message, as it goes into the second flight.
    signature_noise_message: Bytes,
}

impl Responder {
    /// The state of the handshake, as `snow` keeps it for the responder.
    pub closed spec fn spec_handshake_state(self) -> HandshakeState {
        self.handshake_state
    }

    /// The certificate message that the responder sends.
    pub closed spec fn spec_signature_noise_message(self) -> Seq<u8> {
        bytes_contents(self.signature_noise_message)
    }

    /// A responder at stage 0 with the given static key and certificate
    /// message, for the handshake that `params` names. Succeeds exactly for
    /// the parameter string `NOISE_PARAMS` and a private key of at most 32
    /// bytes, and fails with `HandshakeCrypto` otherwise.
    pub fn with_params(
        params: &str,
        static_keypair: &StaticKeypair,
        signature_noise_message: Bytes,
    ) -> (res: Result<Responder, Error>)
        ensures
            res is Ok <==> params.spec_bytes() == NOISE_PARAMS.spec_bytes()
                && static_keypair.private@.len() <= SNOW_PSKLEN,
            match res {
                Ok(responder) => responder.spec_stage() == 0
                    && responder.spec_signature_noise_message() == bytes_contents(
                    signature_noise_message,
                ),
                Err(e) => e == Error::HandshakeCrypto,
            },
    {
        if !noise_params_accepted(params) {
            return Err(Error::HandshakeCrypto);
        }
        if static_keypair.private.len() > SNOW_PSKLEN {
            return Err(Error::HandshakeCrypto);
        }
        match snow_build_responder(params, static_keypair.private.as_slice()) {
            Ok(handshake_state) => Ok(
                Responder { stage: 0, handshake_state, signature_noise_message },
            ),
            Err(_) => Err(Error::HandshakeCrypto),
        }
    }

    /// A responder at stage 0 with the given static key and certificate
    /// message. Succeeds exactly for a private key of at most 32 bytes, and
    /// fails with `HandshakeCrypto` for a longer one.
    pub fn new(static_keypair: &StaticKeypair, signature_noise_message: Bytes) -> (res: Result<
        Responder,
        Error,
    >)
        ensures
            res is Ok <==> static_keypair.private@.len() <= SNOW_PSKLEN,
            match res {
                Ok(responder) => responder.spec_stage() == 0
                    && responder.spec_signature_noise_message() == bytes_contents(
                    signature_noise_message,
                ),
                Err(e) => e == Error::HandshakeCrypto,
            },
    {
        Self::with_params(NOISE_PARAMS, static_keypair, signature_noise_message)
    }

    /// A responder at stage 0 with a fresh static key, which the given
    /// certificate message does not certify unless it was made for it.
    pub fn with_random_static_kp(signature_noise_message: Bytes) -> (res: Result<
        Responder,
        Error,
    >)
        ensures
            res matches Ok(responder) && responder.spec_stage() == 0
                && responder.spec_signature_noise_message() == bytes_contents(
                signature_noise_message,
            ),
    {
        let static_keypair = match generate_keypair() {
            Ok(static_keypair) => static_keypair,
            Err(e) => {
                return Err(e);
            },
        };
        Self::new(&static_keypair, signature_noise_message)
    }

    /// A responder that certifies itself: it makes a fresh static key of 32
    /// bytes and has the authority with the given keys certify it from now
    /// on, by the clock of the machine, for the whole seconds of `duration`.
    ///
    /// Fails with `BadCertificate`: where the keys are not the keys of an
    /// authority, and where the certificate cannot be issued for the time of
    /// the clock. It does not fail otherwise.
    pub fn from_authority_kp(pub_k: &[u8], priv_k: &[u8], duration: Duration) -> (res: Result<
        Responder,
        Error,
    >)
        ensures
            !(AuthorityView { public: pub_k@, secret: priv_k@ }).well_formed() ==> res
                == Err::<Responder, Error>(Error::BadCertificate),
            (AuthorityView { public: pub_k@, secret: priv_k@ }).well_formed() ==> exists|
                static_key: Seq<u8>,
                now: Option<u64>,
                seconds: u64,
            |
                static_key.len() == SNOW_PSKLEN && match (#[trigger] (AuthorityView {
                    public: pub_k@,
                    secret: priv_k@,
                }).new_cert_when(static_key, now, seconds)) {
                    Some(m) => res matches Ok(responder) && responder.spec_stage() == 0
                        && responder.spec_signature_noise_message() == m.to_bytes(),
                    None => res matches Err(e) && e == Error::BadCertificate,
                },
    {
        let authority = match Authority::from_raw_k(pub_k, priv_k) {
            Some(authority) => authority,
            None => {
                return Err(Error::BadCertificate);
            },
        };
        let static_keypair = match generate_keypair() {
            Ok(static_keypair) => static_keypair,
            Err(e) => {
                return Err(e);
            },
        };
        let certificate = match authority.new_cert_from_raw(
            static_keypair.public.as_slice(),
            duration,
        ) {
            Ok(certificate) => certificate,
            Err(e) => {
                return Err(e);
            },
        };
        let signature_noise_message = match certificate.serialize_to_bytes_mut() {
            Ok(bytes) => bytes,
            Err(e) => {
                return Err(e);
            },
        };
        Self::new(&static_keypair, bytes_mut_freeze(signature_noise_message))
    }
}

impl Step for Responder {
    closed spec fn spec_stage(&self) -> nat {
        self.stage as nat
    }

    /// Gives up the state of the handshake that the responder has stepped.
    fn into_handshake_state(self) -> (state: HandshakeState)
        ensures
            state == self.spec_handshake_state(),
    {
        self.handshake_state
    }

    /// At stage 0 the input is the first flight of the initiator. Without it
    /// the step fails with `UnexpectedMessage`. With it `snow` is asked to
    /// read the flight, and the step fails with `HandshakeCrypto` where
    /// `first_flight_read` finds that `snow` refused it; else `snow` is asked
    /// to write the second flight, with the certificate message as its
    /// payload, into a buffer of 172 bytes, and the step returns what
    /// `second_flight` makes of its answer: the whole buffer, which the
    /// initiator does not answer, or `HandshakeCrypto`.
    ///
    /// At stage 1 the input is not read, and the step is done.
    fn step(&mut self, in_msg: Option<Message>) -> (res: Result<StepResult, Error>)
        ensures
            final(self).spec_signature_noise_message() == old(self).spec_signature_noise_message(),
            old(self).spec_stage() == 0 && in_msg is None ==> res == Err::<StepResult, Error>(
                Error::UnexpectedMessage,
            ),
            old(self).spec_stage() == 0 && in_msg is Some ==> exists|
                read: Result<usize, SnowError>,
                written: Result<usize, SnowError>,
                buffer: Seq<u8>,
            |
                buffer.len() == BUFFER_LEN && #[trigger] responder_flight_result(
                    read,
                    written,
                    buffer,
                    res,
                ),
            old(self).spec_stage() == 1 ==> res == Ok::<StepResult, Error>(StepResult::Done),
    {
        let mut noise_bytes: Vec<u8> = Vec::new();
        let result = if self.stage == 0 {
            // <- e
            let in_msg = match in_msg {
                Some(in_msg) => in_msg,
                None => {
                    return Err(Error::UnexpectedMessage);
                },
            };
            noise_bytes.resize(BUFFER_LEN, 0);
            let read = snow_handshake_read(
                &mut self.handshake_state,
                in_msg.as_slice(),
                noise_bytes.as_mut_slice(),
            );
            match first_flight_read(read) {
                Ok(()) => {},
                Err(e) => {
                    assert(responder_flight_result(read, read, noise_bytes@, Err(e)));
                    return Err(e);
                },
            }
            // -> e, ee, s, es, SIGNATURE_NOISE_MESSAGE
            let written = snow_handshake_write(
                &mut self.handshake_state,
                bytes_as_slice(&self.signature_noise_message),
                noise_bytes.as_mut_slice(),
            );
            let ghost buffer = noise_bytes@;
            let flight = second_flight(written, noise_bytes);
            assert(responder_flight_result(read, written, buffer, flight));
            match flight {
                Ok(result) => result,
                Err(e) => {
                    return Err(e);
                },
            }
        } else if self.stage == 1 {
            StepResult::Done
        } else {
            return Err(Error::ProtocolMisuse);
        };
        self.stage = self.stage + 1;
        Ok(result)
    }

    fn into_transport_mode(self) -> (res: Result<TransportMode, Error>) {
        if self.stage < STAGE_DONE {
            return Err(Error::ProtocolMisuse);
        }
        let answer = snow_into_transport_mode(self.handshake_state);
        let res = finished_transport(answer);
        assert(transport_result(answer, res));
        res
    }
}

} // verus!
