//! The certificate that binds the static key of a responder to an authority.
//!
//! An authority signs, with Ed25519, the validity window of the certificate
//! followed by the static key of the responder and by its own public key.
//! The responder sends the window and the signature in the handshake; the
//! initiator puts the signed bytes together again from the static key that
//! the handshake gave it and from the authority key that it was configured
//! with. With another static key or another authority the signed bytes
//! differ, and the signature does not verify.

use crate::buffers::{bytes_mut_contents, bytes_mut_from_slice};
use crate::clock::{duration_secs, unix_time_now};
use bytes::BytesMut;
use crate::ed25519::{
    ed25519_public_key_valid, ed25519_signature, ed25519_verifies, public_key_valid, sign,
    verify, PUBLIC_KEY_LEN, SECRET_KEY_LEN, SIGNATURE_LEN,
};
use crate::error::Error;
use crate::wire::{
    bytes_equal, lemma_le16_round_trip, lemma_le32_round_trip, push_le16, push_le32, read_le16, read_le32,
    spec_le16, spec_le16_bytes, spec_le32, spec_le32_bytes,
};
use core::time::Duration;
use vstd::prelude::*;
use vstd::slice::{slice_subrange, slice_to_vec};

verus! {

/// The static public key of a responder, as the handshake carries it.
pub type StaticPublicKey = Vec<u8>;

/// The version of the certificate layout.
pub const CERTIFICATE_VERSION: u16 = 0;

/// Bytes of the signed header: version, start and end of validity.
pub const SIGNED_PART_HEADER_LEN: usize = 10;

/// Bytes of the message that carries the certificate in the handshake: the
/// header, the length of the signature in two bytes, the signature.
pub const SIGNATURE_MESSAGE_LEN: usize = 76;

/// The validity window of a certificate, in seconds since the Unix epoch.
#[derive(Debug, Clone, Copy, PartialEq, Eq, Structural)]
pub struct SignedPartHeader {
    pub version: u16,
    /// First second at which the certificate is valid.
    pub valid_from: u32,
    /// First second at which the certificate is valid no more.
    pub not_valid_after: u32,
}

impl SignedPartHeader {
    /// The ten bytes of the header: the three fields in order, each
    /// little-endian.
    pub open spec fn spec_to_bytes(self) -> Seq<u8> {
        spec_le16_bytes(self.version) + spec_le32_bytes(self.valid_from) + spec_le32_bytes(
            self.not_valid_after,
        )
    }

    /// The header that the first ten bytes of `s` spell.
    pub open spec fn spec_from_bytes(s: Seq<u8>) -> SignedPartHeader {
        SignedPartHeader {
            version: spec_le16(s, 0) as u16,
            valid_from: spec_le32(s, 2) as u32,
            not_valid_after: spec_le32(s, 6) as u32,
        }
    }

    /// The window that starts at `now` and lasts `valid_for` seconds, where
    /// its start and its end are below 2^32.
    pub open spec fn spec_with_duration_at(now: u64, valid_for: u64) -> Option<SignedPartHeader> {
        if now + valid_for <= u32::MAX {
            Some(
                SignedPartHeader {
                    version: CERTIFICATE_VERSION,
                    valid_from: now as u32,
                    not_valid_after: (now + valid_for) as u32,
                },
            )
        } else {
            None
        }
    }

    /// What presenting the certificate at `now` gives, as far as the window
    /// decides: the window is the half-open interval from `valid_from` to
    /// `not_valid_after`.
    pub open spec fn spec_verify_expiration(self, now: u64) -> Result<(), Error> {
        if now < self.valid_from {
            Err(Error::CertNotYetValid)
        } else if now >= self.not_valid_after {
            Err(Error::CertExpired)
        } else {
            Ok(())
        }
    }

    /// A window that starts at `now`, in seconds since the Unix epoch, and
    /// lasts `valid_for` seconds. Fails with `BadCertificate` exactly when
    /// the end of the window is not below 2^32.
    pub fn with_duration_at(now: u64, valid_for: u64) -> (res: Result<SignedPartHeader, Error>)
        ensures
            match res {
                Ok(header) => Self::spec_with_duration_at(now, valid_for) == Some(header),
                Err(e) => e == Error::BadCertificate && Self::spec_with_duration_at(
                    now,
                    valid_for,
                ) is None,
            },
    {
        if now > u32::MAX as u64 || valid_for > u32::MAX as u64 - now {
            return Err(Error::BadCertificate);
        }
        Ok(
            SignedPartHeader {
                version: CERTIFICATE_VERSION,
                valid_from: now as u32,
                not_valid_after: (now + valid_for) as u32,
            },
        )
    }

    /// The window that starts at the time that a clock shows, where it shows
    /// one, and lasts `valid_for` seconds.
    pub open spec fn spec_with_duration_when(now: Option<u64>, valid_for: u64) -> Option<
        SignedPartHeader,
    > {
        match now {
            Some(now) => Self::spec_with_duration_at(now, valid_for),
            None => None,
        }
    }

    /// A window that starts now, by the clock of the machine, and lasts the
    /// whole seconds of `valid_for`: what `with_duration_at` gives for the
    /// time of the clock. Fails with `BadCertificate` also where the clock
    /// stands before the Unix epoch.
    pub fn with_duration(valid_for: Duration) -> (res: Result<SignedPartHeader, Error>)
        ensures
            exists|now: Option<u64>, seconds: u64|
                match #[trigger] Self::spec_with_duration_when(now, seconds) {
                    Some(header) => res == Ok::<SignedPartHeader, Error>(header),
                    None => res == Err::<SignedPartHeader, Error>(Error::BadCertificate),
                },
    {
        let seconds = duration_secs(&valid_for);
        let now = unix_time_now();
        let res = match now {
            Some(now) => Self::with_duration_at(now, seconds),
            None => Err(Error::BadCertificate),
        };
        assert(match Self::spec_with_duration_when(now, seconds) {
            Some(header) => res == Ok::<SignedPartHeader, Error>(header),
            None => res == Err::<SignedPartHeader, Error>(Error::BadCertificate),
        });
        res
    }

    /// Checks the window at `now`, in seconds since the Unix epoch.
    pub fn verify_expiration(&self, now: u64) -> (res: Result<(), Error>)
        ensures
            res == self.spec_verify_expiration(now),
    {
        if now < self.valid_from as u64 {
            Err(Error::CertNotYetValid)
        } else if now >= self.not_valid_after as u64 {
            Err(Error::CertExpired)
        } else {
            Ok(())
        }
    }

    /// Appends the ten bytes of the header to `out`.
    pub fn serialize_to(&self, out: &mut Vec<u8>)
        ensures
            final(out)@ == old(out)@ + self.spec_to_bytes(),
    {
        push_le16(out, self.version);
        push_le32(out, self.valid_from);
        push_le32(out, self.not_valid_after);
        assert(out@ =~= old(out)@ + self.spec_to_bytes());
    }

    /// Reads a header from the first ten bytes of `bytes`.
    pub fn from_bytes(bytes: &[u8]) -> (header: SignedPartHeader)
        requires
            bytes@.len() >= SIGNED_PART_HEADER_LEN,
        ensures
            header == Self::spec_from_bytes(bytes@),
    {
        SignedPartHeader {
            version: read_le16(bytes, 0),
            valid_from: read_le32(bytes, 2),
            not_valid_after: read_le32(bytes, 6),
        }
    }
}

/// A header that is written and read again is the same header, whatever
/// follows it.
pub proof fn lemma_header_round_trip(header: SignedPartHeader, tail: Seq<u8>)
    ensures
        header.spec_to_bytes().len() == SIGNED_PART_HEADER_LEN,
        SignedPartHeader::spec_from_bytes(header.spec_to_bytes() + tail) == header,
{
    let a = spec_le16_bytes(header.version);
    let b = spec_le32_bytes(header.valid_from);
    let c = spec_le32_bytes(header.not_valid_after);
    let s = header.spec_to_bytes() + tail;
    let empty = Seq::<u8>::empty();
    assert(s =~= empty + a + (b + c + tail));
    lemma_le16_round_trip(empty, header.version, b + c + tail);
    assert(s =~= a + b + (c + tail));
    lemma_le32_round_trip(a, header.valid_from, c + tail);
    assert(s =~= (a + b) + c + tail);
    lemma_le32_round_trip(a + b, header.not_valid_after, tail);
}

/// The bytes that an authority signs: the header, the static key of the
/// responder, the public key of the authority.
pub open spec fn spec_signed_bytes(
    header: SignedPartHeader,
    pubkey: Seq<u8>,
    authority_public_key: Seq<u8>,
) -> Seq<u8> {
    header.spec_to_bytes() + pubkey + authority_public_key
}

/// What an authority signs.
#[derive(Debug, Clone, PartialEq, Eq)]
pub struct SignedPart {
    pub header: SignedPartHeader,
    /// The static public key of the responder.
    pub pubkey: StaticPublicKey,
    pub authority_public_key: Vec<u8>,
}

/// What a `SignedPart` holds.
pub struct SignedPartView {
    pub header: SignedPartHeader,
    pub pubkey: Seq<u8>,
    pub authority_public_key: Seq<u8>,
}

impl View for SignedPart {
    type V = SignedPartView;

    open spec fn view(&self) -> SignedPartView {
        SignedPartView {
            header: self.header,
            pubkey: self.pubkey@,
            authority_public_key: self.authority_public_key@,
        }
    }
}

impl SignedPartView {
    /// The bytes that are signed.
    pub open spec fn to_bytes(self) -> Seq<u8> {
        spec_signed_bytes(self.header, self.pubkey, self.authority_public_key)
    }
}

impl SignedPart {
    pub fn new(
        header: SignedPartHeader,
        pubkey: StaticPublicKey,
        authority_public_key: Vec<u8>,
    ) -> (part: SignedPart)
        ensures
            part.header == header,
            part.pubkey == pubkey,
            part.authority_public_key == authority_public_key,
    {
        SignedPart { header, pubkey, authority_public_key }
    }

    /// The bytes that are signed.
    pub fn serialize_to_buf(&self) -> (out: Vec<u8>)
        ensures
            out@ == self@.to_bytes(),
    {
        let mut out: Vec<u8> = Vec::new();
        self.header.serialize_to(&mut out);
        out.extend_from_slice(self.pubkey.as_slice());
        out.extend_from_slice(self.authority_public_key.as_slice());
        assert(out@ =~= self@.to_bytes());
        out
    }

    /// Signs the part with the keys of `authority`.
    ///
    /// Fails with `BadCertificate` exactly when the part names another
    /// authority than the one that signs.
    pub fn sign_with(&self, authority: &Authority) -> (res: Result<Vec<u8>, Error>)
        ensures
            match res {
                Ok(signature) => self@.authority_public_key == authority@.public && signature@
                    == ed25519_signature(authority@.secret, authority@.public, self@.to_bytes())
                    && signature@.len() == SIGNATURE_LEN,
                Err(e) => e == Error::BadCertificate && self@.authority_public_key
                    != authority@.public,
            },
    {
        if !bytes_equal(self.authority_public_key.as_slice(), authority.public_key()) {
            return Err(Error::BadCertificate);
        }
        let message = self.serialize_to_buf();
        Ok(authority.sign_bytes(message.as_slice()))
    }

    /// Whether `signature` is a signature of the part under the authority
    /// that the part names. Fails with `BadCertificate` exactly when it is
    /// not.
    pub fn verify(&self, signature: &[u8]) -> (res: Result<(), Error>)
        ensures
            res == (if ed25519_verifies(
                self@.authority_public_key,
                self@.to_bytes(),
                signature@,
            ) {
                Ok::<(), Error>(())
            } else {
                Err::<(), Error>(Error::BadCertificate)
            }),
    {
        let message = self.serialize_to_buf();
        if verify(self.authority_public_key.as_slice(), message.as_slice(), signature) {
            Ok(())
        } else {
            Err(Error::BadCertificate)
        }
    }

    /// Checks the window of the part at `now`, in seconds since the Unix
    /// epoch.
    pub fn verify_expiration(&self, now: u64) -> (res: Result<(), Error>)
        ensures
            res == self.header.spec_verify_expiration(now),
    {
        self.header.verify_expiration(now)
    }
}

/// The message that carries a certificate in the handshake: the window and
/// the signature. The keys are not in it: both sides know them otherwise.
#[derive(Debug, Clone, PartialEq, Eq)]
pub struct SignatureNoiseMessage {
    pub header: SignedPartHeader,
    pub signature: Vec<u8>,
}

/// What a `SignatureNoiseMessage` holds.
pub struct SignatureNoiseMessageView {
    pub header: SignedPartHeader,
    pub signature: Seq<u8>,
}

impl View for SignatureNoiseMessage {
    type V = SignatureNoiseMessageView;

    open spec fn view(&self) -> SignatureNoiseMessageView {
        SignatureNoiseMessageView { header: self.header, signature: self.signature@ }
    }
}

impl SignatureNoiseMessageView {
    /// The signature has the length that the layout gives it.
    pub open spec fn encodable(self) -> bool {
        self.signature.len() == SIGNATURE_LEN
    }

    /// The 76 bytes of the message.
    pub open spec fn to_bytes(self) -> Seq<u8> {
        self.header.spec_to_bytes() + spec_le16_bytes(SIGNATURE_LEN as u16) + self.signature
    }

    /// The message that `s` spells, where `s` has 76 bytes and announces a
    /// signature of 64.
    pub open spec fn from_bytes(s: Seq<u8>) -> Option<SignatureNoiseMessageView> {
        if s.len() == SIGNATURE_MESSAGE_LEN && spec_le16(s, SIGNED_PART_HEADER_LEN as int)
            == SIGNATURE_LEN {
            Some(
                SignatureNoiseMessageView {
                    header: SignedPartHeader::spec_from_bytes(s),
                    signature: s.subrange(12, SIGNATURE_MESSAGE_LEN as int),
                },
            )
        } else {
            None
        }
    }
}

impl SignatureNoiseMessage {
    /// Reads the message. Fails with `BadCertificate` exactly when there are
    /// not 76 bytes or the announced length of the signature is not 64.
    pub fn from_bytes(bytes: &[u8]) -> (res: Result<SignatureNoiseMessage, Error>)
        ensures
            match res {
                Ok(m) => SignatureNoiseMessageView::from_bytes(bytes@) == Some(m@),
                Err(e) => e == Error::BadCertificate && SignatureNoiseMessageView::from_bytes(
                    bytes@,
                ) is None,
            },
    {
        if bytes.len() != SIGNATURE_MESSAGE_LEN {
            return Err(Error::BadCertificate);
        }
        if read_le16(bytes, SIGNED_PART_HEADER_LEN) != SIGNATURE_LEN as u16 {
            return Err(Error::BadCertificate);
        }
        let header = SignedPartHeader::from_bytes(bytes);
        let signature = slice_to_vec(slice_subrange(bytes, 12, SIGNATURE_MESSAGE_LEN));
        Ok(SignatureNoiseMessage { header, signature })
    }

    /// Writes the message. Fails with `BadCertificate` exactly when the
    /// signature does not have 64 bytes.
    pub fn to_bytes(&self) -> (res: Result<Vec<u8>, Error>)
        ensures
            match res {
                Ok(out) => self@.encodable() && out@ == self@.to_bytes() && out@.len()
                    == SIGNATURE_MESSAGE_LEN,
                Err(e) => e == Error::BadCertificate && !self@.encodable(),
            },
    {
        if self.signature.len() != SIGNATURE_LEN {
            return Err(Error::BadCertificate);
        }
        let mut out: Vec<u8> = Vec::new();
        self.header.serialize_to(&mut out);
        push_le16(&mut out, SIGNATURE_LEN as u16);
        out.extend_from_slice(self.signature.as_slice());
        proof {
            lemma_header_round_trip(self.header, Seq::<u8>::empty());
            assert(out@ =~= self@.to_bytes());
        }
        Ok(out)
    }

    /// Writes the message into a buffer. Fails with `BadCertificate` exactly
    /// when the signature does not have 64 bytes.
    pub fn serialize_to_bytes_mut(&self) -> (res: Result<BytesMut, Error>)
        ensures
            match res {
                Ok(out) => self@.encodable() && bytes_mut_contents(out) == self@.to_bytes()
                    && bytes_mut_contents(out).len() == SIGNATURE_MESSAGE_LEN,
                Err(e) => e == Error::BadCertificate && !self@.encodable(),
            },
    {
        match self.to_bytes() {
            Ok(bytes) => Ok(bytes_mut_from_slice(bytes.as_slice())),
            Err(e) => Err(e),
        }
    }
}

/// A message that is written and read again is the same message.
pub proof fn lemma_signature_message_round_trip(m: SignatureNoiseMessageView)
    requires
        m.encodable(),
    ensures
        m.to_bytes().len() == SIGNATURE_MESSAGE_LEN,
        SignatureNoiseMessageView::from_bytes(m.to_bytes()) == Some(m),
{
    let h = m.header.spec_to_bytes();
    let l = spec_le16_bytes(SIGNATURE_LEN as u16);
    let s = m.to_bytes();
    lemma_header_round_trip(m.header, l + m.signature);
    assert(s =~= h + (l + m.signature));
    lemma_le16_round_trip(h, SIGNATURE_LEN as u16, m.signature);
    assert(s.subrange(12, SIGNATURE_MESSAGE_LEN as int) =~= m.signature);
}

/// A certificate: what was signed, and the signature.
#[derive(Debug, Clone, PartialEq, Eq)]
pub struct Certificate {
    pub signed_part: SignedPart,
    pub signature: Vec<u8>,
}

/// What a `Certificate` holds.
pub struct CertificateView {
    pub signed_part: SignedPartView,
    pub signature: Seq<u8>,
}

impl View for Certificate {
    type V = CertificateView;

    open spec fn view(&self) -> CertificateView {
        CertificateView { signed_part: self.signed_part@, signature: self.signature@ }
    }
}

impl CertificateView {
    /// What presenting the certificate at `now` gives: in this order, the
    /// error of the window, `BadCertificate` for a signature that does not
    /// verify, success.
    pub open spec fn validate_at(self, now: u64) -> Result<(), Error> {
        match self.signed_part.header.spec_verify_expiration(now) {
            Err(e) => Err(e),
            Ok(()) => {
                if ed25519_verifies(
                    self.signed_part.authority_public_key,
                    self.signed_part.to_bytes(),
                    self.signature,
                ) {
                    Ok(())
                } else {
                    Err(Error::BadCertificate)
                }
            },
        }
    }
}

impl CertificateView {
    /// What presenting the certificate gives at the time that a clock shows,
    /// where it shows one; a clock that shows none makes the certificate not
    /// yet valid.
    pub open spec fn validate_when(self, now: Option<u64>) -> Result<(), Error> {
        match now {
            Some(now) => self.validate_at(now),
            None => Err(Error::CertNotYetValid),
        }
    }
}

impl Certificate {
    pub fn new(signed_part: SignedPart, signature: Vec<u8>) -> (certificate: Certificate)
        ensures
            certificate.signed_part == signed_part,
            certificate.signature == signature,
    {
        Certificate { signed_part, signature }
    }

    /// Puts a certificate together from what the handshake carried and from
    /// what the initiator knows: the static key that the handshake gave it,
    /// and the authority key that it was configured with.
    pub fn from_noise_message(
        signature_noise_message: SignatureNoiseMessage,
        pubkey: StaticPublicKey,
        authority_public_key: Vec<u8>,
    ) -> (certificate: Certificate)
        ensures
            certificate@.signed_part.header == signature_noise_message@.header,
            certificate@.signed_part.pubkey == pubkey@,
            certificate@.signed_part.authority_public_key == authority_public_key@,
            certificate@.signature == signature_noise_message@.signature,
    {
        Certificate {
            signed_part: SignedPart {
                header: signature_noise_message.header,
                pubkey,
                authority_public_key,
            },
            signature: signature_noise_message.signature,
        }
    }

    /// The part of the certificate that goes into the handshake.
    pub fn build_noise_message(self) -> (message: SignatureNoiseMessage)
        ensures
            message@.header == self@.signed_part.header,
            message@.signature == self@.signature,
    {
        SignatureNoiseMessage { header: self.signed_part.header, signature: self.signature }
    }

    /// Validates the certificate at `now`, in seconds since the Unix epoch.
    pub fn validate_at(&self, now: u64) -> (res: Result<(), Error>)
        ensures
            res == self@.validate_at(now),
    {
        match self.signed_part.verify_expiration(now) {
            Err(e) => Err(e),
            Ok(()) => self.signed_part.verify(self.signature.as_slice()),
        }
    }

    /// Validates the certificate now, by the clock of the machine: what
    /// `validate_at` gives for the time of the clock, and `CertNotYetValid`
    /// where the clock stands before the Unix epoch.
    pub fn validate(&self) -> (res: Result<(), Error>)
        ensures
            exists|now: Option<u64>| res == #[trigger] self@.validate_when(now),
    {
        let now = unix_time_now();
        let res = match now {
            Some(now) => self.validate_at(now),
            None => Err(Error::CertNotYetValid),
        };
        assert(res == self@.validate_when(now));
        res
    }
}

/// A public key of an authority: 32 bytes that Ed25519 accepts as a public
/// key.
#[derive(Debug)]
pub struct AuthorityPublicKey {
    bytes: Vec<u8>,
}

impl View for AuthorityPublicKey {
    type V = Seq<u8>;

    closed spec fn view(&self) -> Seq<u8> {
        self.bytes@
    }
}

impl AuthorityPublicKey {
    #[verifier::type_invariant]
    spec fn type_invariant(self) -> bool {
        self.bytes@.len() == PUBLIC_KEY_LEN && ed25519_public_key_valid(self.bytes@)
    }

    /// Reads a public key; `None` exactly for bytes that Ed25519 does not
    /// accept as one.
    pub fn from_bytes(bytes: &[u8]) -> (key: Option<AuthorityPublicKey>)
        ensures
            match key {
                Some(key) => key@ == bytes@ && ed25519_public_key_valid(bytes@),
                None => !ed25519_public_key_valid(bytes@),
            },
    {
        if public_key_valid(bytes) {
            Some(AuthorityPublicKey { bytes: slice_to_vec(bytes) })
        } else {
            None
        }
    }

    /// The bytes of the key.
    pub fn as_bytes(&self) -> (bytes: &[u8])
        ensures
            bytes@ == self@,
            bytes@.len() == PUBLIC_KEY_LEN,
            ed25519_public_key_valid(self@),
    {
        proof {
            use_type_invariant(self);
        }
        self.bytes.as_slice()
    }
}

/// The signing keys of an authority.
#[derive(Debug)]
pub struct Authority {
    public: Vec<u8>,
    secret: Vec<u8>,
}

/// What an `Authority` holds.
pub struct AuthorityView {
    pub public: Seq<u8>,
    pub secret: Seq<u8>,
}

impl View for Authority {
    type V = AuthorityView;

    closed spec fn view(&self) -> AuthorityView {
        AuthorityView { public: self.public@, secret: self.secret@ }
    }
}

impl AuthorityView {
    /// The certificate that the authority issues for `pubkey` at the time
    /// that a clock shows, where it shows one.
    pub open spec fn new_cert_when(self, pubkey: Seq<u8>, now: Option<u64>, valid_for: u64) -> Option<
        SignatureNoiseMessageView,
    > {
        match now {
            Some(now) => self.new_cert_at(pubkey, now, valid_for),
            None => None,
        }
    }

    /// The authority can issue a certificate at `now` for `pubkey`, valid
    /// for `valid_for` seconds, and the signature of that certificate
    /// verifies under the public key of the authority: as it does where the
    /// two keys of the authority belong together.
    pub open spec fn issues_verifiably(self, pubkey: Seq<u8>, now: u64, valid_for: u64) -> bool {
        self.new_cert_at(pubkey, now, valid_for) matches Some(message) && ed25519_verifies(
            self.public,
            spec_signed_bytes(message.header, pubkey, self.public),
            message.signature,
        )
    }

    /// Both keys have 32 bytes and the public key is one that Ed25519
    /// accepts.
    pub open spec fn well_formed(self) -> bool {
        &&& self.public.len() == PUBLIC_KEY_LEN
        &&& self.secret.len() == SECRET_KEY_LEN
        &&& ed25519_public_key_valid(self.public)
    }

    /// The certificate that the authority issues at `now` for `pubkey`, valid
    /// for `valid_for` seconds, where the window ends below 2^32.
    pub open spec fn new_cert_at(self, pubkey: Seq<u8>, now: u64, valid_for: u64) -> Option<
        SignatureNoiseMessageView,
    > {
        match SignedPartHeader::spec_with_duration_at(now, valid_for) {
            None => None,
            Some(header) => Some(
                SignatureNoiseMessageView {
                    header,
                    signature: ed25519_signature(
                        self.secret,
                        self.public,
                        spec_signed_bytes(header, pubkey, self.public),
                    ),
                },
            ),
        }
    }
}

/// The certificate that a responder with the static key `pubkey` presents
/// to an initiator that trusts `authority_public_key`, from the message that
/// the handshake carried.
pub open spec fn spec_presented(
    message: SignatureNoiseMessageView,
    pubkey: Seq<u8>,
    authority_public_key: Seq<u8>,
) -> CertificateView {
    CertificateView {
        signed_part: SignedPartView { header: message.header, pubkey, authority_public_key },
        signature: message.signature,
    }
}

impl Authority {
    #[verifier::type_invariant]
    spec fn type_invariant(self) -> bool {
        self@.well_formed()
    }

    /// An authority from its public key and its private key.
    pub fn new(public: AuthorityPublicKey, secret: [u8; 32]) -> (authority: Authority)
        ensures
            authority@.public == public@,
            authority@.secret == secret@,
            authority@.well_formed(),
    {
        let public_bytes = slice_to_vec(public.as_bytes());
        Authority { public: public_bytes, secret: slice_to_vec(secret.as_slice()) }
    }

    /// An authority from its public and its private key; `None` exactly when
    /// a key does not have 32 bytes or Ed25519 does not accept the public
    /// key.
    pub fn from_raw_k(pub_k: &[u8], priv_k: &[u8]) -> (authority: Option<Authority>)
        ensures
            match authority {
                Some(a) => a@.public == pub_k@ && a@.secret == priv_k@ && a@.well_formed(),
                None => !(AuthorityView { public: pub_k@, secret: priv_k@ }).well_formed(),
            },
    {
        if pub_k.len() != PUBLIC_KEY_LEN || priv_k.len() != SECRET_KEY_LEN {
            return None;
        }
        if !public_key_valid(pub_k) {
            return None;
        }
        Some(Authority { public: slice_to_vec(pub_k), secret: slice_to_vec(priv_k) })
    }

    /// The public key of the authority.
    pub fn public_key(&self) -> (key: &[u8])
        ensures
            key@ == self@.public,
            self@.well_formed(),
    {
        proof {
            use_type_invariant(self);
        }
        self.public.as_slice()
    }

    /// Signs `message` with the keys of the authority.
    pub fn sign_bytes(&self, message: &[u8]) -> (signature: Vec<u8>)
        ensures
            signature@ == ed25519_signature(self@.secret, self@.public, message@),
            signature@.len() == SIGNATURE_LEN,
    {
        proof {
            use_type_invariant(self);
        }
        match sign(self.secret.as_slice(), self.public.as_slice(), message) {
            Some(signature) => signature,
            // the keys of an authority are keys that sign
            None => unreached(),
        }
    }

    /// Issues a certificate for `pub_k` that is valid from `now`, in seconds
    /// since the Unix epoch, for `valid_for` seconds. Fails with
    /// `BadCertificate` exactly when the window does not end below 2^32.
    pub fn new_cert_at(&self, pub_k: &[u8], now: u64, valid_for: u64) -> (res: Result<
        SignatureNoiseMessage,
        Error,
    >)
        ensures
            match res {
                Ok(m) => self@.new_cert_at(pub_k@, now, valid_for) == Some(m@) && m@.encodable(),
                Err(e) => e == Error::BadCertificate && self@.new_cert_at(pub_k@, now, valid_for)
                    is None,
            },
    {
        let header = match SignedPartHeader::with_duration_at(now, valid_for) {
            Ok(header) => header,
            Err(e) => {
                return Err(e);
            },
        };
        let signed_part = SignedPart::new(
            header,
            slice_to_vec(pub_k),
            slice_to_vec(self.public_key()),
        );
        let message = signed_part.serialize_to_buf();
        let signature = self.sign_bytes(message.as_slice());
        Ok(Certificate::new(signed_part, signature).build_noise_message())
    }

    /// Issues a certificate as `new_cert_at` does, verifies its signature
    /// under the public key of the authority, and hands it out only if the
    /// signature verifies: with keys that do not belong together the
    /// authority would issue certificates that nobody accepts.
    ///
    /// Fails with `BadCertificate` exactly when the window does not end below
    /// 2^32 or the signature does not verify. A certificate that is handed
    /// out, presented for the same static key to an initiator that trusts
    /// the authority, is valid at every instant from `now` up to, but not
    /// including, `now + valid_for`, and at no other.
    pub fn new_verified_cert_at(&self, pub_k: &[u8], now: u64, valid_for: u64) -> (res: Result<
        SignatureNoiseMessage,
        Error,
    >)
        ensures
            res is Ok <==> self@.issues_verifiably(pub_k@, now, valid_for),
            match res {
                Ok(m) => {
                    &&& self@.new_cert_at(pub_k@, now, valid_for) == Some(m@)
                    &&& m@.encodable()
                    &&& forall|instant: u64|
                        (#[trigger] spec_presented(m@, pub_k@, self@.public).validate_at(instant))
                            is Ok <==> now <= instant < now + valid_for
                },
                Err(e) => e == Error::BadCertificate,
            },
    {
        let message = match self.new_cert_at(pub_k, now, valid_for) {
            Ok(message) => message,
            Err(e) => {
                return Err(e);
            },
        };
        let signed_part = SignedPart::new(
            message.header,
            slice_to_vec(pub_k),
            slice_to_vec(self.public_key()),
        );
        match signed_part.verify(message.signature.as_slice()) {
            Ok(()) => {
                proof {
                    assert forall|instant: u64|
                        (#[trigger] spec_presented(message@, pub_k@, self@.public).validate_at(
                            instant,
                        )) is Ok <==> now <= instant < now + valid_for by {
                        lemma_issued_certificate_valid_in_window(
                            self@,
                            pub_k@,
                            now,
                            valid_for,
                            instant,
                        );
                    }
                }
                Ok(message)
            },
            Err(e) => Err(e),
        }
    }

    /// Issues a certificate for `pub_k` that is valid from now, by the clock
    /// of the machine, for the whole seconds of `duration`: what
    /// `new_cert_at` gives for the time of the clock. Fails with
    /// `BadCertificate` also where the clock stands before the Unix epoch.
    pub fn new_cert_from_raw(&self, pub_k: &[u8], duration: Duration) -> (res: Result<
        SignatureNoiseMessage,
        Error,
    >)
        ensures
            exists|now: Option<u64>, seconds: u64|
                match #[trigger] self@.new_cert_when(pub_k@, now, seconds) {
                    Some(message) => res matches Ok(m) && m@ == message && m@.encodable(),
                    None => res matches Err(e) && e == Error::BadCertificate,
                },
    {
        let seconds = duration_secs(&duration);
        let now = unix_time_now();
        let res = match now {
            Some(now) => self.new_cert_at(pub_k, now, seconds),
            None => Err(Error::BadCertificate),
        };
        assert(match self@.new_cert_when(pub_k@, now, seconds) {
            Some(message) => res matches Ok(m) && m@ == message && m@.encodable(),
            None => res matches Err(e) && e == Error::BadCertificate,
        });
        res
    }

    /// Issues a certificate for `pub_k` that is valid from now, by the clock
    /// of the machine, for the whole seconds of `duration`.
    pub fn new_cert(&self, pub_k: StaticPublicKey, duration: Duration) -> (res: Result<
        SignatureNoiseMessage,
        Error,
    >)
        ensures
            exists|now: Option<u64>, seconds: u64|
                match #[trigger] self@.new_cert_when(pub_k@, now, seconds) {
                    Some(message) => res matches Ok(m) && m@ == message && m@.encodable(),
                    None => res matches Err(e) && e == Error::BadCertificate,
                },
    {
        self.new_cert_from_raw(pub_k.as_slice(), duration)
    }
}

/// A certificate that an authority issues at `issued` for a static key, for
/// `valid_for` seconds, with a signature that verifies under its public key,
/// and that the responder with that key presents to an initiator that trusts
/// the authority, is valid at every instant from `issued` up to, but not
/// including, `issued + valid_for`, and at no other. Before `issued` it is
/// not yet valid; from `issued + valid_for` on it is expired.
pub proof fn lemma_issued_certificate_valid_in_window(
    authority: AuthorityView,
    pubkey: Seq<u8>,
    issued: u64,
    valid_for: u64,
    instant: u64,
)
    requires
        authority.issues_verifiably(pubkey, issued, valid_for),
    ensures
        ({
            let message = authority.new_cert_at(pubkey, issued, valid_for).unwrap();
            let presented = spec_presented(message, pubkey, authority.public);
            &&& presented.validate_at(instant) is Ok <==> issued <= instant < issued + valid_for
            &&& instant < issued ==> presented.validate_at(instant) == Err::<(), Error>(
                Error::CertNotYetValid,
            )
            &&& instant >= issued + valid_for ==> presented.validate_at(instant) == Err::<
                (),
                Error,
            >(Error::CertExpired)
        }),
{
}

/// A certificate that lasts no time is valid at no instant: it is not yet
/// valid before it was issued and expired from then on.
pub proof fn lemma_empty_window_never_valid(header: SignedPartHeader, instant: u64)
    requires
        header.not_valid_after <= header.valid_from,
    ensures
        header.spec_verify_expiration(instant) is Err,
        instant >= header.valid_from ==> header.spec_verify_expiration(instant) == Err::<
            (),
            Error,
        >(Error::CertExpired),
{
}

} // verus!
