use core::time::Duration;
use std::time::{SystemTime, UNIX_EPOCH};
use sv2_proxy_core::auth::{
    Authority, AuthorityPublicKey, Certificate, SignatureNoiseMessage, SignedPart,
    SignedPartHeader, CERTIFICATE_VERSION, SIGNATURE_MESSAGE_LEN, SIGNED_PART_HEADER_LEN,
};
use sv2_proxy_core::wire::bytes_equal;
use sv2_proxy_core::clock::unix_time_now;
use sv2_proxy_core::ed25519::random_keypair;
use sv2_proxy_core::error::Error;
use sv2_proxy_core::handshake::{check_remote_certificate, second_flight_outcome, StepResult};

fn authority() -> (Authority, [u8; 32]) {
    let (public, private) = random_keypair();
    (
        Authority::from_raw_k(&public, &private).expect("generated keys are accepted"),
        public,
    )
}

fn presented(
    message: &SignatureNoiseMessage,
    static_key: &[u8],
    authority_public: &[u8],
) -> Certificate {
    Certificate::from_noise_message(message.clone(), static_key.to_vec(), authority_public.to_vec())
}

#[test]
fn certificate_message_has_its_layout() {
    let message = SignatureNoiseMessage {
        header: SignedPartHeader {
            version: 0,
            valid_from: 0x0102_0304,
            not_valid_after: 0x0a0b_0c0d,
        },
        signature: (0u8..64).collect(),
    };
    let bytes = message.to_bytes().unwrap();
    assert_eq!(bytes.len(), 76);
    assert_eq!(SIGNATURE_MESSAGE_LEN, 76);
    assert_eq!(SIGNED_PART_HEADER_LEN, 10);
    assert_eq!(CERTIFICATE_VERSION, 0);
    let mut expected = vec![0u8, 0, 4, 3, 2, 1, 0x0d, 0x0c, 0x0b, 0x0a, 64, 0];
    expected.extend(0u8..64);
    assert_eq!(bytes, expected);
    assert_eq!(SignatureNoiseMessage::from_bytes(&bytes), Ok(message));
}

#[test]
fn certificate_message_with_a_version_round_trips() {
    let message = SignatureNoiseMessage {
        header: SignedPartHeader {
            version: 0x1234,
            valid_from: u32::MAX,
            not_valid_after: 0,
        },
        signature: vec![0xee; 64],
    };
    let bytes = message.to_bytes().unwrap();
    assert_eq!(&bytes[..2], &[0x34, 0x12]);
    assert_eq!(SignatureNoiseMessage::from_bytes(&bytes), Ok(message));
}

#[test]
fn malformed_certificate_messages_are_refused() {
    let message = SignatureNoiseMessage {
        header: SignedPartHeader {
            version: 0,
            valid_from: 1,
            not_valid_after: 2,
        },
        signature: vec![7u8; 64],
    };
    let bytes = message.to_bytes().unwrap();
    // wrong signature length announced
    for announced in [[63u8, 0], [65, 0], [0, 0], [64, 1]] {
        let mut wrong = bytes.clone();
        wrong[10] = announced[0];
        wrong[11] = announced[1];
        assert_eq!(
            SignatureNoiseMessage::from_bytes(&wrong),
            Err(Error::BadCertificate)
        );
    }
    // wrong total length
    assert_eq!(
        SignatureNoiseMessage::from_bytes(&bytes[..75]),
        Err(Error::BadCertificate)
    );
    let mut longer = bytes.clone();
    longer.push(0);
    assert_eq!(
        SignatureNoiseMessage::from_bytes(&longer),
        Err(Error::BadCertificate)
    );
    assert_eq!(
        SignatureNoiseMessage::from_bytes(&[]),
        Err(Error::BadCertificate)
    );
    // a signature that is not 64 bytes cannot be written
    let short = SignatureNoiseMessage {
        header: message.header,
        signature: vec![7u8; 63],
    };
    assert_eq!(short.to_bytes(), Err(Error::BadCertificate));
}

#[test]
fn signed_bytes_are_header_static_key_authority_key() {
    let header = SignedPartHeader {
        version: 0,
        valid_from: 0x11223344,
        not_valid_after: 0x55667788,
    };
    let part = SignedPart::new(header, vec![0xaa; 32], vec![0xbb; 32]);
    let mut expected = vec![0u8, 0, 0x44, 0x33, 0x22, 0x11, 0x88, 0x77, 0x66, 0x55];
    expected.extend(vec![0xaa; 32]);
    expected.extend(vec![0xbb; 32]);
    assert_eq!(part.serialize_to_buf(), expected);
    let mut out = vec![9u8];
    header.serialize_to(&mut out);
    assert_eq!(out, vec![9u8, 0, 0, 0x44, 0x33, 0x22, 0x11, 0x88, 0x77, 0x66, 0x55]);
    assert_eq!(SignedPartHeader::from_bytes(&out[1..]), header);
}

#[test]
fn window_is_half_open() {
    let header = SignedPartHeader::with_duration_at(1000, 3600).unwrap();
    assert_eq!(
        header,
        SignedPartHeader {
            version: 0,
            valid_from: 1000,
            not_valid_after: 4600
        }
    );
    assert_eq!(header.verify_expiration(0), Err(Error::CertNotYetValid));
    assert_eq!(header.verify_expiration(999), Err(Error::CertNotYetValid));
    assert_eq!(header.verify_expiration(1000), Ok(()));
    assert_eq!(header.verify_expiration(4599), Ok(()));
    assert_eq!(header.verify_expiration(4600), Err(Error::CertExpired));
    assert_eq!(header.verify_expiration(u64::MAX), Err(Error::CertExpired));
}

#[test]
fn empty_window_is_never_valid() {
    let header = SignedPartHeader::with_duration_at(1000, 0).unwrap();
    assert_eq!(header.valid_from, header.not_valid_after);
    assert_eq!(header.verify_expiration(999), Err(Error::CertNotYetValid));
    assert_eq!(header.verify_expiration(1000), Err(Error::CertExpired));
    assert_eq!(header.verify_expiration(1001), Err(Error::CertExpired));
}

#[test]
fn window_must_end_below_two_to_the_32() {
    assert_eq!(
        SignedPartHeader::with_duration_at(u32::MAX as u64, 0),
        Ok(SignedPartHeader {
            version: 0,
            valid_from: u32::MAX,
            not_valid_after: u32::MAX
        })
    );
    assert_eq!(
        SignedPartHeader::with_duration_at(u32::MAX as u64 - 5, 5).map(|h| h.not_valid_after),
        Ok(u32::MAX)
    );
    assert_eq!(
        SignedPartHeader::with_duration_at(u32::MAX as u64, 1),
        Err(Error::BadCertificate)
    );
    assert_eq!(
        SignedPartHeader::with_duration_at(u32::MAX as u64 + 1, 0),
        Err(Error::BadCertificate)
    );
    assert_eq!(
        SignedPartHeader::with_duration_at(0, u64::MAX),
        Err(Error::BadCertificate)
    );
    assert_eq!(
        SignedPartHeader::with_duration_at(u64::MAX, u64::MAX),
        Err(Error::BadCertificate)
    );
}

#[test]
fn issued_certificate_is_valid_exactly_in_its_window() {
    let (authority, authority_public) = authority();
    let static_key = vec![0x42u8; 32];
    let message = authority.new_cert_at(&static_key, 1000, 3600).unwrap();
    assert_eq!(message.header.version, 0);
    assert_eq!(message.header.valid_from, 1000);
    assert_eq!(message.header.not_valid_after, 4600);
    assert_eq!(message.signature.len(), 64);
    let certificate = presented(&message, &static_key, &authority_public);
    for (instant, expected) in [
        (0u64, Err(Error::CertNotYetValid)),
        (999, Err(Error::CertNotYetValid)),
        (1000, Ok(())),
        (1001, Ok(())),
        (2800, Ok(())),
        (4599, Ok(())),
        (4600, Err(Error::CertExpired)),
        (4601, Err(Error::CertExpired)),
        (u64::MAX, Err(Error::CertExpired)),
    ] {
        assert_eq!(certificate.validate_at(instant), expected, "at {}", instant);
    }
    // one second is the shortest window
    let message = authority.new_cert_at(&static_key, 7, 1).unwrap();
    let certificate = presented(&message, &static_key, &authority_public);
    assert_eq!(certificate.validate_at(6), Err(Error::CertNotYetValid));
    assert_eq!(certificate.validate_at(7), Ok(()));
    assert_eq!(certificate.validate_at(8), Err(Error::CertExpired));
}

#[test]
fn certificate_binds_static_key_and_authority() {
    let (authority, authority_public) = authority();
    let (_, other_public) = authority_pair();
    let static_key = vec![0x42u8; 32];
    let message = authority.new_cert_at(&static_key, 1000, 3600).unwrap();
    // another static key
    let mut other_static = static_key.clone();
    other_static[31] ^= 1;
    assert_eq!(
        presented(&message, &other_static, &authority_public).validate_at(2000),
        Err(Error::BadCertificate)
    );
    // another authority
    assert_eq!(
        presented(&message, &static_key, &other_public).validate_at(2000),
        Err(Error::BadCertificate)
    );
    // another window
    let mut moved = message.clone();
    moved.header.not_valid_after += 1;
    assert_eq!(
        presented(&moved, &static_key, &authority_public).validate_at(2000),
        Err(Error::BadCertificate)
    );
    let mut versioned = message.clone();
    versioned.header.version = 1;
    assert_eq!(
        presented(&versioned, &static_key, &authority_public).validate_at(2000),
        Err(Error::BadCertificate)
    );
    // another signature, in each of its halves
    for at in [0usize, 31, 32, 63] {
        let mut forged = message.clone();
        forged.signature[at] ^= 0x04;
        assert_eq!(
            presented(&forged, &static_key, &authority_public).validate_at(2000),
            Err(Error::BadCertificate),
            "signature byte {}",
            at
        );
    }
    // a signature of another length
    let mut cut = message.clone();
    cut.signature.pop();
    assert_eq!(
        presented(&cut, &static_key, &authority_public).validate_at(2000),
        Err(Error::BadCertificate)
    );
    // bytes that are no authority key
    assert_eq!(
        presented(&message, &static_key, &authority_public[..31]).validate_at(2000),
        Err(Error::BadCertificate)
    );
    // and the certificate itself is fine
    assert_eq!(
        presented(&message, &static_key, &authority_public).validate_at(2000),
        Ok(())
    );
}

fn authority_pair() -> (Authority, [u8; 32]) {
    authority()
}

#[test]
fn window_is_checked_before_the_signature() {
    let (authority, authority_public) = authority();
    let static_key = vec![1u8; 32];
    let mut message = authority.new_cert_at(&static_key, 1000, 10).unwrap();
    message.signature[0] ^= 1;
    let certificate = presented(&message, &static_key, &authority_public);
    assert_eq!(certificate.validate_at(999), Err(Error::CertNotYetValid));
    assert_eq!(certificate.validate_at(1010), Err(Error::CertExpired));
    assert_eq!(certificate.validate_at(1005), Err(Error::BadCertificate));
}

#[test]
fn signing_is_a_function_of_keys_and_message() {
    let (public, private) = random_keypair();
    let one = Authority::from_raw_k(&public, &private).unwrap();
    let two = Authority::new(AuthorityPublicKey::from_bytes(&public).unwrap(), private);
    assert_eq!(one.public_key(), &public[..]);
    assert_eq!(two.public_key(), &public[..]);
    let a = one.new_cert_at(&[5u8; 32], 10, 20).unwrap();
    let b = two.new_cert_at(&[5u8; 32], 10, 20).unwrap();
    assert_eq!(a, b);
    assert_eq!(one.sign_bytes(b"abc"), two.sign_bytes(b"abc"));
    assert_ne!(one.sign_bytes(b"abc"), one.sign_bytes(b"abd"));
    assert_ne!(one.sign_bytes(b"abc"), b"abc".to_vec());
    let c = one.new_cert_at(&[6u8; 32], 10, 20).unwrap();
    assert_ne!(a.signature, c.signature);
    assert_eq!(a.header, c.header);
    let (other, _) = authority();
    assert_ne!(other.sign_bytes(b"abc"), one.sign_bytes(b"abc"));
}

#[test]
fn part_is_signed_only_by_the_authority_it_names() {
    let (authority, authority_public) = authority();
    let (other, _) = authority_pair();
    let header = SignedPartHeader::with_duration_at(5, 5).unwrap();
    let part = SignedPart::new(header, vec![3u8; 32], authority_public.to_vec());
    let signature = part.sign_with(&authority).unwrap();
    assert_eq!(signature.len(), 64);
    assert_eq!(part.verify(&signature), Ok(()));
    assert_eq!(part.verify(&signature[..63]), Err(Error::BadCertificate));
    assert_eq!(part.verify_expiration(4), Err(Error::CertNotYetValid));
    assert_eq!(part.verify_expiration(5), Ok(()));
    assert_eq!(part.sign_with(&other), Err(Error::BadCertificate));
    let certificate = Certificate::new(part.clone(), signature.clone());
    assert_eq!(certificate.validate_at(9), Ok(()));
    let message = certificate.build_noise_message();
    assert_eq!(message.header, header);
    assert_eq!(message.signature, signature);
}

#[test]
fn authority_needs_two_keys_of_32_bytes() {
    let (public, private) = random_keypair();
    assert!(Authority::from_raw_k(&public, &private).is_some());
    assert!(Authority::from_raw_k(&public[..31], &private).is_none());
    assert!(Authority::from_raw_k(&public, &private[..31]).is_none());
    assert!(Authority::from_raw_k(&[], &[]).is_none());
    let mut longer = private.to_vec();
    longer.push(0);
    assert!(Authority::from_raw_k(&public, &longer).is_none());
    assert!(AuthorityPublicKey::from_bytes(&public).is_some());
    assert!(AuthorityPublicKey::from_bytes(&public[..31]).is_none());
    assert_eq!(
        AuthorityPublicKey::from_bytes(&public).unwrap().as_bytes(),
        &public[..]
    );
}

#[test]
fn random_keypairs_differ() {
    let (public_a, private_a) = random_keypair();
    let (public_b, private_b) = random_keypair();
    assert_ne!(public_a, public_b);
    assert_ne!(private_a, private_b);
    assert_ne!(public_a, private_a);
}

#[test]
fn certificate_from_the_clock_is_valid_now() {
    let before = SystemTime::now()
        .duration_since(UNIX_EPOCH)
        .unwrap()
        .as_secs();
    let (authority, authority_public) = authority();
    let static_key = vec![9u8; 32];
    let message = authority
        .new_cert(static_key.clone(), Duration::from_millis(3_600_900))
        .unwrap();
    let after = SystemTime::now()
        .duration_since(UNIX_EPOCH)
        .unwrap()
        .as_secs();
    assert!(before <= message.header.valid_from as u64);
    assert!(message.header.valid_from as u64 <= after);
    // whole seconds of the duration
    assert_eq!(
        message.header.not_valid_after - message.header.valid_from,
        3600
    );
    assert_eq!(message.header.version, 0);
    let certificate = presented(&message, &static_key, &authority_public);
    assert_eq!(certificate.validate(), Ok(()));
    let raw = authority
        .new_cert_from_raw(&static_key, Duration::from_secs(0))
        .unwrap();
    assert_eq!(raw.header.valid_from, raw.header.not_valid_after);
    assert_eq!(
        presented(&raw, &static_key, &authority_public).validate(),
        Err(Error::CertExpired)
    );
    let header = SignedPartHeader::with_duration(Duration::from_secs(10)).unwrap();
    assert_eq!(header.not_valid_after - header.valid_from, 10);
    assert!(before <= header.valid_from as u64);
    // a window that cannot end below 2^32
    assert_eq!(
        SignedPartHeader::with_duration(Duration::from_secs(u32::MAX as u64)),
        Err(Error::BadCertificate)
    );
    assert_eq!(
        authority.new_cert(static_key, Duration::from_secs(u64::MAX)),
        Err(Error::BadCertificate)
    );
}

#[test]
fn clock_gives_seconds_since_the_epoch() {
    let before = SystemTime::now()
        .duration_since(UNIX_EPOCH)
        .unwrap()
        .as_secs();
    let now = unix_time_now().unwrap();
    let after = SystemTime::now()
        .duration_since(UNIX_EPOCH)
        .unwrap()
        .as_secs();
    assert!(before <= now && now <= after);
}

#[test]
fn remote_certificate_is_checked_in_order() {
    let (authority, authority_public) = authority();
    let static_key = vec![0x42u8; 32];
    let message = authority
        .new_cert_at(&static_key, 1000, 3600)
        .unwrap()
        .to_bytes()
        .unwrap();
    let check = |key: Option<Vec<u8>>, message: &[u8], now: Option<u64>| {
        check_remote_certificate(key, message, &authority_public, now)
    };
    assert_eq!(check(Some(static_key.clone()), &message, Some(1000)), Ok(()));
    // no static key from the handshake: before anything else
    assert_eq!(check(None, &[], None), Err(Error::HandshakeCrypto));
    assert_eq!(check(None, &message, Some(1000)), Err(Error::HandshakeCrypto));
    // no certificate message: before the clock
    assert_eq!(
        check(Some(static_key.clone()), &message[..75], None),
        Err(Error::BadCertificate)
    );
    // no time
    assert_eq!(
        check(Some(static_key.clone()), &message, None),
        Err(Error::CertNotYetValid)
    );
    assert_eq!(
        check(Some(static_key.clone()), &message, Some(999)),
        Err(Error::CertNotYetValid)
    );
    assert_eq!(
        check(Some(static_key.clone()), &message, Some(4600)),
        Err(Error::CertExpired)
    );
    assert_eq!(
        check(Some(vec![0x43u8; 32]), &message, Some(1000)),
        Err(Error::BadCertificate)
    );
}

#[test]
fn bytes_are_compared_whole() {
    assert!(bytes_equal(&[], &[]));
    assert!(bytes_equal(&[1, 2, 3], &[1, 2, 3]));
    assert!(!bytes_equal(&[1, 2, 3], &[1, 2]));
    assert!(!bytes_equal(&[1, 2], &[1, 2, 3]));
    assert!(!bytes_equal(&[1, 2, 3], &[1, 2, 4]));
    assert!(!bytes_equal(&[0, 2, 3], &[1, 2, 3]));
}

#[test]
fn certificate_message_is_written_into_a_buffer() {
    let message = SignatureNoiseMessage {
        header: SignedPartHeader {
            version: 0,
            valid_from: 5,
            not_valid_after: 9,
        },
        signature: (100u8..164).collect(),
    };
    let buffer = message.serialize_to_bytes_mut().unwrap();
    assert_eq!(buffer.len(), 76);
    assert_eq!(&buffer[..], &message.to_bytes().unwrap()[..]);
    assert_eq!(buffer[10], 64);
    assert_eq!(buffer[12], 100);
    assert_eq!(buffer[75], 163);
    let frozen = buffer.freeze();
    assert_eq!(SignatureNoiseMessage::from_bytes(&frozen), Ok(message.clone()));
    let short = SignatureNoiseMessage {
        header: message.header,
        signature: vec![],
    };
    assert_eq!(
        short.serialize_to_bytes_mut().err(),
        Some(Error::BadCertificate)
    );
}

#[test]
fn verified_certificate_is_handed_out_only_if_it_verifies() {
    let (authority, authority_public) = authority();
    let static_key = vec![0x42u8; 32];
    let message = authority
        .new_verified_cert_at(&static_key, 1000, 3600)
        .unwrap();
    assert_eq!(message, authority.new_cert_at(&static_key, 1000, 3600).unwrap());
    let certificate = presented(&message, &static_key, &authority_public);
    assert_eq!(certificate.validate_at(999), Err(Error::CertNotYetValid));
    assert_eq!(certificate.validate_at(1000), Ok(()));
    assert_eq!(certificate.validate_at(4599), Ok(()));
    assert_eq!(certificate.validate_at(4600), Err(Error::CertExpired));
    assert_eq!(
        check_remote_certificate(
            Some(static_key.clone()),
            &message.to_bytes().unwrap(),
            &authority_public,
            Some(2000)
        ),
        Ok(())
    );
    // a window that cannot be written
    assert_eq!(
        authority.new_verified_cert_at(&static_key, u32::MAX as u64, 1),
        Err(Error::BadCertificate)
    );
    // keys that do not belong together: the public key of one keypair with
    // the private key of another
    let (public, _) = random_keypair();
    let (_, private) = random_keypair();
    let mismatched = Authority::from_raw_k(&public, &private).unwrap();
    let issued = mismatched.new_cert_at(&static_key, 1000, 3600).unwrap();
    assert_eq!(
        presented(&issued, &static_key, &public).validate_at(2000),
        Err(Error::BadCertificate)
    );
    assert_eq!(
        mismatched.new_verified_cert_at(&static_key, 1000, 3600),
        Err(Error::BadCertificate)
    );
}

#[test]
fn second_step_of_the_initiator_is_decided_by_what_was_read() {
    let (authority, authority_public) = authority();
    let static_key = vec![0x42u8; 32];
    let message = authority
        .new_cert_at(&static_key, 1000, 3600)
        .unwrap()
        .to_bytes()
        .unwrap();
    assert_eq!(message.len(), 76);
    let mut buffer = message.clone();
    buffer.resize(172, 0xee);
    let decide = |read: Result<usize, snow::Error>, key: Option<Vec<u8>>, now: Option<u64>| {
        second_flight_outcome(read, buffer.clone(), key, &authority_public, now)
    };
    let key = Some(static_key.clone());
    assert_eq!(decide(Ok(76), key.clone(), Some(1000)), Ok(StepResult::Done));
    assert_eq!(decide(Ok(76), key.clone(), Some(4599)), Ok(StepResult::Done));
    // the cipher refused the flight: before anything else
    assert_eq!(
        decide(Err(snow::Error::Decrypt), key.clone(), Some(1000)),
        Err(Error::HandshakeCrypto)
    );
    assert_eq!(
        decide(Err(snow::Error::Input), None, None),
        Err(Error::HandshakeCrypto)
    );
    // a payload of another length: before the static key is looked at
    assert_eq!(decide(Ok(75), None, None), Err(Error::BadCertificate));
    assert_eq!(decide(Ok(77), key.clone(), Some(1000)), Err(Error::BadCertificate));
    assert_eq!(decide(Ok(0), key.clone(), Some(1000)), Err(Error::BadCertificate));
    // no static key
    assert_eq!(decide(Ok(76), None, Some(1000)), Err(Error::HandshakeCrypto));
    // the clock
    assert_eq!(decide(Ok(76), key.clone(), None), Err(Error::CertNotYetValid));
    assert_eq!(
        decide(Ok(76), key.clone(), Some(999)),
        Err(Error::CertNotYetValid)
    );
    assert_eq!(decide(Ok(76), key.clone(), Some(4600)), Err(Error::CertExpired));
    // another static key, another authority
    assert_eq!(
        decide(Ok(76), Some(vec![0x43u8; 32]), Some(1000)),
        Err(Error::BadCertificate)
    );
    let (_, stranger) = authority_pair();
    assert_eq!(
        second_flight_outcome(Ok(76), buffer.clone(), key.clone(), &stranger, Some(1000)),
        Err(Error::BadCertificate)
    );
    // only the first 76 bytes of the buffer are the payload
    let mut other_tail = message.clone();
    other_tail.resize(172, 0x11);
    assert_eq!(
        second_flight_outcome(Ok(76), other_tail, key.clone(), &authority_public, Some(1000)),
        Ok(StepResult::Done)
    );
    let mut changed = buffer.clone();
    changed[75] ^= 1;
    assert_eq!(
        second_flight_outcome(Ok(76), changed, key, &authority_public, Some(1000)),
        Err(Error::BadCertificate)
    );
}
