use bytes::{Bytes, BytesMut};
use core::time::Duration;
use sv2_proxy_core::auth::{Authority, AuthorityPublicKey};
use sv2_proxy_core::ed25519::random_keypair;
use sv2_proxy_core::error::Error;
use sv2_proxy_core::handshake::{
    finished_transport, Initiator, Message, Responder, Step, StepResult,
};
use sv2_proxy_core::noise::{generate_keypair, noise_params_accepted, StaticKeypair, NOISE_PARAMS};
use sv2_proxy_core::transport::TransportMode;

/// Builds the serialized signature noise message, the keys of the
/// certification authority (public, private) and the static keypair of the
/// server.
fn build_serialized_signature_noise_message_and_keypairs(
    duration: Duration,
) -> (Bytes, ([u8; 32], [u8; 32]), StaticKeypair) {
    let (authority_public, authority_private) = random_keypair();
    let static_keypair = generate_keypair().expect("BUG: cannot generate static keypair");
    let authority = Authority::from_raw_k(&authority_public, &authority_private)
        .expect("BUG: generated keys refused");
    let signature_noise_message = authority
        .new_cert(static_keypair.public.clone(), duration)
        .expect("BUG: cannot issue certificate")
        .serialize_to_bytes_mut()
        .expect("BUG: Cannot serialize signature noise message")
        .freeze();
    (
        signature_noise_message,
        (authority_public, authority_private),
        static_keypair,
    )
}

fn perform_handshake() -> (TransportMode, TransportMode) {
    let (signature_noise_message, authority_keypair, static_keypair) =
        build_serialized_signature_noise_message_and_keypairs(Duration::from_secs(3600));

    let mut initiator = Initiator::from_raw_k(authority_keypair.0).unwrap();

    let mut responder = Responder::new(&static_keypair, signature_noise_message).unwrap();
    let mut initiator_in_msg: Option<Message> = None;

    loop {
        match initiator
            .step(initiator_in_msg.clone())
            .expect("BUG: Initiator failed")
        {
            StepResult::ExpectReply(initiator_out_msg) => {
                match responder
                    .step(Some(initiator_out_msg))
                    .expect("BUG: responder failed")
                {
                    StepResult::ExpectReply(responder_out_msg) => {
                        initiator_in_msg.replace(responder_out_msg);
                    }
                    StepResult::NoMoreReply(responder_out_msg) => {
                        initiator_in_msg.replace(responder_out_msg);
                    }
                    StepResult::Done => (),
                }
            }
            StepResult::NoMoreReply(initiator_out_msg) => {
                match responder
                    .step(Some(initiator_out_msg))
                    .expect("BUG: responder failed")
                {
                    StepResult::ExpectReply(responder_out_msg)
                    | StepResult::NoMoreReply(responder_out_msg) => panic!(
                        "BUG: Responder provided an unexpected response {:?}",
                        responder_out_msg
                    ),
                    StepResult::Done => (),
                }
            }
            // Initiator is now finalized
            StepResult::Done => {
                break;
            }
        };
    }

    let initiator_transport_mode = TransportMode::new(
        initiator
            .into_handshake_state()
            .into_transport_mode()
            .expect("BUG: cannot convert initiator into transport mode"),
    );
    let responder_transport_mode = TransportMode::new(
        responder
            .into_handshake_state()
            .into_transport_mode()
            .expect("BUG: cannot convert responder into transport mode"),
    );

    (initiator_transport_mode, responder_transport_mode)
}

/// Verifies that initiator and responder can successfully perform a handshake
#[test]
fn test_handshake() {
    perform_handshake();
}

#[test]
fn test_handshake2() {
    let (signature_noise_message, authority_keypair, static_keypair) =
        build_serialized_signature_noise_message_and_keypairs(Duration::from_secs(3600));

    let mut initiator = Initiator::from_raw_k(authority_keypair.0).unwrap();

    let mut responder = Responder::new(&static_keypair, signature_noise_message).unwrap();
    let first_message = match initiator.step(None).unwrap() {
        StepResult::ExpectReply(msg) => msg,
        _ => panic!(),
    };
    let second_message = match responder.step(Some(first_message)).unwrap() {
        StepResult::NoMoreReply(msg) => msg,
        _ => panic!(),
    };
    initiator.step(Some(second_message)).unwrap();

    TransportMode::new(
        initiator
            .into_handshake_state()
            .into_transport_mode()
            .unwrap(),
    );
    TransportMode::new(
        responder
            .into_handshake_state()
            .into_transport_mode()
            .unwrap(),
    );
}

/// Verifies that initiator and responder can successfully send/receive message after
/// handshake;
#[test]
fn test_send_message() {
    let (mut initiator_transport_mode, mut responder_transport_mode) = perform_handshake();

    let message = b"test message";
    let mut encrypted_msg = BytesMut::new();
    let mut decrypted_msg = BytesMut::new();

    let size_hint = TransportMode::size_hint_encrypt(message.len());
    encrypted_msg.resize(size_hint, 0);

    initiator_transport_mode
        .write(&message[..], &mut encrypted_msg)
        .unwrap();

    let size_hint = TransportMode::size_hint_decrypt(encrypted_msg.len());
    decrypted_msg.resize(size_hint.unwrap(), 0);

    responder_transport_mode
        .read(&encrypted_msg[..], &mut decrypted_msg[..])
        .unwrap();

    assert_eq!(&message[..], &decrypted_msg[..], "Messages don't match");
}

#[test]
fn flights_have_their_lengths() {
    let (signature_noise_message, authority_keypair, static_keypair) =
        build_serialized_signature_noise_message_and_keypairs(Duration::from_secs(3600));
    assert_eq!(signature_noise_message.len(), 76);
    let mut initiator = Initiator::from_raw_k(authority_keypair.0).unwrap();
    let mut responder = Responder::new(&static_keypair, signature_noise_message).unwrap();
    let first = match initiator.step(None).unwrap() {
        StepResult::ExpectReply(msg) => msg,
        other => panic!("unexpected {:?}", other),
    };
    // the ephemeral key alone: the room for a tag is cut off
    assert_eq!(first.len(), 32);
    assert!(first.len() <= 48);
    let second = match responder.step(Some(first)).unwrap() {
        StepResult::NoMoreReply(msg) => msg,
        other => panic!("unexpected {:?}", other),
    };
    assert_eq!(second.len(), 172);
    assert_eq!(initiator.step(Some(second)).unwrap(), StepResult::Done);
    assert_eq!(responder.step(None).unwrap(), StepResult::Done);
}

#[test]
fn completed_roles_refuse_further_steps() {
    let (signature_noise_message, authority_keypair, static_keypair) =
        build_serialized_signature_noise_message_and_keypairs(Duration::from_secs(3600));
    let mut initiator = Initiator::from_raw_k(authority_keypair.0).unwrap();
    let mut responder = Responder::new(&static_keypair, signature_noise_message).unwrap();
    let first = match initiator.step(None).unwrap() {
        StepResult::ExpectReply(msg) => msg,
        _ => panic!(),
    };
    let second = match responder.step(Some(first.clone())).unwrap() {
        StepResult::NoMoreReply(msg) => msg,
        _ => panic!(),
    };
    assert_eq!(initiator.step(Some(second.clone())).unwrap(), StepResult::Done);
    assert_eq!(responder.step(None).unwrap(), StepResult::Done);

    assert_eq!(initiator.step(None), Err(Error::ProtocolMisuse));
    assert_eq!(initiator.step(Some(second)), Err(Error::ProtocolMisuse));
    assert_eq!(responder.step(None), Err(Error::ProtocolMisuse));
    assert_eq!(responder.step(Some(first)), Err(Error::ProtocolMisuse));
    // and the roles still yield their transport after the refused steps
    assert!(initiator.into_transport_mode().is_ok());
    assert!(responder.into_transport_mode().is_ok());
}

#[test]
fn missing_input_is_unexpected() {
    let (signature_noise_message, authority_keypair, static_keypair) =
        build_serialized_signature_noise_message_and_keypairs(Duration::from_secs(3600));
    let mut initiator = Initiator::from_raw_k(authority_keypair.0).unwrap();
    let mut responder = Responder::new(&static_keypair, signature_noise_message).unwrap();
    assert_eq!(responder.step(None), Err(Error::UnexpectedMessage));
    let first = match initiator.step(None).unwrap() {
        StepResult::ExpectReply(msg) => msg,
        _ => panic!(),
    };
    assert_eq!(initiator.step(None), Err(Error::UnexpectedMessage));
    // a failed step leaves the stage: the handshake still completes
    let second = match responder.step(Some(first)).unwrap() {
        StepResult::NoMoreReply(msg) => msg,
        _ => panic!(),
    };
    assert_eq!(initiator.step(Some(second)).unwrap(), StepResult::Done);
}

#[test]
fn unfinished_role_has_no_transport() {
    let (signature_noise_message, authority_keypair, static_keypair) =
        build_serialized_signature_noise_message_and_keypairs(Duration::from_secs(3600));
    let initiator = Initiator::from_raw_k(authority_keypair.0).unwrap();
    assert_eq!(
        initiator.into_transport_mode().err(),
        Some(Error::ProtocolMisuse)
    );
    let mut responder = Responder::new(&static_keypair, signature_noise_message).unwrap();
    let mut other = Initiator::from_raw_k(authority_keypair.0).unwrap();
    let first = match other.step(None).unwrap() {
        StepResult::ExpectReply(msg) => msg,
        _ => panic!(),
    };
    responder.step(Some(first)).unwrap();
    assert_eq!(
        responder.into_transport_mode().err(),
        Some(Error::ProtocolMisuse)
    );
}

#[test]
fn garbled_second_flight_fails_the_handshake() {
    let (signature_noise_message, authority_keypair, static_keypair) =
        build_serialized_signature_noise_message_and_keypairs(Duration::from_secs(3600));
    let mut initiator = Initiator::from_raw_k(authority_keypair.0).unwrap();
    let mut responder = Responder::new(&static_keypair, signature_noise_message).unwrap();
    let first = match initiator.step(None).unwrap() {
        StepResult::ExpectReply(msg) => msg,
        _ => panic!(),
    };
    let mut second = match responder.step(Some(first)).unwrap() {
        StepResult::NoMoreReply(msg) => msg,
        _ => panic!(),
    };
    second[100] ^= 0x01;
    assert_eq!(initiator.step(Some(second)), Err(Error::HandshakeCrypto));
}

#[test]
fn garbled_first_flight_fails_the_handshake() {
    let (signature_noise_message, _authority_keypair, static_keypair) =
        build_serialized_signature_noise_message_and_keypairs(Duration::from_secs(3600));
    let mut responder = Responder::new(&static_keypair, signature_noise_message).unwrap();
    // shorter than an ephemeral key
    assert_eq!(
        responder.step(Some(vec![0u8; 5])),
        Err(Error::HandshakeCrypto)
    );
}

#[test]
fn expired_certificate_fails_at_the_initiator() {
    // a certificate that lasts no time is expired when it is presented
    let (signature_noise_message, authority_keypair, static_keypair) =
        build_serialized_signature_noise_message_and_keypairs(Duration::from_secs(0));
    let mut initiator = Initiator::from_raw_k(authority_keypair.0).unwrap();
    let mut responder = Responder::new(&static_keypair, signature_noise_message).unwrap();
    let first = match initiator.step(None).unwrap() {
        StepResult::ExpectReply(msg) => msg,
        _ => panic!(),
    };
    let second = match responder.step(Some(first)).unwrap() {
        StepResult::NoMoreReply(msg) => msg,
        _ => panic!(),
    };
    assert_eq!(initiator.step(Some(second)), Err(Error::CertExpired));
}

#[test]
fn wrong_authority_fails_at_the_initiator() {
    // the responder is certified by B, the initiator trusts A
    let (signature_noise_message, _authority_b, static_keypair) =
        build_serialized_signature_noise_message_and_keypairs(Duration::from_secs(3600));
    let (authority_a_public, _) = random_keypair();
    let mut initiator = Initiator::from_raw_k(authority_a_public).unwrap();
    let mut responder = Responder::new(&static_keypair, signature_noise_message).unwrap();
    let first = match initiator.step(None).unwrap() {
        StepResult::ExpectReply(msg) => msg,
        _ => panic!(),
    };
    let second = match responder.step(Some(first)).unwrap() {
        StepResult::NoMoreReply(msg) => msg,
        _ => panic!(),
    };
    assert_eq!(initiator.step(Some(second)), Err(Error::BadCertificate));
}

#[test]
fn certificate_of_another_static_key_fails_at_the_initiator() {
    let (signature_noise_message, authority_keypair, _certified) =
        build_serialized_signature_noise_message_and_keypairs(Duration::from_secs(3600));
    let mut initiator = Initiator::from_raw_k(authority_keypair.0).unwrap();
    // a fresh static key that the message does not certify
    let mut responder = Responder::with_random_static_kp(signature_noise_message).unwrap();
    let first = match initiator.step(None).unwrap() {
        StepResult::ExpectReply(msg) => msg,
        _ => panic!(),
    };
    let second = match responder.step(Some(first)).unwrap() {
        StepResult::NoMoreReply(msg) => msg,
        _ => panic!(),
    };
    assert_eq!(initiator.step(Some(second)), Err(Error::BadCertificate));
}

#[test]
fn payload_that_is_no_certificate_fails_the_handshake() {
    let (_, authority_keypair, static_keypair) =
        build_serialized_signature_noise_message_and_keypairs(Duration::from_secs(3600));
    let mut initiator = Initiator::from_raw_k(authority_keypair.0).unwrap();
    // 76 bytes that announce a signature of length 0
    let mut responder = Responder::new(&static_keypair, Bytes::from(vec![0u8; 76])).unwrap();
    let first = match initiator.step(None).unwrap() {
        StepResult::ExpectReply(msg) => msg,
        _ => panic!(),
    };
    let second = match responder.step(Some(first)).unwrap() {
        StepResult::NoMoreReply(msg) => msg,
        _ => panic!(),
    };
    assert_eq!(initiator.step(Some(second)), Err(Error::BadCertificate));

    // a message of another length does not fill the second flight
    let mut short = Responder::new(&static_keypair, Bytes::from(vec![0u8; 10])).unwrap();
    let mut again = Initiator::from_raw_k(authority_keypair.0).unwrap();
    let first = match again.step(None).unwrap() {
        StepResult::ExpectReply(msg) => msg,
        _ => panic!(),
    };
    assert_eq!(short.step(Some(first)), Err(Error::HandshakeCrypto));
}

#[test]
fn self_certifying_responder_completes_the_handshake() {
    let (authority_public, authority_private) = random_keypair();
    let mut responder =
        Responder::from_authority_kp(&authority_public, &authority_private, Duration::from_secs(60))
            .unwrap();
    let mut initiator = Initiator::from_raw_k(authority_public).unwrap();
    let first = match initiator.step(None).unwrap() {
        StepResult::ExpectReply(msg) => msg,
        _ => panic!(),
    };
    let second = match responder.step(Some(first)).unwrap() {
        StepResult::NoMoreReply(msg) => msg,
        _ => panic!(),
    };
    assert_eq!(initiator.step(Some(second)).unwrap(), StepResult::Done);

    // keys that are not the keys of an authority
    assert_eq!(
        Responder::from_authority_kp(&authority_public[..31], &authority_private, Duration::from_secs(60))
            .err(),
        Some(Error::BadCertificate)
    );
}

#[test]
fn responder_refuses_a_private_key_that_is_too_long() {
    let keypair = StaticKeypair {
        private: vec![1u8; 33],
        public: vec![2u8; 32],
    };
    assert_eq!(
        Responder::new(&keypair, Bytes::from(vec![0u8; 76])).err(),
        Some(Error::HandshakeCrypto)
    );
}

#[test]
fn initiator_refuses_bytes_that_are_no_public_key() {
    // among the 256 strings that differ in the first byte, some are points
    // of the curve and some are not
    let mut accepted = 0;
    let mut refused = 0;
    for first in 0..=255u8 {
        let mut bytes = [0u8; 32];
        bytes[0] = first;
        match Initiator::from_raw_k(bytes) {
            Ok(_) => {
                accepted += 1;
                assert!(AuthorityPublicKey::from_bytes(&bytes).is_some());
            }
            Err(e) => {
                refused += 1;
                assert_eq!(e, Error::BadCertificate);
                assert!(AuthorityPublicKey::from_bytes(&bytes).is_none());
            }
        }
    }
    assert!(accepted > 0);
    assert!(refused > 0);
}

#[test]
fn generated_static_keys_have_32_bytes() {
    let a = generate_keypair().unwrap();
    let b = generate_keypair().unwrap();
    assert_eq!(a.private.len(), 32);
    assert_eq!(a.public.len(), 32);
    assert_ne!(a.private, b.private);
    assert_ne!(a.public, b.public);
}

#[test]
fn every_message_up_to_a_frame_round_trips_in_order() {
    let (mut initiator, mut responder) = perform_handshake();
    for (n, len) in [0usize, 1, 12, 255, 4096, 65535 - 16 - 2, 65535 - 16]
        .iter()
        .enumerate()
    {
        let message: Vec<u8> = (0..*len).map(|i| (i % 251) as u8).collect();
        let mut encrypted = vec![0u8; TransportMode::size_hint_encrypt(message.len())];
        assert_eq!(initiator.send_nonce(), n as u64);
        initiator.write(&message, &mut encrypted).unwrap();
        assert_eq!(initiator.send_nonce(), n as u64 + 1);
        assert_eq!(encrypted.len(), message.len() + 16);
        if *len >= 12 {
            assert_ne!(&encrypted[..message.len()], &message[..]);
        }
        let mut decrypted = vec![0u8; TransportMode::size_hint_decrypt(encrypted.len()).unwrap()];
        assert_eq!(responder.recv_nonce(), n as u64);
        responder.read(&encrypted, &mut decrypted).unwrap();
        assert_eq!(responder.recv_nonce(), n as u64 + 1);
        assert_eq!(decrypted, message);
    }
    // the other direction is independent
    assert_eq!(responder.send_nonce(), 0);
    assert_eq!(initiator.recv_nonce(), 0);
    let mut encrypted = vec![0u8; 5 + 16];
    responder.write(b"hello", &mut encrypted).unwrap();
    let mut decrypted = vec![0u8; 5];
    initiator.read(&encrypted, &mut decrypted).unwrap();
    assert_eq!(&decrypted, b"hello");
}

#[test]
fn tampered_frame_fails_and_poisons_the_state() {
    let (mut initiator, mut responder) = perform_handshake();
    let message = b"test message";
    let mut encrypted = vec![0u8; message.len() + 16];
    initiator.write(message, &mut encrypted).unwrap();
    let mut untouched = encrypted.clone();
    for at in [0usize, 5, 11, 12, 27] {
        let (mut i, mut r) = perform_handshake();
        let mut frame = vec![0u8; message.len() + 16];
        i.write(message, &mut frame).unwrap();
        frame[at] ^= 0x80;
        let mut out = vec![0u8; message.len()];
        assert_eq!(r.read(&frame, &mut out), Err(Error::AuthFailure));
        assert!(r.is_poisoned());
    }
    encrypted[3] ^= 0x01;
    let mut decrypted = vec![0u8; message.len()];
    assert!(!responder.is_poisoned());
    assert_eq!(
        responder.read(&encrypted, &mut decrypted),
        Err(Error::AuthFailure)
    );
    assert!(responder.is_poisoned());
    assert_eq!(responder.recv_nonce(), 0);
    // further reads fail too, even of the frame as it was sent
    assert_eq!(
        responder.read(&untouched, &mut decrypted),
        Err(Error::AuthFailure)
    );
    untouched[0] ^= 0;
    assert_eq!(
        responder.read(&untouched, &mut decrypted),
        Err(Error::AuthFailure)
    );
    // the sending direction of the poisoned state still works
    let mut back = vec![0u8; 1 + 16];
    assert_eq!(responder.write(b"x", &mut back), Ok(()));
}

#[test]
fn reordered_frames_fail_on_the_first_out_of_order() {
    let (mut initiator, mut responder) = perform_handshake();
    let mut first = vec![0u8; 5 + 16];
    let mut second = vec![0u8; 5 + 16];
    initiator.write(b"first", &mut first).unwrap();
    initiator.write(b"later", &mut second).unwrap();
    let mut out = vec![0u8; 5];
    assert_eq!(responder.read(&second, &mut out), Err(Error::AuthFailure));
    assert_eq!(responder.read(&first, &mut out), Err(Error::AuthFailure));
}

#[test]
fn replayed_frame_fails() {
    let (mut initiator, mut responder) = perform_handshake();
    let mut frame = vec![0u8; 5 + 16];
    initiator.write(b"first", &mut frame).unwrap();
    let mut out = vec![0u8; 5];
    assert_eq!(responder.read(&frame, &mut out), Ok(()));
    assert_eq!(responder.read(&frame, &mut out), Err(Error::AuthFailure));
}

#[test]
fn lengths_are_checked_before_the_cipher() {
    let (mut initiator, mut responder) = perform_handshake();
    // encrypt: too large
    let large = vec![0u8; 65535 - 16 + 1];
    let mut out = vec![0u8; large.len() + 16];
    assert_eq!(initiator.write(&large, &mut out), Err(Error::TooLarge));
    // encrypt: output not exactly plaintext and tag
    let mut short = vec![0u8; 12 + 15];
    assert_eq!(
        initiator.write(b"test message", &mut short),
        Err(Error::ShortBuffer)
    );
    let mut long = vec![7u8; 12 + 17];
    assert_eq!(
        initiator.write(b"test message", &mut long),
        Err(Error::ShortBuffer)
    );
    assert_eq!(long, vec![7u8; 12 + 17]);
    assert_eq!(initiator.send_nonce(), 0);
    // decrypt: shorter than a tag, or output too short
    let mut plain = vec![0u8; 12];
    assert_eq!(
        responder.read(&[0u8; 15], &mut plain),
        Err(Error::ShortBuffer)
    );
    let mut frame = vec![0u8; 12 + 16];
    initiator.write(b"test message", &mut frame).unwrap();
    let mut small = vec![0u8; 11];
    assert_eq!(responder.read(&frame, &mut small), Err(Error::ShortBuffer));
    // a refused length poisons nothing: the frame is still read
    assert!(!responder.is_poisoned());
    assert_eq!(responder.recv_nonce(), 0);
    assert_eq!(responder.read(&frame, &mut plain), Ok(()));
    assert_eq!(&plain, b"test message");
    // a longer output buffer is filled at its start
    let mut frame = vec![0u8; 3 + 16];
    initiator.write(b"abc", &mut frame).unwrap();
    let mut roomy = vec![9u8; 6];
    assert_eq!(responder.read(&frame, &mut roomy), Ok(()));
    assert_eq!(roomy, vec![b'a', b'b', b'c', 9, 9, 9]);
}

#[test]
fn size_hints() {
    assert_eq!(TransportMode::size_hint_encrypt(0), 16);
    assert_eq!(TransportMode::size_hint_encrypt(12), 28);
    assert_eq!(TransportMode::size_hint_decrypt(28), Some(12));
    assert_eq!(TransportMode::size_hint_decrypt(16), Some(0));
    assert_eq!(TransportMode::size_hint_decrypt(15), None);
    assert_eq!(TransportMode::size_hint_decrypt(0), None);
    for n in [0usize, 1, 100, 65519] {
        assert_eq!(
            TransportMode::size_hint_decrypt(TransportMode::size_hint_encrypt(n)),
            Some(n)
        );
    }
}

#[test]
fn answers_of_the_cipher_are_reported() {
    assert_eq!(TransportMode::write_outcome(Ok(28)), Ok(()));
    assert_eq!(
        TransportMode::write_outcome(Err(snow::Error::State(
            snow::error::StateProblem::Exhausted
        ))),
        Err(Error::CipherExhausted)
    );
    assert_eq!(
        TransportMode::write_outcome(Err(snow::Error::Input)),
        Err(Error::CipherExhausted)
    );
    assert_eq!(TransportMode::read_outcome(Ok(12)), Ok(()));
    assert_eq!(
        TransportMode::read_outcome(Err(snow::Error::Decrypt)),
        Err(Error::AuthFailure)
    );
    assert_eq!(
        TransportMode::read_outcome(Err(snow::Error::State(
            snow::error::StateProblem::Exhausted
        ))),
        Err(Error::AuthFailure)
    );
}

#[test]
fn fresh_transport_counts_from_zero() {
    let (initiator, responder) = perform_handshake();
    assert_eq!(initiator.send_nonce(), 0);
    assert_eq!(initiator.recv_nonce(), 0);
    assert_eq!(responder.send_nonce(), 0);
    assert_eq!(responder.recv_nonce(), 0);
    assert!(!initiator.is_poisoned());
    assert!(!responder.is_poisoned());
}

#[test]
fn transport_taken_over_counts_on() {
    // a state that has sent frames is taken over with its counts
    let (signature_noise_message, authority_keypair, static_keypair) =
        build_serialized_signature_noise_message_and_keypairs(Duration::from_secs(3600));
    let mut initiator = Initiator::from_raw_k(authority_keypair.0).unwrap();
    let mut responder = Responder::new(&static_keypair, signature_noise_message).unwrap();
    let first = match initiator.step(None).unwrap() {
        StepResult::ExpectReply(msg) => msg,
        _ => panic!(),
    };
    let second = match responder.step(Some(first)).unwrap() {
        StepResult::NoMoreReply(msg) => msg,
        _ => panic!(),
    };
    initiator.step(Some(second)).unwrap();
    let mut state = initiator
        .into_handshake_state()
        .into_transport_mode()
        .unwrap();
    let mut out = [0u8; 17];
    state.write_message(b"a", &mut out).unwrap();
    state.write_message(b"b", &mut out).unwrap();
    let mode = TransportMode::new(state);
    assert_eq!(mode.send_nonce(), 2);
    assert_eq!(mode.recv_nonce(), 0);
}

#[test]
fn only_the_one_pattern_is_accepted() {
    assert!(noise_params_accepted(NOISE_PARAMS));
    assert!(noise_params_accepted("Noise_NX_25519_ChaChaPoly_BLAKE2s"));
    for other in [
        "",
        "Noise_NX_25519_ChaChaPoly_BLAKE2",
        "Noise_NX_25519_ChaChaPoly_BLAKE2s ",
        "noise_nx_25519_chachapoly_blake2s",
        "Noise_NX_25519_AESGCM_SHA256",
        "Noise_XX_25519_ChaChaPoly_BLAKE2s",
        "Noise_NN_25519_ChaChaPoly_BLAKE2s",
    ] {
        assert!(!noise_params_accepted(other), "{}", other);
        let (public, _) = random_keypair();
        let key = AuthorityPublicKey::from_bytes(&public).unwrap();
        assert_eq!(
            Initiator::with_params(other, key).err(),
            Some(Error::HandshakeCrypto)
        );
        let keypair = generate_keypair().unwrap();
        assert_eq!(
            Responder::with_params(other, &keypair, Bytes::from(vec![0u8; 76])).err(),
            Some(Error::HandshakeCrypto)
        );
    }
    let (public, _) = random_keypair();
    let key = AuthorityPublicKey::from_bytes(&public).unwrap();
    assert!(Initiator::with_params(NOISE_PARAMS, key).is_ok());
    let keypair = generate_keypair().unwrap();
    assert!(Responder::with_params(NOISE_PARAMS, &keypair, Bytes::from(vec![0u8; 76])).is_ok());
}

#[test]
fn roles_are_set_up_exactly_for_keys_that_fit() {
    let (public, _) = random_keypair();
    assert!(Initiator::new(AuthorityPublicKey::from_bytes(&public).unwrap()).is_ok());
    assert!(Initiator::from_raw_k(public).is_ok());
    for len in [0usize, 1, 31, 32] {
        let keypair = StaticKeypair {
            private: vec![7u8; len],
            public: vec![9u8; 32],
        };
        assert!(
            Responder::new(&keypair, Bytes::from(vec![0u8; 76])).is_ok(),
            "private key of {} bytes",
            len
        );
    }
    for len in [33usize, 64, 100] {
        let keypair = StaticKeypair {
            private: vec![7u8; len],
            public: vec![9u8; 32],
        };
        assert_eq!(
            Responder::new(&keypair, Bytes::from(vec![0u8; 76])).err(),
            Some(Error::HandshakeCrypto)
        );
    }
    assert!(Responder::with_random_static_kp(Bytes::new()).is_ok());
    assert!(generate_keypair().is_ok());
}

#[test]
fn wrongly_sized_second_flight_fails_the_handshake() {
    let (signature_noise_message, authority_keypair, static_keypair) =
        build_serialized_signature_noise_message_and_keypairs(Duration::from_secs(3600));
    for cut in [0usize, 1, 31, 80, 171] {
        let mut initiator = Initiator::from_raw_k(authority_keypair.0).unwrap();
        let mut responder =
            Responder::new(&static_keypair, signature_noise_message.clone()).unwrap();
        let first = match initiator.step(None).unwrap() {
            StepResult::ExpectReply(msg) => msg,
            _ => panic!(),
        };
        let second = match responder.step(Some(first)).unwrap() {
            StepResult::NoMoreReply(msg) => msg,
            _ => panic!(),
        };
        assert_eq!(
            initiator.step(Some(second[..cut].to_vec())),
            Err(Error::HandshakeCrypto),
            "second flight cut to {} bytes",
            cut
        );
        // the step has failed: the initiator is not done
        assert_eq!(
            initiator.into_transport_mode().err(),
            Some(Error::ProtocolMisuse)
        );
    }
    // every byte of the flight is guarded
    for at in [0usize, 31, 32, 79, 80, 171] {
        let mut initiator = Initiator::from_raw_k(authority_keypair.0).unwrap();
        let mut responder =
            Responder::new(&static_keypair, signature_noise_message.clone()).unwrap();
        let first = match initiator.step(None).unwrap() {
            StepResult::ExpectReply(msg) => msg,
            _ => panic!(),
        };
        let mut second = match responder.step(Some(first)).unwrap() {
            StepResult::NoMoreReply(msg) => msg,
            _ => panic!(),
        };
        second[at] ^= 0x10;
        assert_eq!(
            initiator.step(Some(second)),
            Err(Error::HandshakeCrypto),
            "byte {} changed",
            at
        );
    }
}

#[test]
fn done_roles_hand_their_transport_over() {
    let (signature_noise_message, authority_keypair, static_keypair) =
        build_serialized_signature_noise_message_and_keypairs(Duration::from_secs(3600));
    let mut initiator = Initiator::from_raw_k(authority_keypair.0).unwrap();
    let mut responder = Responder::new(&static_keypair, signature_noise_message).unwrap();
    let first = match initiator.step(None).unwrap() {
        StepResult::ExpectReply(msg) => msg,
        _ => panic!(),
    };
    let second = match responder.step(Some(first)).unwrap() {
        StepResult::NoMoreReply(msg) => msg,
        _ => panic!(),
    };
    initiator.step(Some(second)).unwrap();
    responder.step(None).unwrap();
    let mut sender = initiator.into_transport_mode().unwrap();
    let mut receiver = responder.into_transport_mode().unwrap();
    assert!(!sender.is_poisoned());
    let mut frame = vec![0u8; 4 + 16];
    sender.write(b"ping", &mut frame).unwrap();
    let mut plain = vec![0u8; 4];
    receiver.read(&frame, &mut plain).unwrap();
    assert_eq!(&plain, b"ping");
}

#[test]
fn transport_is_made_of_the_answer_of_the_cipher() {
    let params: snow::params::NoiseParams = "Noise_NX_25519_ChaChaPoly_BLAKE2s".parse().unwrap();
    let keypair = snow::Builder::new(params.clone()).generate_keypair().unwrap();
    let mut initiator = snow::Builder::new(params.clone()).build_initiator().unwrap();
    let mut responder = snow::Builder::new(params)
        .local_private_key(&keypair.private)
        .build_responder()
        .unwrap();
    let mut first = vec![0u8; 1024];
    let mut second = vec![0u8; 1024];
    let mut payload = vec![0u8; 1024];
    let n = initiator.write_message(&[], &mut first).unwrap();
    responder.read_message(&first[..n], &mut payload).unwrap();
    let n = responder.write_message(&[], &mut second).unwrap();
    initiator.read_message(&second[..n], &mut payload).unwrap();

    let mut sender = finished_transport(initiator.into_transport_mode()).unwrap();
    let mut receiver = finished_transport(responder.into_transport_mode()).unwrap();
    assert!(!sender.is_poisoned());
    assert!(!receiver.is_poisoned());
    assert_eq!(sender.send_nonce(), 0);
    assert_eq!(receiver.recv_nonce(), 0);
    let mut frame = vec![0u8; 5 + 16];
    sender.write(b"hello", &mut frame).unwrap();
    let mut plain = vec![0u8; 5];
    receiver.read(&frame, &mut plain).unwrap();
    assert_eq!(&plain, b"hello");

    // a handshake that is not finished gives no transport
    let params: snow::params::NoiseParams = "Noise_NX_25519_ChaChaPoly_BLAKE2s".parse().unwrap();
    let unfinished = snow::Builder::new(params).build_initiator().unwrap();
    let answer = unfinished.into_transport_mode();
    assert!(answer.is_err());
    assert_eq!(finished_transport(answer).err(), Some(Error::HandshakeCrypto));
    assert_eq!(
        finished_transport(Err(snow::Error::Decrypt)).err(),
        Some(Error::HandshakeCrypto)
    );
}
