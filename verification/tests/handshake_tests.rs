use exonum_handshake::codec::MessagesCodec;
use exonum_handshake::connect_list::{ConnectInfo, SharedConnectList};
use exonum_handshake::crypto;
use exonum_handshake::error::{HandshakeError, HandshakeErrorKind, NoiseError};
use exonum_handshake::handshake::{Handshake, HandshakeOutcome, HandshakeParams, NoiseHandshake};
use exonum_handshake::stream::BufferStream;

fn keypair(seed: u8) -> (crypto::PublicKey, crypto::SecretKey) {
    crypto::gen_keypair_from_seed(&[seed; 32])
}

fn list_of(keys: &[crypto::PublicKey]) -> SharedConnectList {
    let mut peers = Vec::new();
    for (i, key) in keys.iter().enumerate() {
        peers.push(ConnectInfo::new(format!("10.0.0.{}:2000", i + 1), *key));
    }
    SharedConnectList::from_peers(peers)
}

fn shuttle(from: &mut BufferStream, to: &mut BufferStream) {
    let bytes = from.take_output();
    to.deliver(&bytes);
}

struct Pair {
    initiator: Option<NoiseHandshake>,
    responder: Option<NoiseHandshake>,
    io_initiator: BufferStream,
    io_responder: BufferStream,
    initiator_done: Option<(MessagesCodec, Vec<u8>)>,
    responder_done: Option<(MessagesCodec, Vec<u8>)>,
}

/// Builds a matched pair: each side's allow-list holds the other's key,
/// and the initiator expects the responder's key.
fn matched_pair(
    initiator_announcement: Vec<u8>,
    responder_announcement: Vec<u8>,
    max_message_len: u32,
) -> Pair {
    let (ipk, isk) = keypair(1);
    let (rpk, rsk) = keypair(2);

    let mut iparams = HandshakeParams::new(
        &ipk,
        &isk,
        list_of(&[rpk]),
        initiator_announcement,
        max_message_len,
    )
    .unwrap();
    assert!(iparams.set_remote_key(&rpk));
    let rparams = HandshakeParams::new(
        &rpk,
        &rsk,
        list_of(&[ipk]),
        responder_announcement,
        max_message_len,
    )
    .unwrap();

    let initiator = NoiseHandshake::initiator(&iparams, &"10.0.0.2:2000".to_string()).unwrap();
    let responder = NoiseHandshake::responder(&rparams, &"10.0.0.1:2000".to_string()).unwrap();
    Pair {
        initiator: Some(initiator),
        responder: Some(responder),
        io_initiator: BufferStream::new(),
        io_responder: BufferStream::new(),
        initiator_done: None,
        responder_done: None,
    }
}

/// Alternates the two attempts, moving bytes between the endpoints,
/// until both terminate or `rounds` passes elapse.
fn drive(pair: &mut Pair, rounds: usize) -> Result<(), HandshakeError> {
    for _ in 0..rounds {
        if let Some(h) = pair.initiator.take() {
            match h.send(&mut pair.io_initiator)? {
                HandshakeOutcome::Pending(h) => pair.initiator = Some(h),
                HandshakeOutcome::Complete(codec, message) => {
                    pair.initiator_done = Some((codec, message))
                }
            }
        }
        shuttle(&mut pair.io_initiator, &mut pair.io_responder);
        if let Some(h) = pair.responder.take() {
            match h.listen(&mut pair.io_responder)? {
                HandshakeOutcome::Pending(h) => pair.responder = Some(h),
                HandshakeOutcome::Complete(codec, message) => {
                    pair.responder_done = Some((codec, message))
                }
            }
        }
        shuttle(&mut pair.io_responder, &mut pair.io_initiator);
        if pair.initiator_done.is_some() && pair.responder_done.is_some() {
            return Ok(());
        }
    }
    Ok(())
}

#[test]
fn matched_pair_completes_and_exchanges_announcements() {
    let i_ann = vec![0xAAu8; 100];
    let r_ann = vec![0xBBu8; 80];
    let mut pair = matched_pair(i_ann.clone(), r_ann.clone(), 1024);
    drive(&mut pair, 8).unwrap();

    let (mut icodec, i_received) = pair.initiator_done.take().unwrap();
    let (mut rcodec, r_received) = pair.responder_done.take().unwrap();
    // Each side holds exactly the other's announcement, unmodified.
    assert_eq!(i_received, r_ann);
    assert_eq!(r_received, i_ann);

    // The derived transport sessions can exchange application frames
    // both ways.
    icodec.encode(b"ping", &mut pair.io_initiator).unwrap();
    // The encrypted frame body must not be the plaintext.
    let wire = pair.io_initiator.take_output();
    assert_ne!(&wire[4..], b"ping");
    pair.io_responder.deliver(&wire);
    let got = rcodec.decode(&mut pair.io_responder).unwrap().unwrap();
    assert_eq!(got, b"ping");

    rcodec.encode(b"pong", &mut pair.io_responder).unwrap();
    shuttle(&mut pair.io_responder, &mut pair.io_initiator);
    let got = icodec.decode(&mut pair.io_initiator).unwrap().unwrap();
    assert_eq!(got, b"pong");
}

#[test]
fn end_to_end_with_64_byte_announcements() {
    let i_ann: Vec<u8> = (0..64u8).collect();
    let r_ann: Vec<u8> = (64..128u8).collect();
    let mut pair = matched_pair(i_ann.clone(), r_ann.clone(), 1024);
    drive(&mut pair, 8).unwrap();
    let (_, i_received) = pair.initiator_done.take().unwrap();
    let (_, r_received) = pair.responder_done.take().unwrap();
    assert_eq!(i_received.len(), 64);
    assert_eq!(i_received, r_ann);
    assert_eq!(r_received, i_ann);
}

#[test]
fn initiator_missing_from_responder_list_is_unauthorized() {
    let (ipk, isk) = keypair(1);
    let (rpk, rsk) = keypair(2);
    let (other, _) = keypair(3);

    let mut iparams =
        HandshakeParams::new(&ipk, &isk, list_of(&[rpk]), vec![1u8; 16], 1024).unwrap();
    assert!(iparams.set_remote_key(&rpk));
    // The responder trusts somebody else, not the initiator.
    let rparams = HandshakeParams::new(&rpk, &rsk, list_of(&[other]), vec![2u8; 16], 1024).unwrap();

    let initiator = NoiseHandshake::initiator(&iparams, &"a".to_string()).unwrap();
    let responder = NoiseHandshake::responder(&rparams, &"b".to_string()).unwrap();
    let mut pair = Pair {
        initiator: Some(initiator),
        responder: Some(responder),
        io_initiator: BufferStream::new(),
        io_responder: BufferStream::new(),
        initiator_done: None,
        responder_done: None,
    };
    let err = drive(&mut pair, 8).unwrap_err();
    assert!(matches!(err.kind, HandshakeErrorKind::Unauthorized));
    // The responder refuses at its finalization and produces no
    // channel; the initiator, whose own admission check passed, learns
    // of the refusal only by the peer dropping the stream, which the
    // failed drive here stands for.
    assert!(pair.responder_done.is_none());
}

#[test]
fn responder_missing_from_initiator_list_is_unauthorized() {
    let (ipk, isk) = keypair(1);
    let (rpk, rsk) = keypair(2);
    let (other, _) = keypair(3);

    // The initiator trusts somebody else, not the responder.
    let mut iparams =
        HandshakeParams::new(&ipk, &isk, list_of(&[other]), vec![1u8; 16], 1024).unwrap();
    assert!(iparams.set_remote_key(&rpk));
    let rparams = HandshakeParams::new(&rpk, &rsk, list_of(&[ipk]), vec![2u8; 16], 1024).unwrap();

    let initiator = NoiseHandshake::initiator(&iparams, &"a".to_string()).unwrap();
    let responder = NoiseHandshake::responder(&rparams, &"b".to_string()).unwrap();
    let mut pair = Pair {
        initiator: Some(initiator),
        responder: Some(responder),
        io_initiator: BufferStream::new(),
        io_responder: BufferStream::new(),
        initiator_done: None,
        responder_done: None,
    };
    let err = drive(&mut pair, 8).unwrap_err();
    assert!(matches!(err.kind, HandshakeErrorKind::Unauthorized));
    assert!(pair.initiator_done.is_none());
    assert!(pair.responder_done.is_none());
}

fn oversized_frame() -> Vec<u8> {
    // A frame declaring 1025 bytes, above a maximum of 1024; the body
    // is deliberately absent, since the declaration alone must reject.
    vec![0x01, 0x04, 0x00, 0x00]
}

#[test]
fn oversized_first_message_is_rejected_by_responder() {
    let mut pair = matched_pair(vec![1u8; 16], vec![2u8; 16], 1024);
    let responder = pair.responder.take().unwrap();
    pair.io_responder.deliver(&oversized_frame());
    let err = responder.listen(&mut pair.io_responder).unwrap_err();
    match err.kind {
        HandshakeErrorKind::Noise(NoiseError::WrongMessageLength(n)) => assert_eq!(n, 1025),
        other => panic!("expected a wrong-length rejection, got {:?}", other),
    }
}

#[test]
fn oversized_second_message_is_rejected_by_initiator() {
    let mut pair = matched_pair(vec![1u8; 16], vec![2u8; 16], 1024);
    let initiator = pair.initiator.take().unwrap();
    // Step one: the initiator sends its first message.
    let initiator = match initiator.send(&mut pair.io_initiator).unwrap() {
        HandshakeOutcome::Pending(h) => h,
        _ => panic!("the first drive cannot complete"),
    };
    // The "responder" answers with an over-long declaration.
    pair.io_initiator.deliver(&oversized_frame());
    let err = initiator.send(&mut pair.io_initiator).unwrap_err();
    match err.kind {
        HandshakeErrorKind::Noise(NoiseError::WrongMessageLength(n)) => assert_eq!(n, 1025),
        other => panic!("expected a wrong-length rejection, got {:?}", other),
    }
}

#[test]
fn oversized_third_message_is_rejected_by_responder() {
    let mut pair = matched_pair(vec![1u8; 16], vec![2u8; 16], 1024);
    // Drive one full round so the responder has answered message one
    // and awaits message three.
    let initiator = pair.initiator.take().unwrap();
    let _initiator = match initiator.send(&mut pair.io_initiator).unwrap() {
        HandshakeOutcome::Pending(h) => h,
        _ => panic!("the first drive cannot complete"),
    };
    shuttle(&mut pair.io_initiator, &mut pair.io_responder);
    let responder = pair.responder.take().unwrap();
    let responder = match responder.listen(&mut pair.io_responder).unwrap() {
        HandshakeOutcome::Pending(h) => h,
        _ => panic!("the responder cannot complete before message three"),
    };
    // Message three arrives with an over-long declaration.
    pair.io_responder.deliver(&oversized_frame());
    let err = responder.listen(&mut pair.io_responder).unwrap_err();
    match err.kind {
        HandshakeErrorKind::Noise(NoiseError::WrongMessageLength(n)) => assert_eq!(n, 1025),
        other => panic!("expected a wrong-length rejection, got {:?}", other),
    }
}

#[test]
fn cancelled_attempt_yields_no_channel() {
    // Abandon the exchange after each of the three message steps in
    // turn: a pending attempt that is dropped never produced a channel,
    // and the byte stream is simply released.
    for steps in 0..3usize {
        let mut pair = matched_pair(vec![1u8; 16], vec![2u8; 16], 1024);
        let mut performed = 0usize;
        'drive: for _ in 0..2 {
            if performed >= steps {
                break 'drive;
            }
            if let Some(h) = pair.initiator.take() {
                match h.send(&mut pair.io_initiator).unwrap() {
                    HandshakeOutcome::Pending(h) => pair.initiator = Some(h),
                    HandshakeOutcome::Complete(codec, message) => {
                        pair.initiator_done = Some((codec, message))
                    }
                }
                performed += 1;
            }
            shuttle(&mut pair.io_initiator, &mut pair.io_responder);
            if performed >= steps {
                break 'drive;
            }
            if let Some(h) = pair.responder.take() {
                match h.listen(&mut pair.io_responder).unwrap() {
                    HandshakeOutcome::Pending(h) => pair.responder = Some(h),
                    HandshakeOutcome::Complete(codec, message) => {
                        pair.responder_done = Some((codec, message))
                    }
                }
                performed += 1;
            }
            shuttle(&mut pair.io_responder, &mut pair.io_initiator);
        }
        // The timeout fires here: both attempts are dropped.  Neither
        // side ever saw a finished channel.
        assert!(pair.initiator_done.is_none());
        assert!(pair.responder_done.is_none());
    }
}

#[test]
fn attempt_observes_one_consistent_list_version() {
    // An attempt holds a point-in-time-consistent snapshot handle: a
    // configuration update racing with the attempt is either wholly
    // visible (to attempts built after it) or not visible at all.
    let (ipk, isk) = keypair(1);
    let (rpk, rsk) = keypair(2);

    let mut iparams =
        HandshakeParams::new(&ipk, &isk, list_of(&[rpk]), vec![1u8; 16], 1024).unwrap();
    assert!(iparams.set_remote_key(&rpk));
    let rparams = HandshakeParams::new(&rpk, &rsk, list_of(&[ipk]), vec![2u8; 16], 1024).unwrap();

    let initiator = NoiseHandshake::initiator(&iparams, &"a".to_string()).unwrap();
    let responder = NoiseHandshake::responder(&rparams, &"b".to_string()).unwrap();
    let mut pair = Pair {
        initiator: Some(initiator),
        responder: Some(responder),
        io_initiator: BufferStream::new(),
        io_responder: BufferStream::new(),
        initiator_done: None,
        responder_done: None,
    };

    // Mid-flight, the operator swaps in a new allow-list that trusts
    // nobody.  The in-flight attempt keeps its consistent pre-update
    // view and completes; an attempt built from the updated parameters
    // afterwards observes the post-update view and is refused.
    let initiator = pair.initiator.take().unwrap();
    pair.initiator = Some(match initiator.send(&mut pair.io_initiator).unwrap() {
        HandshakeOutcome::Pending(h) => h,
        _ => panic!("the first drive cannot complete"),
    });
    let updated_rparams =
        HandshakeParams::new(&rpk, &rsk, list_of(&[]), vec![2u8; 16], 1024).unwrap();

    drive(&mut pair, 8).unwrap();
    assert!(pair.initiator_done.is_some());
    assert!(pair.responder_done.is_some());

    // A fresh attempt after the update sees the new list consistently.
    let mut iparams2 =
        HandshakeParams::new(&ipk, &isk, list_of(&[rpk]), vec![1u8; 16], 1024).unwrap();
    assert!(iparams2.set_remote_key(&rpk));
    let initiator2 = NoiseHandshake::initiator(&iparams2, &"a".to_string()).unwrap();
    let responder2 = NoiseHandshake::responder(&updated_rparams, &"b".to_string()).unwrap();
    let mut pair2 = Pair {
        initiator: Some(initiator2),
        responder: Some(responder2),
        io_initiator: BufferStream::new(),
        io_responder: BufferStream::new(),
        initiator_done: None,
        responder_done: None,
    };
    let err = drive(&mut pair2, 8).unwrap_err();
    assert!(matches!(err.kind, HandshakeErrorKind::Unauthorized));
}

#[test]
fn handshake_errors_carry_the_peer_address() {
    let mut pair = matched_pair(vec![1u8; 16], vec![2u8; 16], 1024);
    let responder = pair.responder.take().unwrap();
    pair.io_responder.deliver(&oversized_frame());
    let err = responder.listen(&mut pair.io_responder).unwrap_err();
    assert_eq!(err.peer, "10.0.0.1:2000");
}

#[test]
fn garbage_first_message_is_a_cryptographic_failure() {
    let mut pair = matched_pair(vec![1u8; 16], vec![2u8; 16], 1024);
    let responder = pair.responder.take().unwrap();
    // A well-framed message whose body is noise to the session engine.
    let mut frame = vec![16u8, 0, 0, 0];
    frame.extend_from_slice(&[0u8; 16]);
    pair.io_responder.deliver(&frame);
    let err = responder.listen(&mut pair.io_responder).unwrap_err();
    assert!(matches!(err.kind, HandshakeErrorKind::Noise(NoiseError::Snow(_))));
}

#[test]
fn handshake_capability_drives_the_exchange() {
    // The same exchange, reached only through the contract-free
    // `Handshake` capability.
    let i_ann = vec![0x11u8; 32];
    let r_ann = vec![0x22u8; 48];
    let mut pair = matched_pair(i_ann.clone(), r_ann.clone(), 1024);
    for _ in 0..8 {
        if let Some(h) = pair.initiator.take() {
            match Handshake::send(h, &mut pair.io_initiator).unwrap() {
                HandshakeOutcome::Pending(h) => pair.initiator = Some(h),
                HandshakeOutcome::Complete(codec, message) => {
                    pair.initiator_done = Some((codec, message))
                }
            }
        }
        shuttle(&mut pair.io_initiator, &mut pair.io_responder);
        if let Some(h) = pair.responder.take() {
            match Handshake::listen(h, &mut pair.io_responder).unwrap() {
                HandshakeOutcome::Pending(h) => pair.responder = Some(h),
                HandshakeOutcome::Complete(codec, message) => {
                    pair.responder_done = Some((codec, message))
                }
            }
        }
        shuttle(&mut pair.io_responder, &mut pair.io_initiator);
    }
    assert_eq!(pair.initiator_done.unwrap().1, r_ann);
    assert_eq!(pair.responder_done.unwrap().1, i_ann);
}

#[test]
fn driving_the_wrong_role_is_an_invariant_violation() {
    let mut pair = matched_pair(vec![1u8; 8], vec![2u8; 8], 1024);
    // An initiator attempt driven as a responder is a misuse, reported
    // as a defect rather than executed.
    let initiator = pair.initiator.take().unwrap();
    let err = Handshake::listen(initiator, &mut pair.io_initiator).unwrap_err();
    assert!(matches!(err.kind, HandshakeErrorKind::InvariantViolation(_)));
}

#[test]
fn noise_error_wraps_the_engine_error() {
    let err = NoiseError::from(snow::Error::Input);
    assert!(matches!(err, NoiseError::Snow(_)));
}

#[test]
fn set_remote_key_converts_once() {
    let (pk, sk) = keypair(9);
    let (remote, _) = keypair(8);
    let mut params = HandshakeParams::new(&pk, &sk, list_of(&[]), vec![0u8; 8], 64).unwrap();
    assert!(params.remote_key.is_none());
    assert!(params.set_remote_key(&remote));
    let converted = params.remote_key.unwrap();
    // The key-agreement form differs from the identity encoding: the
    // conversion really happened.
    assert_ne!(converted.bytes, remote.bytes);
}
