use musig2::secp::{Point, Scalar};
use musig2::KeyAggContext;
use schnorr_musig2::{
    compute_deterministic_hashes, Msg, Msg1, Msg2, Phase, RoundError, RoundStore, SigningError,
    SigningSession,
};
use sha2::{Digest, Sha256};

fn secret(k: u8) -> Vec<u8> {
    let mut b = vec![0u8; 32];
    b[31] = k;
    b[0] = 0x11;
    b
}

fn public(k: u8) -> Vec<u8> {
    Scalar::from_slice(&secret(k)).unwrap().base_point_mul().serialize().to_vec()
}

fn roster(n: u8) -> Vec<Vec<u8>> {
    (1..=n).map(public).collect()
}

fn copy_msg(m: &Msg) -> Msg {
    match m {
        Msg::Round1Broadcast(m1) => Msg::Round1Broadcast(Msg1 {
            sender: m1.sender,
            receiver: m1.receiver,
            nonce: m1.nonce.clone(),
        }),
        Msg::Round2Broadcast(m2) => Msg::Round2Broadcast(Msg2 {
            sender: m2.sender,
            receiver: m2.receiver,
            partial_sig: m2.partial_sig.clone(),
        }),
    }
}

fn sender_of(m: &Msg) -> u16 {
    match m {
        Msg::Round1Broadcast(m1) => m1.sender,
        Msg::Round2Broadcast(m2) => m2.sender,
    }
}

fn start_all(n: u8, message: &[u8], salt: u8) -> (Vec<SigningSession>, Vec<Msg>) {
    let r = roster(n);
    let mut sessions = Vec::new();
    let mut first = Vec::new();
    for i in 0..n {
        let (s, m) = SigningSession::start(&r, &secret(i + 1), i as u16, &message.to_vec(), [salt ^ i; 32])
            .unwrap();
        sessions.push(s);
        first.push(m);
    }
    (sessions, first)
}

/// Delivers each broadcast to every other party, in the given sender order,
/// and collects what the parties send back.
fn deliver(sessions: &mut [SigningSession], msgs: &[Msg], order: &[usize]) -> Vec<(Vec<Msg>, Vec<Option<Vec<u8>>>)> {
    let mut outs = Vec::new();
    for (j, s) in sessions.iter_mut().enumerate() {
        let mut sent = Vec::new();
        let mut sigs = Vec::new();
        for &k in order {
            if k == j {
                continue;
            }
            let step = s.receive(copy_msg(&msgs[k])).unwrap();
            if let Some(m) = step.outgoing {
                sent.push(m);
            }
            sigs.push(step.output.and_then(|o| o.signature));
        }
        outs.push((sent, sigs));
    }
    outs
}

fn run(n: u8, message: &[u8], order: &[usize], salt: u8) -> (Vec<Vec<u8>>, Vec<u8>) {
    let (mut sessions, first) = start_all(n, message, salt);
    let outs = deliver(&mut sessions, &first, order);
    let second: Vec<Msg> = outs.into_iter().map(|(mut sent, _)| sent.remove(0)).collect();
    for (k, m) in second.iter().enumerate() {
        assert_eq!(sender_of(m), k as u16);
    }
    let outs = deliver(&mut sessions, &second, order);
    let sigs: Vec<Vec<u8>> = outs
        .into_iter()
        .map(|(_, sigs)| sigs.into_iter().flatten().next().unwrap())
        .collect();
    for s in &sessions {
        assert_eq!(s.current_phase(), Phase::Finished);
    }
    (sigs, sessions[0].aggregate_public_key())
}

fn aggregate_point(n: u8) -> Point {
    let points: Vec<Point> = roster(n).iter().map(|b| Point::from_slice(b).unwrap()).collect();
    KeyAggContext::new(points).unwrap().aggregated_pubkey()
}

#[test]
fn three_parties_produce_a_valid_signature() {
    let message = b"hello-world";
    let (sigs, key) = run(3, message, &[0, 1, 2], 7);
    assert_eq!(sigs[0].len(), 64);
    assert_eq!(sigs[0], sigs[1]);
    assert_eq!(sigs[1], sigs[2]);
    let agg = aggregate_point(3);
    assert_eq!(key, agg.serialize().to_vec());
    let sig: [u8; 64] = sigs[0].clone().try_into().unwrap();
    assert!(musig2::verify_single(agg, sig, message).is_ok());
}

#[test]
fn aggregate_key_is_deterministic() {
    let (a, _) = start_all(3, b"one", 1);
    let (b, _) = start_all(3, b"two", 2);
    assert_eq!(a[0].aggregate_public_key(), b[0].aggregate_public_key());
    assert_eq!(a[1].aggregate_public_key(), b[2].aggregate_public_key());
    assert_eq!(a[0].aggregate_public_key(), aggregate_point(3).serialize().to_vec());
}

#[test]
fn aggregate_key_depends_on_roster_order() {
    let r = roster(3);
    let mut swapped = r.clone();
    swapped.swap(0, 1);
    let msg = b"m".to_vec();
    let (a, _) = SigningSession::start(&r, &secret(1), 0, &msg, [1; 32]).unwrap();
    let (b, _) = SigningSession::start(&swapped, &secret(1), 1, &msg, [1; 32]).unwrap();
    assert_ne!(a.aggregate_public_key(), b.aggregate_public_key());
}

#[test]
fn arrival_order_does_not_change_the_signature() {
    let (a, _) = run(4, b"order", &[0, 1, 2, 3], 9);
    let (b, _) = run(4, b"order", &[3, 1, 0, 2], 9);
    assert_eq!(a, b);
}

#[test]
fn duplicate_sender_is_rejected() {
    let (mut sessions, first) = start_all(3, b"dup", 3);
    let step = sessions[0].receive(copy_msg(&first[1])).unwrap();
    assert!(step.outgoing.is_none() && step.output.is_none());
    let again = sessions[0].receive(copy_msg(&first[1]));
    assert!(matches!(again, Err(SigningError::MpcError(_))));
    assert_eq!(sessions[0].current_phase(), Phase::Failed);
    assert!(matches!(sessions[0].receive(copy_msg(&first[2])), Err(SigningError::MpcError(_))));
}

#[test]
fn own_and_unknown_senders_are_rejected() {
    let (mut sessions, first) = start_all(3, b"who", 4);
    assert!(matches!(sessions[1].receive(copy_msg(&first[1])), Err(SigningError::MpcError(_))));
    let (mut sessions, first) = start_all(3, b"who", 4);
    let stray = match &first[2] {
        Msg::Round1Broadcast(m) => Msg::Round1Broadcast(Msg1 { sender: 7, receiver: None, nonce: m.nonce.clone() }),
        _ => unreachable!(),
    };
    assert!(matches!(sessions[0].receive(stray), Err(SigningError::MpcError(_))));
}

#[test]
fn round_completes_only_with_every_peer() {
    let (mut sessions, first) = start_all(4, b"wait", 5);
    assert!(sessions[0].receive(copy_msg(&first[1])).unwrap().outgoing.is_none());
    assert!(sessions[0].receive(copy_msg(&first[3])).unwrap().outgoing.is_none());
    assert_eq!(sessions[0].current_phase(), Phase::AwaitingNonces);
    let step = sessions[0].receive(copy_msg(&first[2])).unwrap();
    assert!(matches!(step.outgoing, Some(Msg::Round2Broadcast(ref m)) if m.sender == 0 && m.receiver.is_none()));
    assert_eq!(sessions[0].current_phase(), Phase::AwaitingPartials);
    assert!(matches!(sessions[0].receive(copy_msg(&first[1])), Err(SigningError::MpcError(_))));
}

#[test]
fn fresh_sessions_never_share_a_nonce() {
    let r = roster(3);
    let (_, a) = SigningSession::start_fresh(&r, &secret(1), 0, &b"first".to_vec()).unwrap();
    let (_, b) = SigningSession::start_fresh(&r, &secret(1), 0, &b"second".to_vec()).unwrap();
    let (_, c) = SigningSession::start_fresh(&r, &secret(1), 0, &b"first".to_vec()).unwrap();
    let nonce = |m: &Msg| -> Vec<u8> {
        match m {
            Msg::Round1Broadcast(m1) => m1.nonce.clone(),
            _ => unreachable!(),
        }
    };
    assert_ne!(nonce(&a), nonce(&b));
    assert_ne!(nonce(&a), nonce(&c));
}

#[test]
fn nonce_depends_on_message() {
    let r = roster(2);
    let (_, a) = SigningSession::start(&r, &secret(1), 0, &b"first".to_vec(), [5; 32]).unwrap();
    let (_, b) = SigningSession::start(&r, &secret(1), 0, &b"second".to_vec(), [5; 32]).unwrap();
    match (a, b) {
        (Msg::Round1Broadcast(x), Msg::Round1Broadcast(y)) => assert_ne!(x.nonce, y.nonce),
        _ => unreachable!(),
    }
}

#[test]
fn tampered_partial_signature_is_detected() {
    let (mut sessions, first) = start_all(3, b"tamper", 6);
    let outs = deliver(&mut sessions, &first, &[0, 1, 2]);
    let mut second: Vec<Msg> = outs.into_iter().map(|(mut sent, _)| sent.remove(0)).collect();
    if let Msg::Round2Broadcast(m) = &mut second[1] {
        m.partial_sig[31] ^= 1;
    }
    assert!(sessions[0].receive(copy_msg(&second[1])).unwrap().output.is_none());
    let last = sessions[0].receive(copy_msg(&second[2]));
    assert!(matches!(last, Err(SigningError::MpcError(_))));
    assert_eq!(sessions[0].current_phase(), Phase::Failed);
}

#[test]
fn tampered_final_signature_fails_verification() {
    let message = b"hello-world";
    let (sigs, _) = run(3, message, &[0, 1, 2], 8);
    let mut sig: [u8; 64] = sigs[0].clone().try_into().unwrap();
    sig[63] ^= 1;
    assert!(musig2::verify_single(aggregate_point(3), sig, message).is_err());
}

#[test]
fn bad_peer_key_fails_key_setup() {
    let mut r = roster(3);
    r[2] = vec![5u8; 33];
    let res = SigningSession::start(&r, &secret(1), 0, &b"m".to_vec(), [0; 32]);
    assert!(matches!(res, Err(SigningError::KeySetupError(_))));
}

#[test]
fn bad_secret_fails_key_setup() {
    let res = SigningSession::start(&roster(3), &vec![0u8; 32], 0, &b"m".to_vec(), [0; 32]);
    assert!(matches!(res, Err(SigningError::KeySetupError(_))));
    let res = SigningSession::start(&roster(3), &vec![0xffu8; 32], 0, &b"m".to_vec(), [0; 32]);
    assert!(matches!(res, Err(SigningError::KeySetupError(_))));
    let res = SigningSession::start(&roster(3), &vec![1u8; 31], 0, &b"m".to_vec(), [0; 32]);
    assert!(matches!(res, Err(SigningError::KeySetupError(_))));
}

#[test]
fn single_party_fails_key_setup() {
    let res = SigningSession::start(&roster(1), &secret(1), 0, &b"m".to_vec(), [0; 32]);
    assert!(matches!(res, Err(SigningError::KeySetupError(_))));
}

#[test]
fn index_outside_roster_is_a_context_error() {
    let res = SigningSession::start(&roster(3), &secret(1), 3, &b"m".to_vec(), [0; 32]);
    assert!(matches!(res, Err(SigningError::ContextError(_))));
}

#[test]
fn secret_of_another_party_fails() {
    let res = SigningSession::start(&roster(3), &secret(2), 0, &b"m".to_vec(), [0; 32]);
    assert!(matches!(res, Err(SigningError::MpcError(_))));
}

#[test]
fn deterministic_hashes_match_sha256() {
    let (meta, eid) = compute_deterministic_hashes(3, 42, 7, "schnorrkel-signing");
    let mut pre = Vec::new();
    pre.extend_from_slice(&3u16.to_be_bytes());
    pre.extend_from_slice(&42u64.to_be_bytes());
    pre.extend_from_slice(&7u64.to_be_bytes());
    pre.extend_from_slice(b"schnorrkel-musig-protocol");
    let expected_meta: [u8; 32] = Sha256::digest(&pre).into();
    assert_eq!(meta, expected_meta);
    let mut second = expected_meta.to_vec();
    second.extend_from_slice(b"schnorrkel-signing");
    let expected_eid: [u8; 32] = Sha256::digest(&second).into();
    assert_eq!(eid, expected_eid);
    assert_eq!(
        hex::encode(Sha256::digest(b"abc")),
        "ba7816bf8f01cfea414140de5dae2223b00361a396177a9cb410ff61f20015ad"
    );
}

#[test]
fn deterministic_hashes_separate_calls() {
    let (a, ea) = compute_deterministic_hashes(3, 42, 7, "s");
    let (b, eb) = compute_deterministic_hashes(3, 42, 8, "s");
    let (_, ec) = compute_deterministic_hashes(3, 42, 7, "t");
    assert_ne!(a, b);
    assert_ne!(ea, eb);
    assert_ne!(ea, ec);
}

#[test]
fn signing_error_messages() {
    assert_eq!(SigningError::ContextError("x".to_string()).message(), "Context error: x");
    assert_eq!(SigningError::KeySetupError("y".to_string()).message(), "Key retrieval error: y");
    assert_eq!(SigningError::MpcError("z".to_string()).message(), "MPC error: z");
}

#[test]
fn round_store_collects_each_peer_once() {
    let mut store: RoundStore<u32> = RoundStore::new(1, 3);
    assert!(!store.is_complete());
    assert_eq!(store.add(3, 9), Err(RoundError::SenderOutOfRange));
    assert_eq!(store.add(1, 9), Err(RoundError::SenderIsMe));
    assert_eq!(store.add(2, 20), Ok(()));
    assert_eq!(store.add(2, 21), Err(RoundError::DuplicateSender));
    assert!(!store.is_complete());
    assert_eq!(store.add(0, 10), Ok(()));
    assert!(store.is_complete());
    assert_eq!(store.add(0, 11), Err(RoundError::DuplicateSender));
    assert_eq!(store.into_vec_including_me(15), vec![10, 15, 20]);
}

#[test]
fn round_store_ignores_arrival_order() {
    let mut a: RoundStore<u32> = RoundStore::new(0, 4);
    let mut b: RoundStore<u32> = RoundStore::new(0, 4);
    for (k, v) in [(1, 11), (2, 12), (3, 13)] {
        a.add(k, v).unwrap();
    }
    for (k, v) in [(3, 13), (1, 11), (2, 12)] {
        b.add(k, v).unwrap();
    }
    assert_eq!(a.into_vec_including_me(10), b.into_vec_including_me(10));
}

#[test]
fn empty_roster_fails_key_setup() {
    let res = SigningSession::start(&Vec::new(), &secret(1), 0, &b"m".to_vec(), [0; 32]);
    assert!(matches!(res, Err(SigningError::KeySetupError(_))));
}

#[test]
fn malformed_nonce_is_rejected() {
    let (mut sessions, first) = start_all(3, b"bad", 2);
    let bad = match &first[1] {
        Msg::Round1Broadcast(m) => Msg::Round1Broadcast(Msg1 { sender: m.sender, receiver: None, nonce: m.nonce[..65].to_vec() }),
        _ => unreachable!(),
    };
    assert!(matches!(sessions[0].receive(bad), Err(SigningError::MpcError(_))));
    assert_eq!(sessions[0].current_phase(), Phase::Failed);
}

#[test]
fn malformed_partial_signature_is_rejected() {
    let (mut sessions, first) = start_all(3, b"bad", 2);
    let bad = Msg::Round2Broadcast(Msg2 { sender: 1, receiver: None, partial_sig: vec![0xff; 32] });
    assert!(matches!(sessions[0].receive(bad), Err(SigningError::MpcError(_))));
    let _ = first;
}

#[test]
fn early_second_round_messages_are_kept() {
    let (mut sessions, first) = start_all(3, b"early", 11);
    let outs = {
        let (a, b) = sessions.split_at_mut(1);
        let mut second = Vec::new();
        for (j, s) in b.iter_mut().enumerate() {
            let j = j + 1;
            let mut out = None;
            for k in 0..3 {
                if k != j {
                    if let Some(m) = s.receive(copy_msg(&first[k])).unwrap().outgoing {
                        out = Some(m);
                    }
                }
            }
            second.push(out.unwrap());
        }
        let _ = a;
        second
    };
    // Party 0 hears both peers' partial signatures before their nonces.
    for m in &outs {
        assert!(sessions[0].receive(copy_msg(m)).unwrap().output.is_none());
    }
    assert!(sessions[0].receive(copy_msg(&first[1])).unwrap().output.is_none());
    let step = sessions[0].receive(copy_msg(&first[2])).unwrap();
    assert!(step.outgoing.is_some());
    let sig: [u8; 64] = step.output.unwrap().signature.unwrap().try_into().unwrap();
    assert!(musig2::verify_single(aggregate_point(3), sig, b"early").is_ok());
}
