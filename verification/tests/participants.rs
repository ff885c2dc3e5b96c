use grin_util::secp;
use slate::error::SlateError;
use slate::participant::{ParticipantData, ParticipantMessageData};
use slate::rounds::message_nonce;
use slate::slate::Slate;

/// The secret key with the given number.
fn key(n: u8) -> [u8; 32] {
    let mut k = [0; 32];
    k[31] = n;
    k
}

/// The generator of the curve: the public key of 1.
fn generator() -> [u8; 33] {
    [
        0x02, 0x79, 0xbe, 0x66, 0x7e, 0xf9, 0xdc, 0xbb, 0xac, 0x55, 0xa0, 0x62, 0x95, 0xce, 0x87, 0x0b,
        0x07, 0x02, 0x9b, 0xfc, 0xdb, 0x2d, 0xce, 0x28, 0xd9, 0x59, 0xf2, 0x81, 0x5b, 0x16, 0xf8, 0x17,
        0x98,
    ]
}

fn join(s: &mut Slate, k: u8, n: u8, id: usize, message: Option<&str>) {
    s.add_participant_info(&key(k), &key(n), id, None, message.map(|m| m.to_string()), true)
        .unwrap();
}

#[test]
fn blank_slates() {
    let s = Slate::blank(0, false);
    assert_eq!(s.num_participants, 2);
    assert_eq!(Slate::blank(3, true).num_participants, 3);
    assert_eq!((s.id[6] >> 4, s.id[8] >> 6), (4, 2));
    assert_ne!(s.id, Slate::blank(0, false).id);
    assert_eq!((s.version_info.version, s.version_info.block_header_version), (3, 1));
    assert_eq!((s.amount, s.fee, s.height, s.lock_height), (0, 0, 0, 0));
    assert_eq!((s.tx.offset, s.offset), ([0; 32], [0; 32]));
    assert!(s.participant_data.is_empty() && s.payment_proof.is_none());
    assert!(matches!(&s.tx.body.inputs, slate::transaction::Inputs::FeaturesAndCommit(i) if i.is_empty()));
    assert!(s.participant_messages().messages.is_empty());
    assert_eq!(s.verify_messages(), Ok(()));
    assert_eq!(s.verify_part_sigs(), Ok(()));
}

#[test]
fn keys_are_published() {
    let mut s = Slate::blank(2, true);
    join(&mut s, 1, 2, 0, None);
    let p = s.participant_with_id(0).unwrap();
    assert_eq!(p.public_blind_excess, generator());
    assert_ne!(p.public_nonce, generator());
    assert_eq!((p.part_sig, p.message, p.message_sig), (None, None, None));
    assert!(s.participant_with_id(1).is_none());
}

#[test]
fn keys_that_are_none_are_refused() {
    let mut s = Slate::blank(2, true);
    for (k, n) in [([0; 32], key(1)), (key(1), [0; 32]), ([0xff; 32], key(1)), (key(1), [0xff; 32])] {
        let r = s.add_participant_info(&k, &n, 0, None, Some("m".to_string()), true);
        assert_eq!(r, Err(SlateError::Secp(secp::Error::InvalidSecretKey)));
    }
    assert!(s.participant_data.is_empty());
}

#[test]
fn messages_are_signed() {
    let mut s = Slate::blank(2, true);
    join(&mut s, 1, 2, 0, Some("hello"));
    join(&mut s, 3, 4, 1, None);
    assert_eq!(s.verify_messages(), Ok(()));

    // the signature is one over the hash of the text
    let p = s.participant_with_id(0).unwrap();
    let ctx = secp::Secp256k1::with_caps(secp::ContextFlag::Commit);
    let hash = blake2_rfc::blake2b::blake2b(32, &[], b"hello");
    let message = secp::Message::from_slice(hash.as_bytes()).unwrap();
    let public = secp::key::PublicKey::from_slice(&ctx, &p.public_blind_excess).unwrap();
    let signature = secp::Signature::from_raw_data(&p.message_sig.unwrap()).unwrap();
    assert!(grin_core::libtx::aggsig::verify_single(
        &ctx, &signature, &message, None, &public, Some(&public), false
    ));
}

#[test]
fn message_signatures_are_fixed_or_random() {
    let sign = |fixed: bool| {
        let mut s = Slate::blank(2, true);
        s.add_participant_info(&key(1), &key(2), 0, None, Some("hello".to_string()), fixed).unwrap();
        assert_eq!(s.verify_messages(), Ok(()));
        s.participant_data[0].message_sig.unwrap()
    };
    assert_eq!(sign(true), sign(true));
    assert_ne!(sign(false), sign(false));
    assert_ne!(sign(false), sign(true));
    assert_eq!(message_nonce(true), Some([1; 32]));
    assert_eq!(message_nonce(false), None);
}

#[test]
fn wrong_messages_are_refused() {
    let mut s = Slate::blank(2, true);
    join(&mut s, 1, 2, 0, Some("hello"));
    join(&mut s, 3, 4, 1, Some("there"));
    let mismatch = Err(SlateError::Signature(
        "Optional participant messages do not match signatures".to_string(),
    ));
    let mut other = s.clone();
    other.participant_data[0].message = Some("Hello".to_string());
    assert_eq!(other.verify_messages(), mismatch);
    let mut other = s.clone();
    other.participant_data[1].message_sig = s.participant_data[0].message_sig;
    assert_eq!(other.verify_messages(), mismatch);
    assert_eq!(other.participant_data[0].verify_message(), Ok(()));
    assert_eq!(other.participant_data[1].verify_message(), mismatch);
    let mut other = s.clone();
    other.participant_data[1].public_blind_excess = [0; 33];
    assert_eq!(other.verify_messages(), mismatch);
    let mut other = s.clone();
    other.participant_data[1].message_sig = None;
    assert_eq!(
        other.verify_messages(),
        Err(SlateError::Signature(
            "Optional participant messages doesn't have signature".to_string()
        ))
    );
    other.participant_data[1].message = None;
    assert_eq!(other.verify_messages(), Ok(()));
}

#[test]
fn message_verdicts() {
    let mut s = Slate::blank(2, true);
    join(&mut s, 1, 2, 0, Some("hello"));
    let mut p: ParticipantData = s.participant_data[0].clone();
    assert_eq!(p.message_verdict(true), Ok(()));
    assert!(p.message_verdict(false).is_err());
    p.message_sig = None;
    assert!(p.message_verdict(true).is_err());
    p.message = None;
    assert_eq!(p.message_verdict(false), Ok(()));
}

fn data(id: u64, k: u8, part_sig: Option<u8>, message: Option<&str>, sig: Option<u8>) -> ParticipantData {
    ParticipantData {
        id,
        public_blind_excess: [k; 33],
        public_nonce: [k; 33],
        part_sig: part_sig.map(|b| [b; 64]),
        message: message.map(|m| m.to_string()),
        message_sig: sig.map(|b| [b; 64]),
    }
}

#[test]
fn recording_keeps_what_is_not_given_anew() {
    let mut s = Slate::blank(2, true);
    s.record_participant(data(0, 1, None, None, None));
    s.record_participant(data(1, 2, Some(5), Some("m"), Some(6)));
    assert_eq!(s.participant_data.len(), 2);
    // same keys: signatures stay unless they are replaced
    s.record_participant(data(1, 2, None, Some("m"), None));
    assert_eq!(s.participant_data[1], data(1, 2, Some(5), Some("m"), Some(6)));
    s.record_participant(data(1, 2, Some(7), Some("m"), Some(8)));
    assert_eq!(s.participant_data[1], data(1, 2, Some(7), Some("m"), Some(8)));
    // another message: its signature is replaced, the partial signature stays
    s.record_participant(data(1, 2, None, Some("n"), Some(9)));
    assert_eq!(s.participant_data[1], data(1, 2, Some(7), Some("n"), Some(9)));
    s.record_participant(data(1, 2, None, None, None));
    assert_eq!(s.participant_data[1], data(1, 2, Some(7), None, None));
    // other keys: nothing stays
    s.record_participant(data(1, 3, None, None, None));
    assert_eq!(s.participant_data[1], data(1, 3, None, None, None));
    assert_eq!(s.participant_data[0], data(0, 1, None, None, None));
    assert_eq!(s.participant_data.len(), 2);
}

#[test]
fn recording_twice_changes_nothing() {
    let mut s = Slate::blank(2, true);
    s.record_participant(data(4, 1, Some(2), Some("m"), Some(3)));
    let once = s.participant_data.clone();
    s.record_participant(data(4, 1, Some(2), Some("m"), Some(3)));
    assert_eq!(s.participant_data, once);
    assert_eq!(s.participant_with_id(4), Some(once[0].clone()));
}

#[test]
fn completeness() {
    assert!(!data(0, 1, None, None, None).is_complete());
    assert!(data(0, 1, Some(1), None, None).is_complete());
}

#[test]
fn messages_are_listed_in_order() {
    let mut s = Slate::blank(2, true);
    s.record_participant(data(7, 1, Some(2), Some("m"), Some(3)));
    s.record_participant(data(2, 5, None, None, None));
    let m = s.participant_messages().messages;
    assert_eq!(m.len(), 2);
    assert_eq!((m[0].id, m[1].id), (7, 2));
    assert_eq!((m[0].public_key, m[0].message.clone(), m[0].message_sig), ([1; 33], Some("m".to_string()), Some([3; 64])));
    assert_eq!((m[1].public_key, m[1].message.clone(), m[1].message_sig), ([5; 33], None, None));
}

#[test]
fn messages_as_text() {
    let m = ParticipantMessageData::from_participant_data(&data(0, 0xa1, None, None, None));
    let expected = format!(
        "\nParticipant ID 0 (Sender)\n---------------------\nPublic Key: {}\nMessage: None\nMessage Signature: None\n",
        "a1".repeat(33)
    );
    assert_eq!(m.to_text(), expected);
    let m = ParticipantMessageData::from_participant_data(&data(120, 0x0f, None, Some("hi"), Some(0xe0)));
    let expected = format!(
        "\nParticipant ID 120 (Recipient)\n---------------------\nPublic Key: {}\nMessage: hi\nMessage Signature: {}\n",
        "0f".repeat(33),
        "e0".repeat(64)
    );
    assert_eq!(m.to_text(), expected);
}

#[test]
fn decimal_numbers() {
    assert_eq!(slate::text::decimal_text(0), "0");
    assert_eq!(slate::text::decimal_text(9876543210), "9876543210");
    assert_eq!(slate::text::decimal_text(u64::MAX), "18446744073709551615");
}
