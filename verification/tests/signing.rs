use grin_keychain::Keychain as _;
use grin_util::secp;
use slate::error::SlateError;
use slate::offset::{Context, Keychain};
use slate::slate::Slate;
use slate::transaction::{
    Input, Inputs, KernelFeatures, Output, OutputFeatures, OutputIdentifier, RangeProof,
    Transaction, TxKernel,
};

fn key(n: u8) -> [u8; 32] {
    let mut k = [0; 32];
    k[31] = n;
    k
}

fn context() -> secp::Secp256k1 {
    secp::Secp256k1::with_caps(secp::ContextFlag::Commit)
}

/// The sum of the first keys less that of the second ones.
fn key_sum(positive: &[[u8; 32]], negative: &[[u8; 32]]) -> [u8; 32] {
    let keys = |k: &[[u8; 32]]| k.iter().map(|k| secp::key::SecretKey(*k)).collect::<Vec<_>>();
    context().blind_sum(keys(positive), keys(negative)).unwrap().0
}

fn commit(value: u64, blind: [u8; 32]) -> [u8; 33] {
    context().commit(value, secp::key::SecretKey(blind)).unwrap().0
}

fn output(value: u64, blind: [u8; 32]) -> Output {
    Output {
        identifier: OutputIdentifier { features: OutputFeatures::Plain, commit: commit(value, blind) },
        proof: RangeProof { proof: [0; 675], plen: 675 },
    }
}

const FIXED_OFFSET: [u8; 32] = [
    0xd2, 0x02, 0x96, 0x49, 0, 0, 0, 0, 0xd3, 0x02, 0x96, 0x49, 0, 0, 0, 0, 0xd4, 0x02, 0x96, 0x49, 0, 0,
    0, 0, 0xd5, 0x02, 0x96, 0x49, 0, 0, 0, 0,
];

/// A slate with a kernel that pays `fee`.
fn with_kernel(compact: bool, amount: u64, fee: u64) -> Slate {
    let mut s = Slate::blank(2, compact);
    s.amount = amount;
    s.fee = fee;
    s.update_kernel();
    s
}

/// A compact slate that both participants have signed.
fn signed_compact(amount: u64, fee: u64) -> Slate {
    let mut s = with_kernel(true, amount, fee);
    let mut sender = key(11);
    let mut receiver = key(12);
    s.fill_round_1(&mut sender, &key(21), 0, Some("pay".to_string()), false).unwrap();
    s.fill_round_1(&mut receiver, &key(22), 1, None, false).unwrap();
    assert_eq!((sender, receiver), (key(11), key(12)));
    s.fill_round_2(&receiver, &key(22), 1).unwrap();
    s.fill_round_2(&sender, &key(21), 0).unwrap();
    s
}

fn accept(_: &Transaction) -> Result<(), grin_core::core::transaction::Error> {
    Ok(())
}

#[test]
fn kernel_of_a_slate() {
    let mut s = Slate::blank(2, false);
    s.fee = 5;
    assert_eq!(s.kernel_features(), KernelFeatures::Plain { fee: 5 });
    s.update_kernel();
    s.lock_height = 9;
    assert_eq!(s.kernel_features(), KernelFeatures::HeightLocked { fee: 5, lock_height: 9 });
    s.update_kernel();
    let kernel = TxKernel {
        features: KernelFeatures::HeightLocked { fee: 5, lock_height: 9 },
        excess: [0; 33],
        excess_sig: [0; 64],
    };
    assert_eq!(s.tx.body.kernels, vec![kernel]);
    assert_eq!(s.tx.body.fee(), 5);
    s.update_kernel();
    assert_eq!(s.tx.body.kernels, vec![kernel]);
}

#[test]
fn fees_add_up() {
    let mut tx = Transaction::empty();
    assert_eq!(tx.body.fee(), 0);
    for features in [
        KernelFeatures::Plain { fee: 1 },
        KernelFeatures::Coinbase,
        KernelFeatures::HeightLocked { fee: 20, lock_height: 1 },
        KernelFeatures::NoRecentDuplicate { fee: 300, relative_height: 1 },
    ] {
        tx.body.kernels.push(TxKernel::with_features(features));
    }
    assert_eq!(tx.body.fee(), 321);
    tx.body.kernels.push(TxKernel::with_features(KernelFeatures::Plain { fee: u64::MAX }));
    assert_eq!(tx.body.fee(), u64::MAX);
}

#[test]
fn messages_to_sign() {
    let mut s = Slate::blank(2, false);
    s.fee = 1_500_000;
    let fee = grin_core::core::FeeFields::new(0, 1_500_000).unwrap();
    let expected = grin_core::core::KernelFeatures::Plain { fee }.kernel_sig_msg().unwrap();
    assert_eq!(s.msg_to_sign().unwrap()[..], expected[..]);
    s.lock_height = 77;
    let expected = grin_core::core::KernelFeatures::HeightLocked { fee, lock_height: 77 }.kernel_sig_msg().unwrap();
    assert_eq!(s.msg_to_sign().unwrap()[..], expected[..]);
}

#[test]
fn sums_of_no_keys() {
    let mut s = Slate::blank(2, false);
    let nonces = SlateError::GenericError("Participant nonces cannot be empty".to_string());
    let blinds = SlateError::GenericError("Participant Blind sums cannot be empty".to_string());
    assert_eq!(s.pub_nonce_sum(), Err(nonces));
    assert_eq!(s.pub_blind_sum(), Err(blinds));
    assert!(matches!(s.finalize_signature(), Err(SlateError::GenericError(t)) if t == "Participant nonces cannot be empty"));
    assert!(matches!(s.fill_round_2(&key(1), &key(2), 0), Err(SlateError::GenericError(_))));
}

#[test]
fn sums_of_keys() {
    let mut s = Slate::blank(2, true);
    s.fill_round_1(&mut key(1), &key(2), 0, None, true).unwrap();
    s.fill_round_1(&mut key(2), &key(5), 1, None, true).unwrap();
    let ctx = context();
    let public = |n: u8| {
        let k = secp::key::SecretKey(key(n));
        secp::key::PublicKey::from_secret_key(&ctx, &k).unwrap().serialize_vec(&ctx, true).to_vec()
    };
    assert_eq!(s.pub_blind_sum().unwrap().to_vec(), public(3));
    assert_eq!(s.pub_nonce_sum().unwrap().to_vec(), public(7));
}

#[test]
fn keys_that_cancel_out_have_no_sum() {
    let mut s = Slate::blank(2, true);
    s.fill_round_1(&mut key(1), &key(2), 0, None, true).unwrap();
    let minus_one = key_sum(&[key(1)], &[key(2)]);
    s.fill_round_1(&mut minus_one.clone(), &key(5), 1, None, true).unwrap();
    assert!(matches!(s.pub_blind_sum(), Err(SlateError::Secp(_))));
    assert!(matches!(s.calc_excess(), Err(SlateError::Secp(_))));
}

#[test]
fn partial_signatures_are_verified() {
    let s = signed_compact(10, 2);
    assert_eq!(s.verify_part_sigs(), Ok(()));
    assert!(s.participant_data.iter().all(|p| p.is_complete()));
    assert_eq!(s.part_sigs().len(), 2);
    let mut wrong = s.clone();
    wrong.participant_data[0].part_sig = s.participant_data[1].part_sig;
    assert!(matches!(wrong.verify_part_sigs(), Err(SlateError::LibTx(_))));
    assert!(matches!(wrong.finalize_signature(), Err(SlateError::LibTx(_))));
    assert!(matches!(wrong.fill_round_2(&key(11), &key(21), 0), Err(SlateError::LibTx(_))));
    let mut wrong = s.clone();
    wrong.fee += 1;
    assert!(matches!(wrong.verify_part_sigs(), Err(SlateError::LibTx(_))));
}

#[test]
fn missing_partial_signatures_do_not_finalize() {
    let mut s = signed_compact(10, 2);
    s.participant_data[1].part_sig = None;
    assert_eq!(s.verify_part_sigs(), Ok(()));
    assert_eq!(s.part_sigs(), vec![s.participant_data[0].part_sig.unwrap()]);
    assert!(matches!(s.finalize_signature(), Err(SlateError::LibTx(_))));
}

#[test]
fn secret_keys_beyond_the_order_do_not_sign() {
    let mut s = with_kernel(true, 10, 2);
    s.fill_round_1(&mut key(1), &key(2), 0, None, true).unwrap();
    assert!(matches!(s.fill_round_2(&[0xff; 32], &key(2), 0), Err(SlateError::LibTx(_))));
    assert_eq!(s.participant_data[0].part_sig, None);
}

fn too_early() -> SlateError {
    SlateError::GenericError(
        "Round 2 can only be completed after all participants have performed round 1".to_string(),
    )
}

#[test]
fn second_round_waits_for_all_participants() {
    let mut s = with_kernel(true, 10, 2);
    assert_eq!(
        s.fill_round_2(&key(1), &key(2), 0),
        Err(SlateError::GenericError("Participant nonces cannot be empty".to_string()))
    );
    s.fill_round_1(&mut key(1), &key(2), 0, None, true).unwrap();
    // one of two has joined: neither that one nor a stranger can complete the round
    let before = s.participant_data.clone();
    assert_eq!(s.fill_round_2(&key(1), &key(2), 0), Err(too_early()));
    assert_eq!(s.fill_round_2(&key(1), &key(2), 9), Err(too_early()));
    assert_eq!(s.participant_data, before);
    assert!(!s.participant_data[0].is_complete());
    // a wrong partial signature is reported first
    let mut wrong = s.clone();
    wrong.participant_data[0].part_sig = Some([1; 64]);
    assert!(matches!(wrong.fill_round_2(&key(1), &key(2), 0), Err(SlateError::LibTx(_))));
    s.fill_round_1(&mut key(3), &key(4), 1, None, true).unwrap();
    assert_eq!(s.fill_round_2(&key(1), &key(2), 0), Ok(()));
    assert!(s.participant_data[0].is_complete());
    assert!(!s.participant_data[1].is_complete());
}

#[test]
fn second_round_of_a_stranger() {
    let mut s = with_kernel(true, 10, 2);
    s.num_participants = 1;
    s.fill_round_1(&mut key(1), &key(2), 0, None, true).unwrap();
    // with all intended participants there, a stranger changes nothing
    let before = s.participant_data.clone();
    assert_eq!(s.fill_round_2(&key(1), &key(2), 9), Ok(()));
    assert_eq!(s.participant_data, before);
    // a participant beyond the intended number is not signed for
    s.fill_round_1(&mut key(3), &key(4), 1, None, true).unwrap();
    assert_eq!(s.fill_round_2(&key(3), &key(4), 1), Ok(()));
    assert_eq!(s.participant_data[1].part_sig, None);
}

#[test]
fn sums_do_not_depend_on_the_order() {
    let mut s = Slate::blank(3, true);
    for (id, (k, n)) in [(3, 4), (5, 6), (7, 8)].into_iter().enumerate() {
        s.fill_round_1(&mut key(k), &key(n), id, None, true).unwrap();
    }
    let mut other = s.clone();
    other.participant_data.reverse();
    assert_eq!(s.pub_nonce_sum(), other.pub_nonce_sum());
    assert_eq!(s.pub_blind_sum(), other.pub_blind_sum());
    other.participant_data.swap(0, 1);
    assert_eq!(s.pub_nonce_sum(), other.pub_nonce_sum());
    assert_eq!(s.calc_excess(), other.calc_excess());
}

#[test]
fn either_side_can_finalize() {
    let mut a = signed_compact(1_000, 50_000_000);
    let mut b = a.clone();
    assert_eq!(a.finalize(500_000, accept), Ok(()));
    assert_eq!(b.finalize(500_000, |tx: &Transaction| accept(tx)), Ok(()));
    assert_eq!(format!("{:?}", a), format!("{:?}", b));
}

#[test]
fn either_side_can_finalize_at_its_own_fee() {
    let mut a = signed_compact(1_000, 50_000_000);
    let mut b = a.clone();
    assert_eq!(a.finalize(500_000, accept), Ok(()));
    assert_eq!(b.finalize(1, accept), Ok(()));
    assert_eq!(format!("{:?}", a), format!("{:?}", b));
}

#[test]
fn finalizing_at_a_fee() {
    let mut s = signed_compact(1_000, 50_000_000);
    let unchanged = format!("{:?}", s);
    assert_eq!(
        s.finalize(20_000_000, accept),
        Err(SlateError::Fee("Fee Dispute Error: 50000000, 60000000".to_string()))
    );
    assert_eq!(format!("{:?}", s), unchanged);
    let mut twice = s.clone();
    twice.tx.body.kernels.push(twice.tx.body.kernels[0]);
    assert_eq!(twice.try_finalize(1, accept), None);
    assert!(matches!(twice.try_finalize(20_000_000, accept), Some(Err(SlateError::Fee(_)))));
    assert_eq!(s.try_finalize(1, accept), Some(Ok(())));
    assert_ne!(s.tx.body.kernels[0].excess, [0; 33]);
}

#[test]
fn partial_signatures_are_set() {
    let mut s = with_kernel(true, 10, 2);
    s.fill_round_1(&mut key(1), &key(2), 5, None, true).unwrap();
    assert_eq!(s.set_part_sig(5, [9; 64]), Err(too_early()));
    assert_eq!(s.participant_data[0].part_sig, None);
    s.num_participants = 1;
    assert_eq!(s.set_part_sig(5, [9; 64]), Ok(()));
    assert_eq!(s.participant_data[0].part_sig, Some([9; 64]));
}

#[test]
fn first_round_splits_the_key_once() {
    let mut s = with_kernel(false, 10, 2);
    let mut sender = key(9);
    s.fill_round_1(&mut sender, &key(21), 0, None, true).unwrap();
    assert_eq!(s.tx.offset, FIXED_OFFSET);
    assert_eq!(s.offset, [0; 32]);
    assert_eq!(sender, key_sum(&[key(9)], &[FIXED_OFFSET]));
    assert_eq!(key_sum(&[sender, FIXED_OFFSET], &[]), key(9));
    let mut receiver = key(12);
    s.fill_round_1(&mut receiver, &key(22), 1, None, true).unwrap();
    assert_eq!((receiver, s.tx.offset), (key(12), FIXED_OFFSET));
    assert_eq!(s.participant_data.len(), 2);
}

#[test]
fn first_round_draws_an_offset() {
    let draw = || {
        let mut s = Slate::blank(2, false);
        let mut k = key(9);
        s.fill_round_1(&mut k, &key(21), 0, None, false).unwrap();
        assert_eq!(key_sum(&[k, s.tx.offset], &[]), key(9));
        s.tx.offset
    };
    assert_ne!(draw(), draw());
}

#[test]
fn splitting_the_whole_key_fails() {
    let mut s = Slate::blank(2, false);
    let mut k = FIXED_OFFSET;
    let r = s.fill_round_1(&mut k, &key(21), 0, None, true);
    assert!(matches!(r, Err(SlateError::Keychain(_))));
    assert_eq!((k, s.tx.offset), (FIXED_OFFSET, FIXED_OFFSET));
    assert!(s.participant_data.is_empty());
    let mut s = Slate::blank(2, false);
    let mut k = key(5);
    s.split_offset(&mut k, key(3)).unwrap();
    assert_eq!((k, s.tx.offset), (key(2), key(3)));
}

#[test]
fn first_round_of_a_key_that_is_none() {
    let mut s = Slate::blank(2, true);
    assert!(matches!(s.fill_round_1(&mut [0; 32], &key(1), 0, None, true), Err(SlateError::Secp(_))));
    let mut s = Slate::blank(2, false);
    assert!(matches!(s.fill_round_1(&mut key(1), &[0; 32], 0, None, true), Err(SlateError::Secp(_))));
    assert_eq!(s.tx.offset, FIXED_OFFSET);
}

fn path(n: u8) -> [u8; 17] {
    let mut id = [0; 17];
    id[0] = 3;
    id[16 - 4] = n;
    id
}

#[test]
fn offsets_follow_the_keychain() {
    let keychain = Keychain { seed: vec![1; 32], is_test: false };
    let chain = grin_keychain::ExtKeychain::from_seed(&[1; 32], false).unwrap();
    let derived = |id: [u8; 17], amount: u64| {
        let id = grin_keychain::Identifier::from_bytes(&id);
        chain.derive_key(amount, &id, grin_keychain::SwitchCommitmentType::Regular).unwrap().0
    };
    let mut s = Slate::blank(2, true);
    s.offset = key(50);
    let context = Context {
        initial_sec_key: key(4),
        input_ids: vec![(path(1), None, 100), (path(2), Some(7), 200)],
        output_ids: vec![(path(3), None, 50)],
    };
    s.adjust_offset(&keychain, &context).unwrap();
    let expected = key_sum(
        &[key(50), derived(path(3), 50)],
        &[key(4), derived(path(1), 100), derived(path(2), 200)],
    );
    assert_eq!(s.offset, expected);
    assert_eq!(s.tx.offset, [0; 32]);
}

#[test]
fn offsets_add_up_in_any_order() {
    let mut one = Slate::blank(2, true);
    one.add_to_offset(&key(1), &vec![key(2)], &vec![key(9)]).unwrap();
    assert_eq!(one.offset, key(6));
    let mut other = one.clone();
    one.add_to_offset(&key(4), &vec![], &vec![key(3), key(5)]).unwrap();
    assert_eq!(one.offset, key(10));
    other.offset = [0; 32];
    other.add_to_offset(&key(4), &vec![], &vec![key(3), key(5)]).unwrap();
    other.add_to_offset(&key(1), &vec![key(2)], &vec![key(9)]).unwrap();
    assert_eq!(other.offset, one.offset);
}

#[test]
fn zero_offsets_are_refused() {
    let mut s = Slate::blank(2, true);
    s.offset = key(3);
    let r = s.add_to_offset(&key(5), &vec![], &vec![key(2)]);
    assert!(matches!(r, Err(SlateError::Keychain(_))));
    assert_eq!(s.offset, key(3));
    // factors that are no keys do not count
    s.add_to_offset(&[0xff; 32], &vec![[0xff; 32]], &vec![key(2)]).unwrap();
    assert_eq!(s.offset, key(5));
}

#[test]
fn elements_are_added() {
    let mut s = Slate::blank(2, false);
    s.fee = 3;
    let none: Option<fn(Transaction) -> Result<(Transaction, [u8; 32]), grin_core::libtx::Error>> = None;
    assert_eq!(s.add_transaction_elements(none), Ok([0; 32]));
    assert_eq!(s.tx.body.fee(), 3);
    s.fee = 4;
    let blind = s
        .add_transaction_elements(Some(|mut tx: Transaction| {
            assert_eq!(tx.body.fee(), 4);
            tx.body.outputs.push(output(7, key(1)));
            Ok((tx, key(1)))
        }))
        .unwrap();
    assert_eq!(blind, key(1));
    assert_eq!(s.tx.body.outputs.len(), 1);
    let failed = s.add_transaction_elements(Some(|_: Transaction| {
        Err(grin_core::libtx::Error::Other("no".to_string()))
    }));
    assert_eq!(failed, Err(SlateError::LibTx(grin_core::libtx::Error::Other("no".to_string()))));
    assert_eq!(s.tx.body.outputs.len(), 1);
}

#[test]
fn required_fees() {
    let mut s = with_kernel(false, 10, 2);
    assert_eq!(s.required_fee(1000), 3000);
    s.tx.body.inputs = Inputs::CommitOnly(vec![[1; 33], [2; 33]]);
    s.tx.body.outputs = vec![output(1, key(1))];
    assert_eq!(s.required_fee(1000), 26_000);
    assert_eq!(s.required_fee(u64::MAX), u64::MAX);
    assert_eq!(s.required_fee(0), 0);
}

#[test]
fn fees_are_checked() {
    let s = with_kernel(false, 1_000_000, 2_000_000);
    assert_eq!(s.check_fees(500_000), Ok(()));
    assert_eq!(s.check_fees(100), Ok(()));
    assert_eq!(s.check_fees(0), Ok(()));
    assert_eq!(
        s.check_fees(700_000),
        Err(SlateError::Fee("Fee Dispute Error: 2000000, 2100000".to_string()))
    );
    let mut s = with_kernel(false, 0, 5_000_000_000);
    s.fee = 1;
    assert_eq!(
        s.check_fees(1_000_000_000),
        Err(SlateError::Fee(
            "Rejected the transfer because transaction fee (3.000000000) exceeds received amount (0.000000001)."
                .to_string()
        ))
    );
    assert_eq!(with_kernel(false, 10, 50_000_000_000).check_accepted_fee(), Ok(()));
    assert!(matches!(with_kernel(false, 10, 0).check_accepted_fee(), Err(SlateError::Fee(_))));
}

#[test]
fn excess_of_a_compact_slate_is_the_sum_of_the_keys() {
    let s = signed_compact(10, 2);
    assert_eq!(s.calc_excess().unwrap(), commit(0, key(23)));
}

#[test]
fn excess_of_a_transaction() {
    let mut s = with_kernel(false, 30, 20);
    s.tx.body.inputs = Inputs::FeaturesAndCommit(vec![Input {
        features: OutputFeatures::Plain,
        commit: commit(100, key(4)),
    }]);
    s.tx.body.outputs = vec![output(30, key(9)), output(50, key(8))];
    s.tx.offset = key(3);
    assert_eq!(s.calc_excess().unwrap(), commit(0, key(10)));
    s.tx.offset = [0xff; 32];
    assert!(matches!(s.calc_excess(), Err(SlateError::Keychain(_))));
    s.tx.offset = [0; 32];
    assert!(matches!(s.calc_excess(), Err(SlateError::Secp(_))));
    s.tx.body.outputs[0].identifier.commit = [0xff; 33];
    assert!(matches!(s.calc_excess(), Err(SlateError::Committed(_))));
}

#[test]
fn compact_slates_are_finalized() {
    let mut s = signed_compact(1_000, 50_000_000);
    let signature = s.finalize_signature().unwrap();
    let excess = s.calc_excess().unwrap();
    assert_eq!(s.finalize_with_accepted_fee(accept), Ok(()));
    assert_eq!(
        s.tx.body.kernels,
        vec![TxKernel {
            features: KernelFeatures::Plain { fee: 50_000_000 },
            excess,
            excess_sig: signature,
        }]
    );
}

#[test]
fn plain_slates_are_finalized() {
    // the sender spends 100_000_000, pays 40_000_000 and a fee of 25_000_000
    let mut s = with_kernel(false, 40_000_000, 25_000_000);
    s.lock_height = 3;
    let blind = s
        .add_transaction_elements(Some(|mut tx: Transaction| {
            tx.body.inputs = Inputs::FeaturesAndCommit(vec![Input {
                features: OutputFeatures::Plain,
                commit: commit(100_000_000, key(70)),
            }]);
            tx.body.outputs.push(output(35_000_000, key(90)));
            Ok((tx, key_sum(&[key(90)], &[key(70)])))
        }))
        .unwrap();
    let mut sender = blind;
    s.fill_round_1(&mut sender, &key(21), 0, None, false).unwrap();
    let sent = s.clone();
    s.tx.body.outputs.push(output(40_000_000, key(33)));
    let mut receiver = key(33);
    s.fill_round_1(&mut receiver, &key(22), 1, Some("thanks".to_string()), false).unwrap();
    s.fill_round_2(&receiver, &key(22), 1).unwrap();
    assert_eq!(Slate::compare_slates_send(&sent, &s), Ok(()));
    s.fill_round_2(&sender, &key(21), 0).unwrap();
    let offset = s.tx.offset;
    assert_eq!(s.try_finalize_with_accepted_fee(accept), Some(Ok(())));
    assert_eq!(s.tx.offset, offset);
    assert_eq!(s.tx.body.outputs.len(), 2);
    assert_eq!(
        s.tx.body.kernels[0].features,
        KernelFeatures::HeightLocked { fee: 25_000_000, lock_height: 3 }
    );
}

#[test]
fn finalizing_can_be_refused() {
    let mut s = signed_compact(1_000, 50_000_000);
    let kernels = s.tx.body.kernels.clone();
    let refused = s.finalize_with_accepted_fee(|tx: &Transaction| {
        assert_ne!(tx.body.kernels[0].excess, [0; 33]);
        Err(grin_core::core::transaction::Error::TooHeavy)
    });
    assert_eq!(refused, Err(SlateError::Transaction(grin_core::core::transaction::Error::TooHeavy)));
    assert_eq!(s.tx.body.kernels, kernels);
    // a kernel that the participants did not sign
    s.tx.body.kernels = vec![TxKernel::with_features(KernelFeatures::Plain { fee: 60_000_000 })];
    assert_eq!(s.finalize_with_accepted_fee(accept), Err(SlateError::Transaction(grin_core::core::transaction::Error::IncorrectSignature)));
    // a kernel that pays too little
    s.tx.body.kernels = vec![TxKernel::with_features(KernelFeatures::Plain { fee: 1 })];
    assert!(matches!(s.finalize_with_accepted_fee(accept), Err(SlateError::Fee(_))));
}

#[test]
fn slates_that_cannot_be_finalized() {
    let mut s = Slate::blank(2, true);
    assert!(matches!(s.try_finalize_with_accepted_fee(accept), Some(Err(SlateError::GenericError(_)))));
    let mut s = signed_compact(1_000, 50_000_000);
    s.tx.body.kernels = vec![];
    assert_eq!(s.try_finalize_with_accepted_fee(accept), None);
    s.tx.body.outputs = vec![output(1, key(1))];
    assert!(matches!(s.try_finalize_with_accepted_fee(accept), Some(Err(SlateError::Fee(_)))));
    let mut s = signed_compact(u64::MAX, 50_000_000);
    assert_eq!(s.try_finalize_with_accepted_fee(accept), None);
    s.tx.body.kernels[0] = TxKernel::with_features(KernelFeatures::Plain { fee: 1 });
    assert!(matches!(s.try_finalize_with_accepted_fee(accept), Some(Err(SlateError::Fee(_)))));
}

#[test]
fn completed_transactions() {
    let s = with_kernel(true, 1, 5);
    let tx = s.completed_transaction(&[1; 33], &[2; 64]);
    assert_eq!(
        tx.body.kernels,
        vec![TxKernel { features: KernelFeatures::Plain { fee: 5 }, excess: [1; 33], excess_sig: [2; 64] }]
    );
    let mut s = s;
    assert!(matches!(
        s.complete_transaction(&[1; 33], &[2; 64], accept),
        Err(SlateError::Transaction(_))
    ));
}

#[test]
fn fee_rejections() {
    assert_eq!(
        slate::finalize::fee_rejection("1", "2"),
        SlateError::Fee(
            "Rejected the transfer because transaction fee (1) exceeds received amount (2).".to_string()
        )
    );
}
