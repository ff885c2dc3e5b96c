//! Slates whose transactions are built with keychains and validated by the rules of a
//! network.
use grin_core::libtx::{build, ProofBuilder};
use grin_keychain::{ExtKeychain, Keychain as _};
use grin_util::secp;
use slate::error::SlateError;
use slate::offset::{Context, Keychain};
use slate::slate::Slate;
use slate::transaction::{
    Input, Inputs, KernelFeatures, Output, OutputFeatures, OutputIdentifier, RangeProof,
    Transaction, TransactionBody, TxKernel,
};

const SENDER: [u8; 4] = [1, 2, 3, 4];
const RECEIVER: [u8; 4] = [5, 6, 7, 8];

fn key(n: u8) -> [u8; 32] {
    let mut k = [0; 32];
    k[31] = n;
    k
}

fn key_id(n: u32) -> grin_keychain::Identifier {
    ExtKeychain::derive_key_id(1, n, 0, 0, 0)
}

fn to_core(
    tx: &Transaction,
) -> Result<grin_core::core::Transaction, grin_core::core::transaction::Error> {
    let inputs = match &tx.body.inputs {
        Inputs::CommitOnly(commits) => grin_core::core::Inputs::CommitOnly(
            commits.iter().map(|c| secp::pedersen::Commitment(*c).into()).collect(),
        ),
        Inputs::FeaturesAndCommit(inputs) => grin_core::core::Inputs::FeaturesAndCommit(
            inputs
                .iter()
                .map(|i| grin_core::core::Input {
                    features: grin_core::core::OutputFeatures::Plain,
                    commit: secp::pedersen::Commitment(i.commit),
                })
                .collect(),
        ),
    };
    let outputs = tx
        .body
        .outputs
        .iter()
        .map(|o| grin_core::core::Output {
            identifier: grin_core::core::OutputIdentifier {
                features: grin_core::core::OutputFeatures::Plain,
                commit: secp::pedersen::Commitment(o.identifier.commit),
            },
            proof: secp::pedersen::RangeProof { proof: o.proof.proof, plen: o.proof.plen },
        })
        .collect();
    let mut kernels = vec![];
    for k in &tx.body.kernels {
        let fee = match k.features {
            KernelFeatures::Plain { fee } => fee,
            _ => panic!("a plain kernel"),
        };
        kernels.push(grin_core::core::TxKernel {
            features: grin_core::core::KernelFeatures::Plain { fee: (fee as u32).into() },
            excess: secp::pedersen::Commitment(k.excess),
            excess_sig: secp::Signature::from_raw_data(&k.excess_sig)?,
        });
    }
    Ok(grin_core::core::Transaction {
        offset: grin_keychain::BlindingFactor::from_slice(&tx.offset),
        body: grin_core::core::TransactionBody { inputs, outputs, kernels },
    })
}

fn from_core(tx: &grin_core::core::Transaction) -> Transaction {
    let inputs = match &tx.body.inputs {
        grin_core::core::Inputs::CommitOnly(commits) => {
            Inputs::CommitOnly(commits.iter().map(|c| c.commitment().0).collect())
        }
        grin_core::core::Inputs::FeaturesAndCommit(inputs) => Inputs::FeaturesAndCommit(
            inputs
                .iter()
                .map(|i| Input { features: OutputFeatures::Plain, commit: i.commit.0 })
                .collect(),
        ),
    };
    Transaction {
        offset: tx.offset.as_ref().try_into().unwrap(),
        body: TransactionBody {
            inputs,
            outputs: tx
                .body
                .outputs
                .iter()
                .map(|o| Output {
                    identifier: OutputIdentifier {
                        features: OutputFeatures::Plain,
                        commit: o.identifier.commit.0,
                    },
                    proof: RangeProof { proof: o.proof.proof, plen: o.proof.plen },
                })
                .collect(),
            kernels: tx
                .body
                .kernels
                .iter()
                .map(|k| TxKernel {
                    features: match k.features {
                        grin_core::core::KernelFeatures::Plain { fee } => {
                            KernelFeatures::Plain { fee: fee.into() }
                        }
                        _ => panic!("a plain kernel"),
                    },
                    excess: k.excess.0,
                    excess_sig: k.excess_sig.to_raw_data(),
                })
                .collect(),
        },
    }
}

/// Spends `inputs` and pays `outputs`, each a number that makes up the key and an amount.
fn add_elements(
    s: &mut Slate,
    seed: &[u8],
    inputs: &[(u32, u64)],
    outputs: &[(u32, u64)],
) -> Result<[u8; 32], SlateError> {
    let keychain = ExtKeychain::from_seed(seed, true).unwrap();
    let builder = ProofBuilder::new(&keychain);
    let mut elems = vec![];
    for (n, amount) in inputs {
        elems.push(build::input(*amount, key_id(*n)));
    }
    for (n, amount) in outputs {
        elems.push(build::output(*amount, key_id(*n)));
    }
    s.add_transaction_elements(Some(|tx: Transaction| {
        let (tx, blind) = build::partial_transaction(to_core(&tx)?, &elems, &keychain, &builder)?;
        Ok((from_core(&tx), blind.as_ref().try_into().unwrap()))
    }))
}

fn validate(tx: &Transaction) -> Result<(), grin_core::core::transaction::Error> {
    to_core(tx)?.validate(grin_core::core::Weighting::AsTransaction)
}

fn on_a_test_network() {
    grin_core::global::set_local_chain_type(grin_core::global::ChainTypes::AutomatedTesting);
    grin_core::global::set_local_accept_fee_base(500_000);
}

fn blank(compact: bool) -> Slate {
    let mut s = Slate::blank(2, compact);
    s.amount = 40_000_000;
    s.fee = 25_000_000;
    s
}

/// A plain slate that both sides have signed. The sender spends 100_000_000 and gets
/// 35_000_000 back.
fn signed_plain() -> Slate {
    let mut s = blank(false);
    let mut sender = add_elements(&mut s, &SENDER, &[(1, 100_000_000)], &[(2, 35_000_000)]).unwrap();
    s.fill_round_1(&mut sender, &key(21), 0, Some("pay".to_string()), false).unwrap();
    let sent = s.clone();
    let mut receiver = add_elements(&mut s, &RECEIVER, &[], &[(1, 40_000_000)]).unwrap();
    s.fill_round_1(&mut receiver, &key(22), 1, Some("thanks".to_string()), false).unwrap();
    s.fill_round_2(&receiver, &key(22), 1).unwrap();
    assert_eq!(Slate::compare_slates_send(&sent, &s), Ok(()));
    assert_eq!(s.verify_messages(), Ok(()));
    s.fill_round_2(&sender, &key(21), 0).unwrap();
    s
}

/// A compact slate that both sides have signed, with the same amounts.
fn signed_compact() -> Slate {
    let mut s = blank(true);
    let sides = [
        (0, SENDER, 11, vec![(1, 100_000_000)], vec![(2, 35_000_000)]),
        (1, RECEIVER, 12, vec![], vec![(1, 40_000_000)]),
    ];
    for (id, seed, secret, inputs, outputs) in &sides {
        add_elements(&mut s, seed, inputs, outputs).unwrap();
        let ids = |elems: &Vec<(u32, u64)>| {
            elems.iter().map(|(n, amount)| (key_id(*n).to_bytes(), None, *amount)).collect()
        };
        let keychain = Keychain { seed: seed.to_vec(), is_test: true };
        let context = Context {
            initial_sec_key: key(*secret),
            input_ids: ids(inputs),
            output_ids: ids(outputs),
        };
        s.adjust_offset(&keychain, &context).unwrap();
        s.fill_round_1(&mut key(*secret), &key(*secret + 10), *id, None, false).unwrap();
    }
    for (id, _, secret, _, _) in &sides {
        s.fill_round_2(&key(*secret), &key(*secret + 10), *id).unwrap();
    }
    s
}

#[test]
fn plain_slates_become_valid_transactions() {
    on_a_test_network();
    let mut s = signed_plain();
    let mut other = s.clone();
    assert!(validate(&s.tx).is_err());
    assert_eq!(s.finalize(500_000, validate), Ok(()));
    assert_eq!(validate(&s.tx), Ok(()));
    assert_eq!(to_core(&s.tx).unwrap().fee(), 25_000_000);
    assert_eq!(other.finalize_with_accepted_fee(validate), Ok(()));
    assert_eq!(format!("{:?}", s), format!("{:?}", other));
}

#[test]
fn compact_slates_become_valid_transactions() {
    on_a_test_network();
    let mut s = signed_compact();
    s.tx.offset = s.offset;
    assert_eq!(s.finalize(500_000, validate), Ok(()));
    assert_eq!(validate(&s.tx), Ok(()));
}

#[test]
fn transactions_that_do_not_add_up_are_refused() {
    on_a_test_network();
    // the offset is still in the slate
    let mut s = signed_compact();
    let unchanged = format!("{:?}", s);
    assert!(matches!(s.finalize(500_000, validate), Err(SlateError::Transaction(_))));
    assert_eq!(format!("{:?}", s), unchanged);
    // the proof of an output is that of another one
    let mut s = signed_plain();
    s.tx.body.outputs[0].proof = s.tx.body.outputs[1].proof;
    assert!(matches!(s.finalize(500_000, validate), Err(SlateError::Transaction(_))));
}

#[test]
fn the_accepted_fee_is_that_of_the_process() {
    on_a_test_network();
    let mut s = signed_plain();
    assert_eq!(s.check_accepted_fee(), Ok(()));
    grin_core::global::set_local_accept_fee_base(600_000);
    let dispute = SlateError::Fee("Fee Dispute Error: 25000000, 27600000".to_string());
    assert_eq!(s.check_fees(600_000), Err(dispute));
    assert_eq!(s.check_accepted_fee(), s.check_fees(600_000));
    assert_eq!(s.finalize_with_accepted_fee(validate), s.check_fees(600_000));
    assert_eq!(s.try_finalize_with_accepted_fee(validate), Some(s.check_fees(600_000)));
    grin_core::global::set_local_accept_fee_base(500_000);
    assert_eq!(s.try_finalize_with_accepted_fee(validate), Some(Ok(())));
}
