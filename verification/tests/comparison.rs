use slate::error::SlateError;
use slate::participant::ParticipantData;
use slate::slate::Slate;
use slate::transaction::{
    Input, Inputs, KernelFeatures, Output, OutputFeatures, OutputIdentifier, RangeProof, TxKernel,
};

fn output(tag: u8, features: OutputFeatures, proof: u8) -> Output {
    Output {
        identifier: OutputIdentifier { features, commit: [tag; 33] },
        proof: RangeProof { proof: [proof; 675], plen: 675 },
    }
}

fn input(tag: u8) -> Input {
    Input { features: OutputFeatures::Plain, commit: [tag; 33] }
}

fn participant(id: u64) -> ParticipantData {
    ParticipantData {
        id,
        public_blind_excess: [2; 33],
        public_nonce: [3; 33],
        part_sig: None,
        message: Some("hello".to_string()),
        message_sig: Some([7; 64]),
    }
}

fn sent() -> Slate {
    let mut s = Slate::blank(2, false);
    s.amount = 100;
    s.fee = 7;
    s.height = 40;
    s.lock_height = 50;
    s.ttl_cutoff_height = Some(60);
    s.tx.body.inputs = Inputs::FeaturesAndCommit(vec![input(1), input(2)]);
    s.tx.body.outputs = vec![output(3, OutputFeatures::Plain, 0)];
    s.tx.body.kernels = vec![TxKernel::with_features(KernelFeatures::Plain { fee: 7 })];
    s.participant_data = vec![participant(0)];
    s
}

fn mismatch(text: &str) -> Result<(), SlateError> {
    Err(SlateError::SlateValidation(text.to_string()))
}

#[test]
fn send_accepts_the_same_slate() {
    let s = sent();
    assert_eq!(Slate::compare_slates_send(&s, &s.clone()), Ok(()));
}

#[test]
fn send_accepts_additions() {
    let s = sent();
    let mut r = s.clone();
    r.participant_data.insert(0, participant(1));
    r.tx.body.outputs.insert(0, output(9, OutputFeatures::Plain, 0));
    r.tx.offset = [5; 32];
    r.offset = [6; 32];
    r.num_participants = 9;
    assert_eq!(Slate::compare_slates_send(&s, &r), Ok(()));
}

#[test]
fn accepted_replies_may_grow() {
    let s = sent();
    let mut r = s.clone();
    r.tx.body.outputs.push(output(9, OutputFeatures::Plain, 0));
    assert_eq!(Slate::compare_slates_send(&s, &r), Ok(()));
    let mut grown = r.clone();
    grown.participant_data.push(participant(1));
    grown.tx.body.outputs.push(output(10, OutputFeatures::Coinbase, 0));
    grown.tx.offset = [5; 32];
    assert_eq!(Slate::compare_slates_send(&s, &grown), Ok(()));
    assert_eq!(Slate::compare_slates_send(&r, &grown), Ok(()));
    let mut s = s;
    let mut grown = grown;
    s.tx.body.inputs = Inputs::FeaturesAndCommit(vec![]);
    assert_eq!(Slate::compare_slates_invoice(&s, &grown), Ok(()));
    grown.participant_data.push(participant(2));
    assert_eq!(Slate::compare_slates_invoice(&s, &grown), Ok(()));
    // a reply that drops something is not one that grew
    grown.tx.body.outputs.remove(0);
    assert_eq!(Slate::compare_slates_invoice(&s, &grown), mismatch("outputs mismatch"));
}

#[test]
fn replies_to_replies_to_a_compact_slate() {
    let mut first = sent();
    first.compact_slate = true;
    let mut second = sent();
    second.id = first.id;
    second.amount = 0;
    let mut third = second.clone();
    third.participant_data.push(participant(1));
    assert_eq!(Slate::compare_slates_send(&first, &second), Ok(()));
    assert_eq!(Slate::compare_slates_send(&second, &third), Ok(()));
    assert_eq!(Slate::compare_slates_send(&first, &third), Ok(()));
}

#[test]
fn send_output_proof_does_not_matter() {
    let s = sent();
    let mut r = s.clone();
    r.tx.body.outputs = vec![output(3, OutputFeatures::Plain, 99)];
    assert_eq!(Slate::compare_slates_send(&s, &r), Ok(()));
    r.tx.body.outputs = vec![output(3, OutputFeatures::Coinbase, 0)];
    assert_eq!(Slate::compare_slates_send(&s, &r), mismatch("outputs mismatch"));
}

#[test]
fn send_reports_the_id() {
    let s = sent();
    let mut r = s.clone();
    r.id = [0; 16];
    r.amount = 1;
    assert_eq!(Slate::compare_slates_send(&s, &r), mismatch("uuid mismatch"));
}

#[test]
fn send_reports_the_amount() {
    let s = sent();
    let mut r = s.clone();
    r.amount = 101;
    r.fee = 8;
    assert_eq!(Slate::compare_slates_send(&s, &r), mismatch("amount mismatch"));
}

#[test]
fn send_reports_the_fee() {
    let s = sent();
    let mut r = s.clone();
    r.fee = 8;
    r.tx.body.inputs = Inputs::FeaturesAndCommit(vec![]);
    assert_eq!(Slate::compare_slates_send(&s, &r), mismatch("fee mismatch"));
}

#[test]
fn send_reports_the_inputs() {
    let s = sent();
    let mut r = s.clone();
    r.tx.body.inputs = Inputs::FeaturesAndCommit(vec![input(2), input(1)]);
    r.participant_data = vec![];
    assert_eq!(Slate::compare_slates_send(&s, &r), mismatch("inputs mismatch"));
    r.tx.body.inputs = Inputs::CommitOnly(vec![[1; 33], [2; 33]]);
    assert_eq!(Slate::compare_slates_send(&s, &r), mismatch("inputs mismatch"));
}

#[test]
fn send_reports_the_participants() {
    let s = sent();
    let mut r = s.clone();
    r.participant_data[0].message = Some("Hello".to_string());
    r.tx.body.outputs = vec![];
    assert_eq!(Slate::compare_slates_send(&s, &r), mismatch("participant data mismatch"));
}

#[test]
fn send_reports_the_outputs() {
    let s = sent();
    let mut r = s.clone();
    r.tx.body.outputs = vec![output(4, OutputFeatures::Plain, 0)];
    r.tx.body.kernels = vec![];
    assert_eq!(Slate::compare_slates_send(&s, &r), mismatch("outputs mismatch"));
}

#[test]
fn send_reports_the_kernels() {
    let s = sent();
    let mut r = s.clone();
    r.tx.body.kernels[0].excess_sig = [1; 64];
    r.lock_height = 0;
    assert_eq!(Slate::compare_slates_send(&s, &r), mismatch("kernels mismatch"));
}

#[test]
fn send_reports_the_heights() {
    let s = sent();
    let mut r = s.clone();
    r.ttl_cutoff_height = None;
    assert_eq!(Slate::compare_slates_send(&s, &r), mismatch("ttl_cutoff mismatch"));
    r.height = 41;
    assert_eq!(Slate::compare_slates_send(&s, &r), mismatch("heigh mismatch"));
    r.lock_height = 51;
    assert_eq!(Slate::compare_slates_send(&s, &r), mismatch("lock_height mismatch"));
}

#[test]
fn send_of_a_compact_slate_compares_id_and_heights_only() {
    let mut s = sent();
    s.compact_slate = true;
    let mut r = Slate::blank(2, true);
    r.id = s.id;
    r.height = s.height;
    r.lock_height = s.lock_height;
    r.ttl_cutoff_height = s.ttl_cutoff_height;
    assert_eq!(Slate::compare_slates_send(&s, &r), Ok(()));
    r.height = 1;
    assert_eq!(Slate::compare_slates_send(&s, &r), mismatch("heigh mismatch"));
}

#[test]
fn send_acceptance_carries_over() {
    let first = sent();
    let mut second = first.clone();
    second.participant_data.push(participant(1));
    let mut third = second.clone();
    third.tx.body.outputs.push(output(8, OutputFeatures::Plain, 0));
    assert_eq!(Slate::compare_slates_send(&first, &second), Ok(()));
    assert_eq!(Slate::compare_slates_send(&second, &third), Ok(()));
    assert_eq!(Slate::compare_slates_send(&first, &third), Ok(()));
    assert_eq!(Slate::compare_slates_send(&third, &first), mismatch("participant data mismatch"));
}

fn invoice() -> Slate {
    let mut s = sent();
    s.tx.body.inputs = Inputs::FeaturesAndCommit(vec![]);
    s
}

#[test]
fn invoice_accepts_additions() {
    let s = invoice();
    let mut r = s.clone();
    r.tx.body.inputs = Inputs::FeaturesAndCommit(vec![input(1)]);
    r.tx.body.outputs.insert(0, output(9, OutputFeatures::Plain, 0));
    r.participant_data.insert(0, participant(1));
    r.fee = 1000;
    r.lock_height = 3;
    r.tx.body.kernels = vec![];
    assert_eq!(Slate::compare_slates_invoice(&s, &r), Ok(()));
}

#[test]
fn invoice_reports_the_first_mismatch() {
    let s = invoice();
    let mut r = s.clone();
    r.participant_data = vec![];
    assert_eq!(Slate::compare_slates_invoice(&s, &r), mismatch("participant data mismatch"));
    r.tx.body.outputs = vec![];
    assert_eq!(Slate::compare_slates_invoice(&s, &r), mismatch("outputs mismatch"));
    r.ttl_cutoff_height = Some(61);
    assert_eq!(Slate::compare_slates_invoice(&s, &r), mismatch("ttl_cutoff mismatch"));
    r.height = 41;
    assert_eq!(Slate::compare_slates_invoice(&s, &r), mismatch("heigh mismatch"));
    r.amount = 99;
    assert_eq!(Slate::compare_slates_invoice(&s, &r), mismatch("amount mismatch"));
    r.id = [0; 16];
    assert_eq!(Slate::compare_slates_invoice(&s, &r), mismatch("uuid mismatch"));
}
