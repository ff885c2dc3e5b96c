use slate::documents::{ParsedSlate, SlateVersionProbe, VersionedSlate};
use slate::error::SlateError;
use slate::participant::ParticipantData;
use slate::slate::{PaymentInfo, ProvableAddress, Slate, SlateVersion, VersionCompatInfo};
use slate::transaction::{
    Input, Inputs, KernelFeatures, Output, OutputFeatures, OutputIdentifier, RangeProof,
    Transaction, TransactionBody, TxKernel,
};
use slate::versions::{
    CbData, CoinbaseV3, CompatKernelFeatures, InputV3, OutputV3, ParticipantDataV3, PaymentInfoV3,
    SlateV3, TransactionBodyV3, TransactionV3, TxKernelV3, VersionCompatInfoV3,
};

fn kernel(features: KernelFeatures) -> TxKernel {
    TxKernel { features, excess: [8; 33], excess_sig: [9; 64] }
}

fn output() -> Output {
    Output {
        identifier: OutputIdentifier { features: OutputFeatures::Coinbase, commit: [4; 33] },
        proof: RangeProof { proof: [5; 675], plen: 600 },
    }
}

fn participant() -> ParticipantData {
    ParticipantData {
        id: 1,
        public_blind_excess: [2; 33],
        public_nonce: [3; 33],
        part_sig: Some([4; 64]),
        message: Some("grüße".to_string()),
        message_sig: Some([7; 64]),
    }
}

fn payment() -> PaymentInfo {
    PaymentInfo {
        sender_address: ProvableAddress { text: "sender".to_string() },
        receiver_address: ProvableAddress { text: "receiver".to_string() },
        receiver_signature: Some("signature".to_string()),
    }
}

fn filled(compact: bool) -> Slate {
    let mut s = Slate::blank(3, compact);
    s.amount = 1;
    s.fee = 2;
    s.height = 3;
    s.lock_height = 4;
    s.ttl_cutoff_height = Some(5);
    s.tx.offset = [6; 32];
    s.tx.body.inputs = Inputs::FeaturesAndCommit(vec![Input {
        features: OutputFeatures::Coinbase,
        commit: [1; 33],
    }]);
    s.tx.body.outputs = vec![output()];
    s.tx.body.kernels = vec![
        kernel(KernelFeatures::Plain { fee: 2 }),
        kernel(KernelFeatures::HeightLocked { fee: 2, lock_height: 4 }),
        kernel(KernelFeatures::Coinbase),
    ];
    s.participant_data = vec![participant()];
    s.payment_proof = Some(payment());
    if compact {
        s.offset = [7; 32];
    }
    s
}

#[test]
fn kernels_to_v3() {
    let v = TxKernelV3::from(&kernel(KernelFeatures::HeightLocked { fee: 11, lock_height: 12 }));
    assert_eq!(v.features, CompatKernelFeatures::HeightLocked);
    assert_eq!((v.fee, v.lock_height), (11, 12));
    assert_eq!((v.excess, v.excess_sig), ([8; 33], [9; 64]));
    let v = TxKernelV3::from(&kernel(KernelFeatures::Coinbase));
    assert_eq!((v.features, v.fee, v.lock_height), (CompatKernelFeatures::Coinbase, 0, 0));
    let v = TxKernelV3::from(&kernel(KernelFeatures::Plain { fee: 13 }));
    assert_eq!((v.features, v.fee, v.lock_height), (CompatKernelFeatures::Plain, 13, 0));
}

#[test]
fn relative_height_is_lost() {
    let k = kernel(KernelFeatures::NoRecentDuplicate { fee: 14, relative_height: 1440 });
    let v = TxKernelV3::from(&k);
    assert_eq!((v.features, v.fee, v.lock_height), (CompatKernelFeatures::NoRecentDuplicate, 14, 0));
}

#[test]
fn kernels_from_v3() {
    let mut v = TxKernelV3::from(&kernel(KernelFeatures::Plain { fee: 1 }));
    assert_eq!(TxKernel::from_v3(&v), kernel(KernelFeatures::Plain { fee: 1 }));
    v.features = CompatKernelFeatures::NoRecentDuplicate;
    v.lock_height = 10080;
    assert_eq!(
        TxKernel::from_v3(&v).features,
        KernelFeatures::NoRecentDuplicate { fee: 1, relative_height: 10080 }
    );
    v.features = CompatKernelFeatures::HeightLocked;
    assert_eq!(
        TxKernel::from_v3(&v).features,
        KernelFeatures::HeightLocked { fee: 1, lock_height: 10080 }
    );
    v.features = CompatKernelFeatures::Coinbase;
    assert_eq!(TxKernel::from_v3(&v).features, KernelFeatures::Coinbase);
}

#[test]
fn inputs_and_outputs_round_trip() {
    let i = Input { features: OutputFeatures::Coinbase, commit: [1; 33] };
    assert_eq!(Input::from(&InputV3::from(&i)), i);
    let o = OutputV3::from(&output());
    assert_eq!((o.features, o.commit, o.proof), (OutputFeatures::Coinbase, [4; 33], output().proof));
    assert_eq!(Output::from(&o).identifier, output().identifier);
    assert_eq!(Output::from(&o).proof, output().proof);
}

#[test]
fn participants_and_payments_round_trip() {
    let p = participant();
    let v = ParticipantDataV3::from(&p);
    assert_eq!((v.id, v.message.clone()), (1, Some("grüße".to_string())));
    assert_eq!(ParticipantData::from(&v), p);
    let v = PaymentInfoV3::from(&payment());
    assert_eq!(v.receiver_address.text, "receiver");
    assert_eq!(PaymentInfo::from(&v), payment());
}

#[test]
fn version_info_round_trips() {
    let info = VersionCompatInfo { version: 2, block_header_version: 5 };
    let v = VersionCompatInfoV3::from(&info);
    assert_eq!((v.version, v.orig_version, v.block_header_version), (2, 2, 5));
    assert_eq!(VersionCompatInfo::from(&v), info);
}

#[test]
fn coinbase_to_v3() {
    let cb = CbData { output: output(), kernel: kernel(KernelFeatures::Coinbase), key_id: Some([3; 17]) };
    let v = CoinbaseV3::from(cb);
    assert_eq!(v.key_id, Some([3; 17]));
    assert_eq!(v.output, OutputV3::from(&output()));
    assert_eq!(v.kernel, TxKernelV3::from(&kernel(KernelFeatures::Coinbase)));
}

#[test]
fn inputs_without_features_are_taken_for_plain() {
    let mut tx = Transaction::empty();
    tx.offset = [1; 32];
    tx.body.inputs = Inputs::CommitOnly(vec![[3; 33], [2; 33]]);
    let v = TransactionV3::from(&tx);
    assert_eq!(v.offset, [1; 32]);
    assert_eq!(
        v.body.inputs,
        vec![
            InputV3 { features: OutputFeatures::Plain, commit: [3; 33] },
            InputV3 { features: OutputFeatures::Plain, commit: [2; 33] },
        ]
    );
    let back = Transaction::from_v3(&v);
    assert!(matches!(back.body.inputs, Inputs::FeaturesAndCommit(i) if i.len() == 2));
}

#[test]
fn bodies_round_trip() {
    let s = filled(false);
    let v = TransactionBodyV3::from(&s.tx.body);
    assert_eq!((v.inputs.len(), v.outputs.len(), v.kernels.len()), (1, 1, 3));
    let back = TransactionBody::from_v3(&v);
    assert!(back.inputs.same(&s.tx.body.inputs));
    assert!(back.same_kernels(&s.tx.body));
    assert!(back.has_output(&output()));
}

#[test]
fn plain_slates_round_trip() {
    let mut s = filled(false);
    s.offset = [99; 32];
    let v = SlateV3::from_slate(&s, "main");
    assert_eq!(v.coin_type, Some("mwc".to_string()));
    assert_eq!(v.network_type, Some("main".to_string()));
    assert_eq!(v.compact_slate, None);
    assert_eq!(v.tx.offset, [6; 32]);
    assert!(v.is_valid());
    let back = v.to_slate();
    s.offset = [0; 32];
    assert_eq!(format!("{:?}", back), format!("{:?}", s));
}

#[test]
fn compact_slates_round_trip() {
    let mut s = filled(true);
    let v = SlateV3::from_slate(&s, "floo");
    assert_eq!(v.compact_slate, Some(true));
    assert_eq!(v.tx.offset, [7; 32]);
    let back = v.to_slate();
    s.tx.offset = [7; 32];
    assert_eq!(format!("{:?}", back), format!("{:?}", s));
}

#[test]
fn kernels_with_relative_height_out_of_range_are_not_valid() {
    let mut v = SlateV3::from_slate(&filled(false), "main");
    v.tx.body.kernels[1].features = CompatKernelFeatures::NoRecentDuplicate;
    assert!(v.is_valid());
    v.tx.body.kernels[1].lock_height = 0;
    assert!(!v.is_valid());
    v.tx.body.kernels[1].lock_height = 10081;
    assert!(!v.is_valid());
}

#[test]
fn lowest_versions() {
    let mut s = Slate::blank(2, false);
    assert_eq!(s.lowest_version(), SlateVersion::V2);
    s.ttl_cutoff_height = Some(0);
    assert_eq!(s.lowest_version(), SlateVersion::V3);
    s.ttl_cutoff_height = None;
    s.payment_proof = Some(payment());
    assert_eq!(s.lowest_version(), SlateVersion::V3);
    assert_eq!(Slate::blank(2, true).lowest_version(), SlateVersion::V3);
}

fn probe(version: Option<u64>, info: Option<u16>) -> SlateVersionProbe {
    SlateVersionProbe {
        version,
        version_info: info.map(|version| VersionCompatInfo { version, block_header_version: 1 }),
    }
}

#[test]
fn probed_versions() {
    assert_eq!(probe(None, None).version(), 0);
    assert_eq!(probe(Some(8), None).version(), 1);
    assert_eq!(probe(Some(8), Some(3)).version(), 3);
    assert_eq!(probe(None, Some(17)).version(), 17);
}

#[test]
fn parsed_versions() {
    assert_eq!(Slate::parse_slate_version("{}", &Ok(probe(None, Some(2)))), Ok(2));
    assert_eq!(
        Slate::parse_slate_version("nonsense", &Err("expected value".to_string())),
        Err(SlateError::SlateVersionParse(
            "Unable to find slate version at nonsense, expected value".to_string()
        ))
    );
}

#[test]
fn plain_documents_start_with_a_brace() {
    assert!(Slate::deserialize_is_plain("{\"a\": 1}"));
    assert!(Slate::deserialize_is_plain("{"));
    assert!(!Slate::deserialize_is_plain(""));
    assert!(!Slate::deserialize_is_plain(" {"));
    assert!(!Slate::deserialize_is_plain("BEGINSLATEPACK."));
    assert!(!Slate::deserialize_is_plain("é{"));
}

fn parsed(version: u16) -> ParsedSlate {
    ParsedSlate {
        probe: Ok(probe(None, Some(version))),
        ttl_cutoff_height: Ok(Some(77)),
        v2: Err("no second".to_string()),
        v3: Err("no third".to_string()),
    }
}

#[test]
fn documents_of_the_third_version() {
    let s = filled(false);
    let mut p = parsed(3);
    p.v3 = Ok(SlateV3::from_slate(&s, "main"));
    let back = Slate::deserialize_upgrade_plain("{..}", p).unwrap();
    let mut expected = s.clone();
    expected.offset = [0; 32];
    assert_eq!(format!("{:?}", back), format!("{:?}", expected));
    assert_eq!(
        Slate::deserialize_upgrade_plain("{..}", parsed(3)).unwrap_err(),
        SlateError::SlateDeser(
            "Json to SlateV3 conversion failed for {..}, no third".to_string()
        )
    );
}

#[test]
fn documents_of_the_second_version() {
    let mut p = parsed(2);
    p.v2 = Ok(SlateV3::from_slate(&filled(false), "main"));
    assert_eq!(
        Slate::deserialize_upgrade_plain("{..}", p).unwrap().ttl_cutoff_height,
        Some(77)
    );
    let mut p = parsed(2);
    p.v2 = Ok(SlateV3::from_slate(&filled(false), "main"));
    p.ttl_cutoff_height = Err("none".to_string());
    assert_eq!(Slate::deserialize_upgrade_plain("{..}", p).unwrap().ttl_cutoff_height, None);
    assert_eq!(
        Slate::deserialize_upgrade_plain("{..}", parsed(2)).unwrap_err(),
        SlateError::SlateDeser(
            "Json to SlateV2 conversion failed for {..}, no second".to_string()
        )
    );
}

#[test]
fn documents_of_other_versions() {
    assert_eq!(
        Slate::deserialize_upgrade_plain("{}", parsed(4)).unwrap_err(),
        SlateError::SlateVersion(4)
    );
    let mut p = parsed(3);
    p.probe = Err("broken".to_string());
    assert_eq!(
        Slate::deserialize_upgrade_plain("x", p).unwrap_err(),
        SlateError::SlateVersionParse("Unable to find slate version at x, broken".to_string())
    );
}

#[test]
fn written_versions() {
    let mut s = filled(false);
    assert!(matches!(s.to_versioned("main"), Ok(VersionedSlate::V3(_))));
    s.version_info.version = 2;
    assert!(matches!(s.to_versioned("main"), Ok(VersionedSlate::V2(v)) if v.version_info.orig_version == 2));
    s.version_info.version = 40;
    assert_eq!(s.to_versioned("main").unwrap_err(), "Unknown slate version 40");
}

#[test]
fn only_the_version_that_is_read_has_to_be_valid() {
    let mut bad = SlateV3::from_slate(&filled(false), "main");
    bad.tx.body.kernels[1].features = CompatKernelFeatures::NoRecentDuplicate;
    bad.tx.body.kernels[1].lock_height = 0;
    let mut p = parsed(3);
    p.v2 = Ok(bad);
    p.v3 = Ok(SlateV3::from_slate(&filled(false), "main"));
    assert!(p.is_valid());
    p.probe = Ok(probe(None, Some(2)));
    assert!(!p.is_valid());
    p.probe = Ok(probe(Some(1), None));
    assert!(p.is_valid());
}

#[test]
fn slatepacks_are_decrypted() {
    let read = Slate::deserialize_upgrade_slatepack("BEGIN\u{e9}", |bytes: &[u8]| Ok(bytes.to_vec()));
    assert_eq!(read, Ok(vec![b'B', b'E', b'G', b'I', b'N', 0xc3, 0xa9]));
    let failed: Result<(), SlateError> = Slate::deserialize_upgrade_slatepack("x", |_: &[u8]| {
        Err(SlateError::GenericError("no key".to_string()))
    });
    assert_eq!(failed, Err(SlateError::GenericError("no key".to_string())));
}
