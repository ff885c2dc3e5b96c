//! Slates in the third version of the format, and documents.
use crate::crypto::BlindingFactor;
use crate::documents::{ParsedSlate, SlateVersionProbe, VersionedSlate};
use crate::error::SlateError;
use crate::participant::ParticipantData;
use crate::slate::{PaymentInfo, Slate, VersionCompatInfo};
use crate::transaction::{
    Input, Inputs, KernelFeatures, Output, OutputFeatures, Transaction, TransactionBody, TxKernel,
};
use crate::versions::{
    CbData, CoinbaseV3, CompatKernelFeatures, InputV3, OutputV3, ParticipantDataV3, PaymentInfoV3,
    SlateV3, TransactionBodyV3, TransactionV3, TxKernelV3, VersionCompatInfoV3,
};
use vstd::prelude::*;

verus! {

// Parts

/// An output and what is written of it have the same features, commitment and range proof.
pub open spec fn output_matches(output: Output, v3: OutputV3) -> bool {
    &&& v3.features == output.identifier.features
    &&& v3.commit == output.identifier.commit
    &&& v3.proof == output.proof
}

/// A kernel and what is written of it have the same excess and signature, and the kind, the
/// fee and the lock height are those of its features. A fee or a height that a kind does not
/// have is written as zero, and so is a relative height.
pub open spec fn kernel_is_written(kernel: TxKernel, v3: TxKernelV3) -> bool {
    &&& v3.excess == kernel.excess
    &&& v3.excess_sig == kernel.excess_sig
    &&& match kernel.features {
        KernelFeatures::Plain { fee } => v3.features == CompatKernelFeatures::Plain && v3.fee == fee
            && v3.lock_height == 0,
        KernelFeatures::Coinbase => v3.features == CompatKernelFeatures::Coinbase && v3.fee == 0
            && v3.lock_height == 0,
        KernelFeatures::HeightLocked { fee, lock_height } => v3.features
            == CompatKernelFeatures::HeightLocked && v3.fee == fee && v3.lock_height == lock_height,
        KernelFeatures::NoRecentDuplicate { fee, .. } => v3.features
            == CompatKernelFeatures::NoRecentDuplicate && v3.fee == fee && v3.lock_height == 0,
    }
}

/// A kernel that is read has the excess and the signature that are written, and features of
/// the kind, with the fee and the height that are written where the kind has them.
pub open spec fn kernel_is_read(v3: TxKernelV3, kernel: TxKernel) -> bool {
    &&& kernel.excess == v3.excess
    &&& kernel.excess_sig == v3.excess_sig
    &&& match v3.features {
        CompatKernelFeatures::Plain => kernel.features == (KernelFeatures::Plain { fee: v3.fee }),
        CompatKernelFeatures::Coinbase => kernel.features == KernelFeatures::Coinbase,
        CompatKernelFeatures::HeightLocked => kernel.features == (KernelFeatures::HeightLocked {
            fee: v3.fee,
            lock_height: v3.lock_height,
        }),
        CompatKernelFeatures::NoRecentDuplicate => {
            &&& kernel.features is NoRecentDuplicate
            &&& kernel.features->NoRecentDuplicate_fee == v3.fee
            &&& kernel.features->relative_height == v3.lock_height
        },
    }
}

/// A relative height in a written kernel is one that a kernel can have.
pub open spec fn height_in_range(v3: TxKernelV3) -> bool {
    v3.features == CompatKernelFeatures::NoRecentDuplicate ==> 1 <= v3.lock_height <= 10080
}

/// A participant and what is written of it have the same data.
pub open spec fn participant_matches(p: ParticipantData, v3: ParticipantDataV3) -> bool {
    &&& v3.id == p.id
    &&& v3.public_blind_excess == p.public_blind_excess
    &&& v3.public_nonce == p.public_nonce
    &&& v3.part_sig == p.part_sig
    &&& crate::laws::same::same_text(v3.message, p.message)
    &&& v3.message_sig == p.message_sig
}

/// A payment proof and what is written of it have the same addresses and signature.
pub open spec fn payment_matches(p: Option<PaymentInfo>, v3: Option<PaymentInfoV3>) -> bool {
    match (p, v3) {
        (Some(x), Some(y)) => {
            &&& y.sender_address.text@ == x.sender_address.text@
            &&& y.receiver_address.text@ == x.receiver_address.text@
            &&& crate::laws::same::same_text(y.receiver_signature, x.receiver_signature)
        },
        (None, None) => true,
        _ => false,
    }
}

/// Every participant matches what is written at the same place.
pub open spec fn participants_match(
    all: Seq<ParticipantData>,
    v3: Seq<ParticipantDataV3>,
) -> bool {
    &&& all.len() == v3.len()
    &&& forall|i: int|
        0 <= i < all.len() ==> participant_matches(#[trigger] all[i], #[trigger] v3[i])
}

/// What is written of inputs: for each, in order, its commitment and its features, or plain
/// ones where they are not known.
pub open spec fn inputs_are_written(inputs: Inputs, v3: Seq<InputV3>) -> bool {
    match inputs {
        Inputs::CommitOnly(commits) => v3.len() == commits@.len() && forall|i: int|
            0 <= i < v3.len() ==> (#[trigger] v3[i]).commit == commits@[i] && v3[i].features
                == OutputFeatures::Plain,
        Inputs::FeaturesAndCommit(inputs) => v3.len() == inputs@.len() && forall|i: int|
            0 <= i < v3.len() ==> (#[trigger] v3[i]).commit == inputs@[i].commit && v3[i].features
                == inputs@[i].features,
    }
}

/// What is read of inputs: each, in order, with its commitment and its features.
pub open spec fn inputs_are_read(v3: Seq<InputV3>, inputs: Inputs) -> bool {
    inputs matches Inputs::FeaturesAndCommit(all) && all@.len() == v3.len() && forall|i: int|
        0 <= i < v3.len() ==> (#[trigger] all@[i]).commit == v3[i].commit && all@[i].features
            == v3[i].features
}

/// Every output matches what is written at the same place.
pub open spec fn outputs_match(outputs: Seq<Output>, v3: Seq<OutputV3>) -> bool {
    &&& outputs.len() == v3.len()
    &&& forall|i: int|
        0 <= i < outputs.len() ==> output_matches(#[trigger] outputs[i], #[trigger] v3[i])
}

/// Every kernel is written at the same place.
pub open spec fn kernels_are_written(kernels: Seq<TxKernel>, v3: Seq<TxKernelV3>) -> bool {
    &&& kernels.len() == v3.len()
    &&& forall|i: int|
        0 <= i < kernels.len() ==> kernel_is_written(#[trigger] kernels[i], #[trigger] v3[i])
}

/// Every kernel is read from the same place.
pub open spec fn kernels_are_read(v3: Seq<TxKernelV3>, kernels: Seq<TxKernel>) -> bool {
    &&& kernels.len() == v3.len()
    &&& forall|i: int|
        0 <= i < kernels.len() ==> kernel_is_read(#[trigger] v3[i], #[trigger] kernels[i])
}

/// A body is written: inputs, outputs and kernels, each in order.
pub open spec fn body_is_written(body: TransactionBody, v3: TransactionBodyV3) -> bool {
    &&& inputs_are_written(body.inputs, v3.inputs@)
    &&& outputs_match(body.outputs@, v3.outputs@)
    &&& kernels_are_written(body.kernels@, v3.kernels@)
}

/// A body is read: inputs, outputs and kernels, each in order.
pub open spec fn body_is_read(v3: TransactionBodyV3, body: TransactionBody) -> bool {
    &&& inputs_are_read(v3.inputs@, body.inputs)
    &&& outputs_match(body.outputs@, v3.outputs@)
    &&& kernels_are_read(v3.kernels@, body.kernels@)
}

/// Every relative height in a written body is one that a kernel can have.
pub open spec fn heights_in_range(v3: TransactionBodyV3) -> bool {
    forall|i: int| 0 <= i < v3.kernels@.len() ==> height_in_range(#[trigger] v3.kernels@[i])
}

proof fn lemma_body_written(body: TransactionBody, v3: TransactionBodyV3)
    requires
        v3@ == body@.to_v3(),
    ensures
        body_is_written(body, v3),
{
    let written = body@.to_v3();
    assert forall|i: int| 0 <= i < body.outputs@.len() implies output_matches(
        #[trigger] body.outputs@[i],
        #[trigger] v3.outputs@[i],
    ) by {
        assert(v3.outputs@[i] == OutputV3::of(body.outputs@[i]));
    }
    assert forall|i: int| 0 <= i < body.kernels@.len() implies kernel_is_written(
        #[trigger] body.kernels@[i],
        #[trigger] v3.kernels@[i],
    ) by {
        assert(v3.kernels@[i] == TxKernelV3::of(body.kernels@[i]));
    }
}

proof fn lemma_body_read(v3: TransactionBodyV3, body: TransactionBody)
    requires
        body@ == v3@.body(),
        v3@.valid(),
    ensures
        body_is_read(v3, body),
{
    assert forall|i: int| 0 <= i < body.outputs@.len() implies output_matches(
        #[trigger] body.outputs@[i],
        #[trigger] v3.outputs@[i],
    ) by {
        assert(body.outputs@[i] == v3.outputs@[i].output());
    }
    assert forall|i: int| 0 <= i < body.kernels@.len() implies kernel_is_read(
        #[trigger] v3.kernels@[i],
        #[trigger] body.kernels@[i],
    ) by {
        assert(body.kernels@[i] == v3.kernels@[i].kernel());
        assert(v3@.kernels[i].valid());
    }
}

proof fn lemma_heights(v3: TransactionBodyV3)
    ensures
        v3@.valid() <==> heights_in_range(v3),
{
    if heights_in_range(v3) {
        assert forall|i: int| 0 <= i < v3@.kernels.len() implies (
        #[trigger] v3@.kernels[i]).valid() by {
            assert(height_in_range(v3.kernels@[i]));
        }
    }
    if v3@.valid() {
        assert forall|i: int| 0 <= i < v3.kernels@.len() implies height_in_range(
            #[trigger] v3.kernels@[i],
        ) by {
            assert(v3@.kernels[i].valid());
        }
    }
}

/// Inputs, outputs and kernels are written with their own data.
pub proof fn law_write_parts(
    input: Input,
    r_input: InputV3,
    output: Output,
    r_output: OutputV3,
    kernel: TxKernel,
    r_kernel: TxKernelV3,
)
    requires
        call_ensures(<InputV3 as From<&Input>>::from, (&input,), r_input),
        call_ensures(<OutputV3 as From<&Output>>::from, (&output,), r_output),
        call_ensures(<TxKernelV3 as From<&TxKernel>>::from, (&kernel,), r_kernel),
    ensures
        r_input.commit == input.commit && r_input.features == input.features,
        output_matches(output, r_output),
        kernel_is_written(kernel, r_kernel),
{
}

/// Participants, payment proofs and versions are written with their own data; a slate is first
/// written in the version that it has.
pub proof fn law_write_data(
    participant: ParticipantData,
    r_participant: ParticipantDataV3,
    payment: PaymentInfo,
    r_payment: PaymentInfoV3,
    info: VersionCompatInfo,
    r_info: VersionCompatInfoV3,
)
    requires
        call_ensures(
            <ParticipantDataV3 as From<&ParticipantData>>::from,
            (&participant,),
            r_participant,
        ),
        call_ensures(<PaymentInfoV3 as From<&PaymentInfo>>::from, (&payment,), r_payment),
        call_ensures(
            <VersionCompatInfoV3 as From<&VersionCompatInfo>>::from,
            (&info,),
            r_info,
        ),
    ensures
        participant_matches(participant, r_participant),
        payment_matches(Some(payment), Some(r_payment)),
        r_info.version == info.version,
        r_info.orig_version == info.version,
        r_info.block_header_version == info.block_header_version,
{
}

/// Inputs and outputs are read with the data that is written.
pub proof fn law_read_parts(input: InputV3, r_input: Input, output: OutputV3, r_output: Output)
    requires
        call_ensures(<Input as From<&InputV3>>::from, (&input,), r_input),
        call_ensures(<Output as From<&OutputV3>>::from, (&output,), r_output),
    ensures
        r_input.commit == input.commit && r_input.features == input.features,
        output_matches(r_output, output),
{
}

/// A kernel is read with the data that is written.
pub proof fn law_read_kernel(kernel: TxKernelV3, r: TxKernel)
    requires
        height_in_range(kernel),
        call_ensures(TxKernel::from_v3, (&kernel,), r),
    ensures
        kernel_is_read(kernel, r),
{
}

/// Participants, payment proofs and versions are read with the data that is written.
pub proof fn law_read_data(
    participant: ParticipantDataV3,
    r_participant: ParticipantData,
    payment: PaymentInfoV3,
    r_payment: PaymentInfo,
    info: VersionCompatInfoV3,
    r_info: VersionCompatInfo,
)
    requires
        call_ensures(
            <ParticipantData as From<&ParticipantDataV3>>::from,
            (&participant,),
            r_participant,
        ),
        call_ensures(<PaymentInfo as From<&PaymentInfoV3>>::from, (&payment,), r_payment),
        call_ensures(
            <VersionCompatInfo as From<&VersionCompatInfoV3>>::from,
            (&info,),
            r_info,
        ),
    ensures
        participant_matches(r_participant, participant),
        payment_matches(Some(r_payment), Some(payment)),
        r_info.version == info.version,
        r_info.block_header_version == info.block_header_version,
{
}

/// The reward of a block is written with its output, its kernel and its key.
pub proof fn law_write_coinbase(cb: CbData, r: CoinbaseV3)
    requires
        call_ensures(<CoinbaseV3 as From<CbData>>::from, (cb,), r),
    ensures
        output_matches(cb.output, r.output),
        kernel_is_written(cb.kernel, r.kernel),
        r.key_id == cb.key_id,
{
}

// Transactions

/// A transaction is written with its offset and with all inputs, outputs and kernels.
pub proof fn law_write_transaction(tx: Transaction, r: TransactionV3)
    requires
        call_ensures(<TransactionV3 as From<&Transaction>>::from, (&tx,), r),
    ensures
        r.offset == tx.offset,
        body_is_written(tx.body, r.body),
{
    lemma_body_written(tx.body, r.body);
}

/// A body is written with all inputs, outputs and kernels.
pub proof fn law_write_body(body: TransactionBody, r: TransactionBodyV3)
    requires
        call_ensures(<TransactionBodyV3 as From<&TransactionBody>>::from, (&body,), r),
    ensures
        body_is_written(body, r),
{
    lemma_body_written(body, r);
}

/// A transaction is read with the offset and with all inputs, outputs and kernels that are
/// written.
pub proof fn law_read_transaction(tx: TransactionV3, r: Transaction)
    requires
        heights_in_range(tx.body),
        call_ensures(Transaction::from_v3, (&tx,), r),
    ensures
        r.offset == tx.offset,
        body_is_read(tx.body, r.body),
{
    lemma_heights(tx.body);
    lemma_body_read(tx.body, r.body);
}

/// A body is read with all inputs, outputs and kernels that are written.
pub proof fn law_read_body(body: TransactionBodyV3, r: TransactionBody)
    requires
        heights_in_range(body),
        call_ensures(TransactionBody::from_v3, (&body,), r),
    ensures
        body_is_read(body, r),
{
    lemma_heights(body);
    lemma_body_read(body, r);
}

// Slates

/// A slate and a slate of the third version have the same amount, fee, heights, id, number of
/// participants and version, and the same participants and payment proof.
pub open spec fn heads_match(slate: Slate, v3: SlateV3) -> bool {
    &&& v3.amount == slate.amount
    &&& v3.fee == slate.fee
    &&& v3.height == slate.height
    &&& v3.lock_height == slate.lock_height
    &&& v3.ttl_cutoff_height == slate.ttl_cutoff_height
    &&& v3.id == slate.id
    &&& v3.num_participants == slate.num_participants
    &&& v3.version_info.version == slate.version_info.version
    &&& v3.version_info.block_header_version == slate.version_info.block_header_version
    &&& participants_match(slate.participant_data@, v3.participant_data@)
    &&& payment_matches(slate.payment_proof, v3.payment_proof)
}

/// The text is there and reads like this.
pub open spec fn reads(text: Option<String>, chars: Seq<char>) -> bool {
    text matches Some(t) && t@ == chars
}

/// A slate is written for a network: every part in its own field, with the name of the coin and
/// that of the network. The one offset that is written is that of the slate if it is compact,
/// and that of the transaction if not. Only a compact slate is marked as one.
pub open spec fn is_written(slate: Slate, network: Seq<char>, v3: SlateV3) -> bool {
    &&& heads_match(slate, v3)
    &&& v3.version_info.orig_version == slate.version_info.version
    &&& reads(v3.coin_type, "mwc"@)
    &&& reads(v3.network_type, network)
    &&& v3.compact_slate == (if slate.compact_slate {
        Some(true)
    } else {
        None
    })
    &&& v3.tx.offset == (if slate.compact_slate {
        slate.offset
    } else {
        slate.tx.offset
    })
    &&& body_is_written(slate.tx.body, v3.tx.body)
}

proof fn lemma_participants_match(slate: Slate, v3: SlateV3)
    requires
        slate@.participant_data == v3@.participant_data,
    ensures
        participants_match(slate.participant_data@, v3.participant_data@),
{
    let all = slate.participant_data@;
    let written = v3.participant_data@;
    assert(slate@.participant_data.len() == all.len());
    assert(v3@.participant_data.len() == written.len());
    assert forall|i: int| 0 <= i < all.len() implies participant_matches(
        #[trigger] all[i],
        #[trigger] written[i],
    ) by {
        assert(slate@.participant_data[i] == all[i]@);
        assert(v3@.participant_data[i] == written[i]@);
    }
}

proof fn lemma_written(slate: Slate, network: Seq<char>, v3: SlateV3)
    requires
        v3@ == slate@.to_v3(network),
    ensures
        is_written(slate, network, v3),
{
    lemma_participants_match(slate, v3);
    lemma_body_written(slate.tx.body, v3.tx.body);
}

/// A slate is written with every part in its own field.
pub proof fn law_write_slate(slate: Slate, network: &str, r: SlateV3)
    requires
        call_ensures(SlateV3::from_slate, (&slate, network), r),
    ensures
        is_written(slate, network@, r),
{
    lemma_written(slate, network@, r);
}

/// All bytes of the factor are zero.
pub open spec fn is_zero(factor: BlindingFactor) -> bool {
    forall|i: int| 0 <= i < 32 ==> #[trigger] factor@[i] == 0
}

/// A slate is read: every part from its own field. It is compact exactly if it is marked as
/// compact; the offset that is written is then also that of the slate, which else is zero.
pub open spec fn is_read(v3: SlateV3, slate: Slate) -> bool {
    &&& heads_match(slate, v3)
    &&& slate.compact_slate <==> v3.compact_slate == Some(true)
    &&& slate.tx.offset == v3.tx.offset
    &&& if slate.compact_slate {
        slate.offset == v3.tx.offset
    } else {
        is_zero(slate.offset)
    }
    &&& body_is_read(v3.tx.body, slate.tx.body)
}

proof fn lemma_read(v3: SlateV3, slate: Slate)
    requires
        heights_in_range(v3.tx.body),
        slate@ == v3@.slate(),
    ensures
        is_read(v3, slate),
{
    lemma_heights(v3.tx.body);
    lemma_participants_match(slate, v3);
    lemma_body_read(v3.tx.body, slate.tx.body);
}

/// A slate is read with every part from its own field.
pub proof fn law_read_slate(v3: SlateV3, r: Slate)
    requires
        heights_in_range(v3.tx.body),
        call_ensures(SlateV3::to_slate, (&v3,), r),
    ensures
        is_read(v3, r),
{
    lemma_read(v3, r);
}

/// A slate of the third version can be read exactly if every relative height is one that a
/// kernel can have.
pub proof fn law_is_valid(v3: SlateV3, r: bool)
    requires
        call_ensures(SlateV3::is_valid, (&v3,), r),
    ensures
        r == heights_in_range(v3.tx.body),
{
    lemma_heights(v3.tx.body);
}

/// A slate is written in the version that it has, the third or the second; with any other it
/// is not written, and the reason names the version.
pub proof fn law_to_versioned(slate: Slate, network: &str, r: Result<VersionedSlate, String>)
    requires
        call_ensures(Slate::to_versioned, (&slate, network), r),
    ensures
        slate.version_info.version == 3 ==> (r matches Ok(VersionedSlate::V3(v3)) && is_written(
            slate,
            network@,
            v3,
        )),
        slate.version_info.version == 2 ==> (r matches Ok(VersionedSlate::V2(v3)) && is_written(
            slate,
            network@,
            v3,
        )),
        slate.version_info.version != 2 && slate.version_info.version != 3 ==> (r matches Err(e)
            && e@ == "Unknown slate version "@ + crate::text::decimal(
            slate.version_info.version as nat,
        )),
{
    match r {
        Ok(VersionedSlate::V3(v3)) => lemma_written(slate, network@, v3),
        Ok(VersionedSlate::V2(v3)) => lemma_written(slate, network@, v3),
        Err(_) => {},
    }
}

// Documents

/// The version that a document says it has: that of the version info, else 1 if it has the
/// field of the first version, else 0.
pub open spec fn is_version(probe: SlateVersionProbe, version: u16) -> bool {
    match probe.version_info {
        Some(info) => version == info.version,
        None => if probe.version is Some {
            version == 1
        } else {
            version == 0
        },
    }
}

/// The version of a document is the one that it says it has.
pub proof fn law_probe_version(probe: SlateVersionProbe, r: u16)
    requires
        call_ensures(SlateVersionProbe::version, (&probe,), r),
    ensures
        is_version(probe, r),
{
}

/// The version of a document is the one that it says it has; where nothing can be read of it,
/// the error names the document and the reason.
pub proof fn law_parse_version(
    slate_json: &str,
    probe: Result<SlateVersionProbe, String>,
    r: Result<u16, SlateError>,
)
    requires
        call_ensures(Slate::parse_slate_version, (slate_json, &probe), r),
    ensures
        match probe {
            Ok(p) => r is Ok && is_version(p, r->Ok_0),
            Err(reason) => r matches Err(SlateError::SlateVersionParse(text)) && text@
                == "Unable to find slate version at "@ + slate_json@ + ", "@ + reason@,
        },
{
}

/// A document is read in the version that it is in: the third as it is, the second with the
/// cutoff height that was read on its own, or with none where it could not be read. In any
/// other version it is not read, and the error has the version. Where it does not have the
/// layout of its version, the error names the document and the reason.
pub proof fn law_upgrade_plain(
    slate_json: &str,
    parsed: ParsedSlate,
    version: u16,
    r: Result<Slate, SlateError>,
)
    requires
        call_ensures(Slate::deserialize_upgrade_plain, (slate_json, parsed), r),
        parsed.probe is Ok ==> is_version(parsed.probe->Ok_0, version),
        parsed.v3 matches Ok(v3) ==> heights_in_range(v3.tx.body),
        parsed.v2 matches Ok(v2) ==> heights_in_range(v2.tx.body),
    ensures
        parsed.probe matches Err(reason) ==> (r matches Err(SlateError::SlateVersionParse(text))
            && text@ == "Unable to find slate version at "@ + slate_json@ + ", "@ + reason@),
        parsed.probe is Ok && version == 3 ==> match parsed.v3 {
            Ok(v3) => r is Ok && is_read(v3, r->Ok_0),
            Err(reason) => r matches Err(SlateError::SlateDeser(text)) && text@
                == "Json to SlateV3 conversion failed for "@ + slate_json@ + ", "@ + reason@,
        },
        parsed.probe is Ok && version == 2 ==> match parsed.v2 {
            Ok(v2) => {
                let height = match parsed.ttl_cutoff_height {
                    Ok(height) => height,
                    Err(_) => None,
                };
                r is Ok && is_read((SlateV3 { ttl_cutoff_height: height, ..v2 }), r->Ok_0)
            },
            Err(reason) => r matches Err(SlateError::SlateDeser(text)) && text@
                == "Json to SlateV2 conversion failed for "@ + slate_json@ + ", "@ + reason@,
        },
        parsed.probe is Ok && version != 2 && version != 3 ==> r == Err::<Slate, SlateError>(
            SlateError::SlateVersion(version),
        ),
{
    if parsed.probe is Ok {
        assert(parsed.probe->Ok_0.spec_version() == version);
        if version == 3 && parsed.v3 is Ok {
            lemma_read(parsed.v3->Ok_0, r->Ok_0);
        }
        if version == 2 && parsed.v2 is Ok {
            let height = match parsed.ttl_cutoff_height {
                Ok(height) => height,
                Err(_) => None,
            };
            let v2 = SlateV3 { ttl_cutoff_height: height, ..parsed.v2->Ok_0 };
            assert(v2@ == (crate::versions::SlateV3View {
                ttl_cutoff_height: height,
                ..parsed.v2->Ok_0@
            }));
            lemma_read(v2, r->Ok_0);
        }
    }
}

/// A document can be read exactly if, in the version that it is in, every relative height is
/// one that a kernel can have.
pub proof fn law_document_is_valid(parsed: ParsedSlate, version: u16, r: bool)
    requires
        call_ensures(ParsedSlate::is_valid, (&parsed,), r),
        parsed.probe is Ok ==> is_version(parsed.probe->Ok_0, version),
    ensures
        r <==> (parsed.probe is Ok ==> {
            &&& version == 3 ==> (parsed.v3 matches Ok(v3) ==> heights_in_range(v3.tx.body))
            &&& version == 2 ==> (parsed.v2 matches Ok(v2) ==> heights_in_range(v2.tx.body))
        }),
{
    if parsed.v3 is Ok {
        lemma_heights(parsed.v3->Ok_0.tx.body);
    }
    if parsed.v2 is Ok {
        lemma_heights(parsed.v2->Ok_0.tx.body);
    }
}

/// A text is a plain document exactly if it starts with a brace.
pub proof fn law_is_plain(text: &str, r: bool)
    requires
        call_ensures(Slate::deserialize_is_plain, (text,), r),
    ensures
        r <==> text@.len() > 0 && text@[0] == '{',
{
}

/// Whoever decrypts a slatepack gets the bytes of the text, and what comes of it is handed back.
pub proof fn law_slatepack<P, D>(text: &str, decrypt: D, r: Result<P, SlateError>) where
    D: FnOnce(&[u8]) -> Result<P, SlateError>,

    requires
        call_ensures(Slate::deserialize_upgrade_slatepack::<P, D>, (text, decrypt), r),
    ensures
        exists|bytes: &[u8]|
            bytes@ == vstd::utf8::encode_utf8(text@) && #[trigger] call_ensures(
                decrypt,
                (bytes,),
                r,
            ),
{
}

// What is written can be read

/// A slate without a relative height and with inputs whose features are known comes back as it
/// was written: whatever is read from what was written of it is the same slate, but for the
/// offset that is not written.
pub proof fn law_written_can_be_read(slate: Slate, network: &str, v3: SlateV3, r: Slate)
    requires
        call_ensures(SlateV3::from_slate, (&slate, network), v3),
        call_ensures(SlateV3::to_slate, (&v3,), r),
        slate.tx.body.inputs is FeaturesAndCommit,
        forall|i: int|
            0 <= i < slate.tx.body.kernels@.len() ==> !((
            #[trigger] slate.tx.body.kernels@[i]).features is NoRecentDuplicate),
    ensures
        crate::laws::same::same_head(r, slate),
        crate::laws::same::same_participants(r.participant_data@, slate.participant_data@),
        crate::laws::same::same_inputs(r.tx.body.inputs, slate.tx.body.inputs),
        r.tx.body.outputs@ == slate.tx.body.outputs@,
        r.tx.body.kernels@ == slate.tx.body.kernels@,
        slate.compact_slate ==> r.offset == slate.offset && r.tx.offset == slate.offset,
        !slate.compact_slate ==> r.tx.offset == slate.tx.offset && is_zero(r.offset),
{
    assert(crate::laws::fits_v3(slate@.tx.body)) by {
        assert forall|i: int| 0 <= i < slate@.tx.body.kernels.len() implies !((
        #[trigger] slate@.tx.body.kernels[i]).features is NoRecentDuplicate) by {
            assert(!(slate.tx.body.kernels@[i].features is NoRecentDuplicate));
        }
    }
    crate::laws::law_v3_slate_round_trip(slate@, network@);
    crate::laws::same::lemma_same_participants(r.participant_data@, slate.participant_data@);
}

} // verus!
