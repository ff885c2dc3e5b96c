//! The third version of the slate format, and the conversions between it and
//! slates.
use crate::bytes::copy_optional_text;
use crate::crypto::{BlindingFactor, Commitment, Identifier, PublicKey, Signature, Uuid};
use crate::participant::{ParticipantData, ParticipantView};
use crate::slate::{PaymentInfo, PaymentView, ProvableAddress, Slate, SlateView, VersionCompatInfo};
use crate::transaction::{
    zero_blind, BodyView, Input, Inputs, InputsView, KernelFeatures, Output, OutputFeatures,
    OutputIdentifier, RangeProof, Transaction, TransactionBody, TransactionView, TxKernel,
    MAX_RELATIVE_HEIGHT,
};
use vstd::prelude::*;
use vstd::std_specs::convert::FromSpecImpl;

verus! {

/// The kind of a kernel, without the data of that kind.
#[derive(Clone, Copy, Debug, PartialEq, Eq, Structural)]
pub enum CompatKernelFeatures {
    Plain,
    Coinbase,
    HeightLocked,
    NoRecentDuplicate,
}

/// An input.
#[derive(Clone, Copy, Debug, PartialEq, Eq)]
pub struct InputV3 {
    pub features: OutputFeatures,
    pub commit: Commitment,
}

/// An output.
#[derive(Clone, Copy, Debug, PartialEq, Eq)]
pub struct OutputV3 {
    pub features: OutputFeatures,
    pub commit: Commitment,
    pub proof: RangeProof,
}

/// A kernel: the data of every kind in fields of its own.
#[derive(Clone, Copy, Debug, PartialEq, Eq)]
pub struct TxKernelV3 {
    pub features: CompatKernelFeatures,
    pub fee: u64,
    pub lock_height: u64,
    pub excess: Commitment,
    pub excess_sig: Signature,
}

/// The body of a transaction.
#[derive(Debug)]
pub struct TransactionBodyV3 {
    pub inputs: Vec<InputV3>,
    pub outputs: Vec<OutputV3>,
    pub kernels: Vec<TxKernelV3>,
}

/// A transaction.
#[derive(Debug)]
pub struct TransactionV3 {
    pub offset: BlindingFactor,
    pub body: TransactionBodyV3,
}

/// The public data of a participant.
#[derive(Debug)]
pub struct ParticipantDataV3 {
    pub id: u64,
    pub public_blind_excess: PublicKey,
    pub public_nonce: PublicKey,
    pub part_sig: Option<Signature>,
    pub message: Option<String>,
    pub message_sig: Option<Signature>,
}

/// Versioning and compatibility info.
#[derive(Clone, Copy, Debug, PartialEq, Eq, Structural)]
pub struct VersionCompatInfoV3 {
    /// The version of the slate format.
    pub version: u16,
    /// The version in which the slate was first written.
    pub orig_version: u16,
    /// The block header version the slate is intended for.
    pub block_header_version: u16,
}

/// A payment proof.
#[derive(Debug)]
pub struct PaymentInfoV3 {
    pub sender_address: ProvableAddress,
    pub receiver_address: ProvableAddress,
    pub receiver_signature: Option<String>,
}

/// A slate.
#[derive(Debug)]
pub struct SlateV3 {
    pub version_info: VersionCompatInfoV3,
    pub num_participants: usize,
    pub id: Uuid,
    pub tx: TransactionV3,
    pub amount: u64,
    pub fee: u64,
    pub height: u64,
    pub lock_height: u64,
    pub ttl_cutoff_height: Option<u64>,
    /// The coin that the slate is for.
    pub coin_type: Option<String>,
    /// The network that the slate is for.
    pub network_type: Option<String>,
    pub participant_data: Vec<ParticipantDataV3>,
    pub payment_proof: Option<PaymentInfoV3>,
    /// Set for a compact slate, absent for others.
    pub compact_slate: Option<bool>,
}

/// The output and kernel of a block reward, with the key of the output.
#[derive(Clone, Copy, Debug)]
pub struct CbData {
    pub output: Output,
    pub kernel: TxKernel,
    pub key_id: Option<Identifier>,
}

/// The output and kernel of a block reward, with the key of the output.
#[derive(Clone, Copy, Debug, PartialEq, Eq)]
pub struct CoinbaseV3 {
    pub output: OutputV3,
    pub kernel: TxKernelV3,
    pub key_id: Option<Identifier>,
}

/// `TransactionBodyV3` over sequences.
#[verifier::ext_equal]
pub struct BodyV3View {
    pub inputs: Seq<InputV3>,
    pub outputs: Seq<OutputV3>,
    pub kernels: Seq<TxKernelV3>,
}

/// `TransactionV3` over sequences.
#[verifier::ext_equal]
pub struct TransactionV3View {
    pub offset: BlindingFactor,
    pub body: BodyV3View,
}

/// `SlateV3` over sequences.
#[verifier::ext_equal]
pub struct SlateV3View {
    pub version_info: VersionCompatInfoV3,
    pub num_participants: usize,
    pub id: Uuid,
    pub tx: TransactionV3View,
    pub amount: u64,
    pub fee: u64,
    pub height: u64,
    pub lock_height: u64,
    pub ttl_cutoff_height: Option<u64>,
    pub coin_type: Option<Seq<char>>,
    pub network_type: Option<Seq<char>>,
    pub participant_data: Seq<ParticipantView>,
    pub payment_proof: Option<PaymentView>,
    pub compact_slate: Option<bool>,
}

impl View for TransactionBodyV3 {
    type V = BodyV3View;

    open spec fn view(&self) -> BodyV3View {
        BodyV3View { inputs: self.inputs@, outputs: self.outputs@, kernels: self.kernels@ }
    }
}

impl View for TransactionV3 {
    type V = TransactionV3View;

    open spec fn view(&self) -> TransactionV3View {
        TransactionV3View { offset: self.offset, body: self.body@ }
    }
}

impl View for ParticipantDataV3 {
    type V = ParticipantView;

    open spec fn view(&self) -> ParticipantView {
        ParticipantView {
            id: self.id,
            public_blind_excess: self.public_blind_excess,
            public_nonce: self.public_nonce,
            part_sig: self.part_sig,
            message: crate::bytes::text_view(self.message),
            message_sig: self.message_sig,
        }
    }
}

impl View for PaymentInfoV3 {
    type V = PaymentView;

    open spec fn view(&self) -> PaymentView {
        PaymentView {
            sender_address: self.sender_address.text@,
            receiver_address: self.receiver_address.text@,
            receiver_signature: crate::bytes::text_view(self.receiver_signature),
        }
    }
}

impl View for SlateV3 {
    type V = SlateV3View;

    open spec fn view(&self) -> SlateV3View {
        SlateV3View {
            version_info: self.version_info,
            num_participants: self.num_participants,
            id: self.id,
            tx: self.tx@,
            amount: self.amount,
            fee: self.fee,
            height: self.height,
            lock_height: self.lock_height,
            ttl_cutoff_height: self.ttl_cutoff_height,
            coin_type: crate::bytes::text_view(self.coin_type),
            network_type: crate::bytes::text_view(self.network_type),
            participant_data: self.participant_data@.map_values(|p: ParticipantDataV3| p@),
            payment_proof: match self.payment_proof {
                Some(p) => Some(p@),
                None => None,
            },
            compact_slate: self.compact_slate,
        }
    }
}

/// The results of `f` on the items of `items`, in order.
fn map_vec<T, U, F: Fn(&T) -> U>(items: &Vec<T>, f: F) -> (r: Vec<U>)
    requires
        forall|i: int| 0 <= i < items@.len() ==> call_requires(f, (&#[trigger] items@[i],)),
    ensures
        r@.len() == items@.len(),
        forall|i: int|
            0 <= i < items@.len() ==> call_ensures(f, (&items@[i],), #[trigger] r@[i]),
{
    let mut r: Vec<U> = Vec::new();
    let mut i: usize = 0;
    while i < items.len()
        invariant
            i <= items@.len(),
            r@.len() == i,
            forall|i: int| 0 <= i < items@.len() ==> call_requires(f, (&#[trigger] items@[i],)),
            forall|j: int| 0 <= j < i ==> call_ensures(f, (&items@[j],), #[trigger] r@[j]),
        decreases items@.len() - i,
    {
        assert(call_requires(f, (&items@[i as int],)));
        r.push(f(&items[i]));
        i = i + 1;
    }
    r
}

// Slates to the third version

impl InputV3 {
    /// An input in the third version.
    pub open spec fn of(input: Input) -> InputV3 {
        InputV3 { features: input.features, commit: input.commit }
    }

    /// An input of which only the commitment is known, taken for a plain one.
    pub open spec fn plain(commit: Commitment) -> InputV3 {
        InputV3 { features: OutputFeatures::Plain, commit }
    }
}

impl OutputV3 {
    /// An output in the third version.
    pub open spec fn of(output: Output) -> OutputV3 {
        OutputV3 {
            features: output.identifier.features,
            commit: output.identifier.commit,
            proof: output.proof,
        }
    }
}

impl TxKernelV3 {
    /// A kernel in the third version. A relative height has no place in it and is
    /// lost.
    pub open spec fn of(kernel: TxKernel) -> TxKernelV3 {
        TxKernelV3 {
            features: match kernel.features {
                KernelFeatures::Plain { .. } => CompatKernelFeatures::Plain,
                KernelFeatures::Coinbase => CompatKernelFeatures::Coinbase,
                KernelFeatures::HeightLocked { .. } => CompatKernelFeatures::HeightLocked,
                KernelFeatures::NoRecentDuplicate { .. } => CompatKernelFeatures::NoRecentDuplicate,
            },
            fee: kernel.features.fee_field(),
            lock_height: match kernel.features {
                KernelFeatures::HeightLocked { lock_height, .. } => lock_height,
                _ => 0,
            },
            excess: kernel.excess,
            excess_sig: kernel.excess_sig,
        }
    }
}

impl VersionCompatInfoV3 {
    /// Version info in the third version: the slate is first written in the version
    /// that it has.
    pub open spec fn of(info: VersionCompatInfo) -> VersionCompatInfoV3 {
        VersionCompatInfoV3 {
            version: info.version,
            orig_version: info.version,
            block_header_version: info.block_header_version,
        }
    }
}

impl BodyView {
    /// The body in the third version.
    pub open spec fn to_v3(self) -> BodyV3View {
        BodyV3View {
            inputs: match self.inputs {
                InputsView::CommitOnly(commits) => commits.map_values(
                    |c: Commitment| InputV3::plain(c),
                ),
                InputsView::FeaturesAndCommit(inputs) => inputs.map_values(
                    |i: Input| InputV3::of(i),
                ),
            },
            outputs: self.outputs.map_values(|o: Output| OutputV3::of(o)),
            kernels: self.kernels.map_values(|k: TxKernel| TxKernelV3::of(k)),
        }
    }
}

impl TransactionView {
    /// The transaction in the third version.
    pub open spec fn to_v3(self) -> TransactionV3View {
        TransactionV3View { offset: self.offset, body: self.body.to_v3() }
    }
}

impl SlateView {
    /// The slate in the third version, for the network with the given name. Where
    /// the slate is compact, the transaction is written with the offset of the slate.
    pub open spec fn to_v3(self, network: Seq<char>) -> SlateV3View {
        SlateV3View {
            version_info: VersionCompatInfoV3::of(self.version_info),
            num_participants: self.num_participants,
            id: self.id,
            tx: if self.compact_slate {
                TransactionV3View { offset: self.offset, ..self.tx.to_v3() }
            } else {
                self.tx.to_v3()
            },
            amount: self.amount,
            fee: self.fee,
            height: self.height,
            lock_height: self.lock_height,
            ttl_cutoff_height: self.ttl_cutoff_height,
            coin_type: Some("mwc"@),
            network_type: Some(network),
            participant_data: self.participant_data,
            payment_proof: self.payment_proof,
            compact_slate: if self.compact_slate {
                Some(true)
            } else {
                None
            },
        }
    }
}

impl<'a> From<&'a Input> for InputV3 {
    fn from(input: &'a Input) -> (r: InputV3) {
        InputV3 { features: input.features, commit: input.commit }
    }
}

impl<'a> FromSpecImpl<&'a Input> for InputV3 {
    open spec fn obeys_from_spec() -> bool {
        true
    }

    open spec fn from_spec(input: &'a Input) -> InputV3 {
        InputV3::of(*input)
    }
}

impl<'a> From<&'a Output> for OutputV3 {
    fn from(output: &'a Output) -> (r: OutputV3) {
        OutputV3 {
            features: output.identifier.features,
            commit: output.identifier.commit,
            proof: output.proof,
        }
    }
}

impl<'a> FromSpecImpl<&'a Output> for OutputV3 {
    open spec fn obeys_from_spec() -> bool {
        true
    }

    open spec fn from_spec(output: &'a Output) -> OutputV3 {
        OutputV3::of(*output)
    }
}

impl<'a> From<&'a TxKernel> for TxKernelV3 {
    fn from(kernel: &'a TxKernel) -> (r: TxKernelV3) {
        let (features, fee, lock_height): (CompatKernelFeatures, u64, u64) = match kernel.features {
            KernelFeatures::Plain { fee } => (CompatKernelFeatures::Plain, fee, 0),
            KernelFeatures::Coinbase => (CompatKernelFeatures::Coinbase, 0, 0),
            KernelFeatures::HeightLocked { fee, lock_height } => {
                (CompatKernelFeatures::HeightLocked, fee, lock_height)
            },
            KernelFeatures::NoRecentDuplicate { fee, relative_height: _ } => {
                (CompatKernelFeatures::NoRecentDuplicate, fee, 0)
            },
        };
        TxKernelV3 {
            features,
            fee,
            lock_height,
            excess: kernel.excess,
            excess_sig: kernel.excess_sig,
        }
    }
}

impl<'a> FromSpecImpl<&'a TxKernel> for TxKernelV3 {
    open spec fn obeys_from_spec() -> bool {
        true
    }

    open spec fn from_spec(kernel: &'a TxKernel) -> TxKernelV3 {
        TxKernelV3::of(*kernel)
    }
}

impl From<CbData> for CoinbaseV3 {
    fn from(cb: CbData) -> (r: CoinbaseV3) {
        CoinbaseV3 {
            output: OutputV3::from(&cb.output),
            kernel: TxKernelV3::from(&cb.kernel),
            key_id: cb.key_id,
        }
    }
}

impl FromSpecImpl<CbData> for CoinbaseV3 {
    open spec fn obeys_from_spec() -> bool {
        true
    }

    open spec fn from_spec(cb: CbData) -> CoinbaseV3 {
        CoinbaseV3 {
            output: OutputV3::of(cb.output),
            kernel: TxKernelV3::of(cb.kernel),
            key_id: cb.key_id,
        }
    }
}

impl<'a> From<&'a ParticipantData> for ParticipantDataV3 {
    fn from(data: &'a ParticipantData) -> (r: ParticipantDataV3) {
        ParticipantDataV3 {
            id: data.id,
            public_blind_excess: data.public_blind_excess,
            public_nonce: data.public_nonce,
            part_sig: data.part_sig,
            message: copy_optional_text(&data.message),
            message_sig: data.message_sig,
        }
    }
}

impl<'a> FromSpecImpl<&'a ParticipantData> for ParticipantDataV3 {
    open spec fn obeys_from_spec() -> bool {
        true
    }

    open spec fn from_spec(data: &'a ParticipantData) -> ParticipantDataV3 {
        ParticipantDataV3 {
            id: data.id,
            public_blind_excess: data.public_blind_excess,
            public_nonce: data.public_nonce,
            part_sig: data.part_sig,
            message: data.message,
            message_sig: data.message_sig,
        }
    }
}

impl<'a> From<&'a VersionCompatInfo> for VersionCompatInfoV3 {
    fn from(data: &'a VersionCompatInfo) -> (r: VersionCompatInfoV3) {
        VersionCompatInfoV3 {
            version: data.version,
            orig_version: data.version,
            block_header_version: data.block_header_version,
        }
    }
}

impl<'a> FromSpecImpl<&'a VersionCompatInfo> for VersionCompatInfoV3 {
    open spec fn obeys_from_spec() -> bool {
        true
    }

    open spec fn from_spec(data: &'a VersionCompatInfo) -> VersionCompatInfoV3 {
        VersionCompatInfoV3::of(*data)
    }
}

impl<'a> From<&'a PaymentInfo> for PaymentInfoV3 {
    fn from(data: &'a PaymentInfo) -> (r: PaymentInfoV3) {
        PaymentInfoV3 {
            sender_address: data.sender_address.clone(),
            receiver_address: data.receiver_address.clone(),
            receiver_signature: copy_optional_text(&data.receiver_signature),
        }
    }
}

impl<'a> FromSpecImpl<&'a PaymentInfo> for PaymentInfoV3 {
    open spec fn obeys_from_spec() -> bool {
        true
    }

    open spec fn from_spec(data: &'a PaymentInfo) -> PaymentInfoV3 {
        PaymentInfoV3 {
            sender_address: data.sender_address,
            receiver_address: data.receiver_address,
            receiver_signature: data.receiver_signature,
        }
    }
}

fn plain_input(commit: &Commitment) -> (r: InputV3)
    ensures
        r == InputV3::plain(*commit),
{
    InputV3 { features: OutputFeatures::Plain, commit: *commit }
}

fn input_to_v3(input: &Input) -> (r: InputV3)
    ensures
        r == InputV3::of(*input),
{
    InputV3::from(input)
}

fn output_to_v3(output: &Output) -> (r: OutputV3)
    ensures
        r == OutputV3::of(*output),
{
    OutputV3::from(output)
}

fn kernel_to_v3(kernel: &TxKernel) -> (r: TxKernelV3)
    ensures
        r == TxKernelV3::of(*kernel),
{
    TxKernelV3::from(kernel)
}

fn participant_to_v3(data: &ParticipantData) -> (r: ParticipantDataV3)
    ensures
        r@ == data@,
{
    ParticipantDataV3::from(data)
}

impl<'a> From<&'a TransactionBody> for TransactionBodyV3 {
    /// A body in the third version. Inputs of which only the commitment is known are
    /// taken for plain ones.
    fn from(body: &'a TransactionBody) -> (r: TransactionBodyV3)
        ensures
            r@ == body@.to_v3(),
    {
        let inputs: Vec<InputV3> = match &body.inputs {
            Inputs::CommitOnly(commits) => map_vec(commits, plain_input),
            Inputs::FeaturesAndCommit(inputs) => map_vec(inputs, input_to_v3),
        };
        let outputs: Vec<OutputV3> = map_vec(&body.outputs, output_to_v3);
        let kernels: Vec<TxKernelV3> = map_vec(&body.kernels, kernel_to_v3);
        assert(inputs@ =~= body@.to_v3().inputs);
        assert(outputs@ =~= body@.to_v3().outputs);
        assert(kernels@ =~= body@.to_v3().kernels);
        TransactionBodyV3 { inputs, outputs, kernels }
    }
}

impl<'a> FromSpecImpl<&'a TransactionBody> for TransactionBodyV3 {
    open spec fn obeys_from_spec() -> bool {
        false
    }

    open spec fn from_spec(body: &'a TransactionBody) -> TransactionBodyV3 {
        arbitrary()
    }
}

impl<'a> From<&'a Transaction> for TransactionV3 {
    fn from(tx: &'a Transaction) -> (r: TransactionV3)
        ensures
            r@ == tx@.to_v3(),
    {
        TransactionV3 { offset: tx.offset, body: TransactionBodyV3::from(&tx.body) }
    }
}

impl<'a> FromSpecImpl<&'a Transaction> for TransactionV3 {
    open spec fn obeys_from_spec() -> bool {
        false
    }

    open spec fn from_spec(tx: &'a Transaction) -> TransactionV3 {
        arbitrary()
    }
}

impl SlateV3 {
    /// A slate in the third version, for the network with the given name.
    pub fn from_slate(slate: &Slate, network_name: &str) -> (r: SlateV3)
        ensures
            r@ == slate@.to_v3(network_name@),
    {
        let participant_data: Vec<ParticipantDataV3> = map_vec(
            &slate.participant_data,
            participant_to_v3,
        );
        let payment_proof: Option<PaymentInfoV3> = match &slate.payment_proof {
            Some(p) => Some(PaymentInfoV3::from(p)),
            None => None,
        };
        let mut tx: TransactionV3 = TransactionV3::from(&slate.tx);
        if slate.compact_slate {
            tx.offset = slate.offset;
        }
        let r = SlateV3 {
            num_participants: slate.num_participants,
            id: slate.id,
            tx,
            amount: slate.amount,
            fee: slate.fee,
            height: slate.height,
            lock_height: slate.lock_height,
            ttl_cutoff_height: slate.ttl_cutoff_height,
            coin_type: Some("mwc".to_string()),
            network_type: Some(network_name.to_string()),
            participant_data,
            version_info: VersionCompatInfoV3::from(&slate.version_info),
            payment_proof,
            compact_slate: if slate.compact_slate {
                Some(true)
            } else {
                None
            },
        };
        assert(r@.participant_data =~= slate@.participant_data);
        r
    }
}

// The third version to slates

impl TxKernelV3 {
    /// A kernel can have been written like this: a relative height is in range.
    pub open spec fn valid(self) -> bool {
        self.features == CompatKernelFeatures::NoRecentDuplicate ==> 1 <= self.lock_height
            <= MAX_RELATIVE_HEIGHT
    }

    /// The kernel that is written like this.
    pub open spec fn kernel(self) -> TxKernel {
        TxKernel {
            features: match self.features {
                CompatKernelFeatures::Plain => KernelFeatures::Plain { fee: self.fee },
                CompatKernelFeatures::Coinbase => KernelFeatures::Coinbase,
                CompatKernelFeatures::HeightLocked => KernelFeatures::HeightLocked {
                    fee: self.fee,
                    lock_height: self.lock_height,
                },
                CompatKernelFeatures::NoRecentDuplicate => KernelFeatures::NoRecentDuplicate {
                    fee: self.fee,
                    relative_height: self.lock_height as u16,
                },
            },
            excess: self.excess,
            excess_sig: self.excess_sig,
        }
    }
}

impl InputV3 {
    /// The input that is written like this.
    pub open spec fn input(self) -> Input {
        Input { features: self.features, commit: self.commit }
    }
}

impl OutputV3 {
    /// The output that is written like this.
    pub open spec fn output(self) -> Output {
        Output {
            identifier: OutputIdentifier { features: self.features, commit: self.commit },
            proof: self.proof,
        }
    }
}

impl BodyV3View {
    /// Every kernel can have been written like this.
    pub open spec fn valid(self) -> bool {
        forall|i: int| 0 <= i < self.kernels.len() ==> (#[trigger] self.kernels[i]).valid()
    }

    /// The body that is written like this.
    pub open spec fn body(self) -> BodyView {
        BodyView {
            inputs: InputsView::FeaturesAndCommit(self.inputs.map_values(|i: InputV3| i.input())),
            outputs: self.outputs.map_values(|o: OutputV3| o.output()),
            kernels: self.kernels.map_values(|k: TxKernelV3| k.kernel()),
        }
    }
}

impl TransactionV3View {
    /// The transaction that is written like this.
    pub open spec fn transaction(self) -> TransactionView {
        TransactionView { offset: self.offset, body: self.body.body() }
    }
}

impl SlateV3View {
    /// The slate that is written like this. The offset of a compact slate is that of
    /// its transaction; other slates have none of their own.
    pub open spec fn slate(self) -> SlateView {
        SlateView {
            compact_slate: self.compact_slate == Some(true),
            version_info: VersionCompatInfo {
                version: self.version_info.version,
                block_header_version: self.version_info.block_header_version,
            },
            num_participants: self.num_participants,
            id: self.id,
            tx: self.tx.transaction(),
            amount: self.amount,
            fee: self.fee,
            height: self.height,
            lock_height: self.lock_height,
            ttl_cutoff_height: self.ttl_cutoff_height,
            participant_data: self.participant_data,
            payment_proof: self.payment_proof,
            offset: if self.compact_slate == Some(true) {
                self.tx.offset
            } else {
                crate::transaction::spec_zero_blind()
            },
        }
    }
}

impl<'a> From<&'a InputV3> for Input {
    fn from(input: &'a InputV3) -> (r: Input) {
        Input { features: input.features, commit: input.commit }
    }
}

impl<'a> FromSpecImpl<&'a InputV3> for Input {
    open spec fn obeys_from_spec() -> bool {
        true
    }

    open spec fn from_spec(input: &'a InputV3) -> Input {
        input.input()
    }
}

impl<'a> From<&'a OutputV3> for Output {
    fn from(output: &'a OutputV3) -> (r: Output) {
        Output {
            identifier: OutputIdentifier { features: output.features, commit: output.commit },
            proof: output.proof,
        }
    }
}

impl<'a> FromSpecImpl<&'a OutputV3> for Output {
    open spec fn obeys_from_spec() -> bool {
        true
    }

    open spec fn from_spec(output: &'a OutputV3) -> Output {
        output.output()
    }
}

impl<'a> From<&'a ParticipantDataV3> for ParticipantData {
    fn from(data: &'a ParticipantDataV3) -> (r: ParticipantData) {
        ParticipantData {
            id: data.id,
            public_blind_excess: data.public_blind_excess,
            public_nonce: data.public_nonce,
            part_sig: data.part_sig,
            message: copy_optional_text(&data.message),
            message_sig: data.message_sig,
        }
    }
}

impl<'a> FromSpecImpl<&'a ParticipantDataV3> for ParticipantData {
    open spec fn obeys_from_spec() -> bool {
        true
    }

    open spec fn from_spec(data: &'a ParticipantDataV3) -> ParticipantData {
        ParticipantData {
            id: data.id,
            public_blind_excess: data.public_blind_excess,
            public_nonce: data.public_nonce,
            part_sig: data.part_sig,
            message: data.message,
            message_sig: data.message_sig,
        }
    }
}

impl<'a> From<&'a VersionCompatInfoV3> for VersionCompatInfo {
    fn from(data: &'a VersionCompatInfoV3) -> (r: VersionCompatInfo) {
        VersionCompatInfo {
            version: data.version,
            block_header_version: data.block_header_version,
        }
    }
}

impl<'a> FromSpecImpl<&'a VersionCompatInfoV3> for VersionCompatInfo {
    open spec fn obeys_from_spec() -> bool {
        true
    }

    open spec fn from_spec(data: &'a VersionCompatInfoV3) -> VersionCompatInfo {
        VersionCompatInfo {
            version: data.version,
            block_header_version: data.block_header_version,
        }
    }
}

impl<'a> From<&'a PaymentInfoV3> for PaymentInfo {
    fn from(data: &'a PaymentInfoV3) -> (r: PaymentInfo) {
        PaymentInfo {
            sender_address: data.sender_address.clone(),
            receiver_address: data.receiver_address.clone(),
            receiver_signature: copy_optional_text(&data.receiver_signature),
        }
    }
}

impl<'a> FromSpecImpl<&'a PaymentInfoV3> for PaymentInfo {
    open spec fn obeys_from_spec() -> bool {
        true
    }

    open spec fn from_spec(data: &'a PaymentInfoV3) -> PaymentInfo {
        PaymentInfo {
            sender_address: data.sender_address,
            receiver_address: data.receiver_address,
            receiver_signature: data.receiver_signature,
        }
    }
}

fn input_from_v3(input: &InputV3) -> (r: Input)
    ensures
        r == input.input(),
{
    Input::from(input)
}

fn output_from_v3(output: &OutputV3) -> (r: Output)
    ensures
        r == output.output(),
{
    Output::from(output)
}

fn participant_from_v3(data: &ParticipantDataV3) -> (r: ParticipantData)
    ensures
        r@ == data@,
{
    ParticipantData::from(data)
}

impl TxKernel {
    /// The kernel that is written like this. A relative height has to be in range.
    pub fn from_v3(kernel: &TxKernelV3) -> (r: TxKernel)
        requires
            kernel.valid(),
        ensures
            r == kernel.kernel(),
            r.features.valid(),
    {
        let (fee, lock_height): (u64, u64) = (kernel.fee, kernel.lock_height);
        let features: KernelFeatures = match kernel.features {
            CompatKernelFeatures::Plain => KernelFeatures::Plain { fee },
            CompatKernelFeatures::Coinbase => KernelFeatures::Coinbase,
            CompatKernelFeatures::HeightLocked => KernelFeatures::HeightLocked { fee, lock_height },
            CompatKernelFeatures::NoRecentDuplicate => KernelFeatures::NoRecentDuplicate {
                fee,
                relative_height: lock_height as u16,
            },
        };
        TxKernel { features, excess: kernel.excess, excess_sig: kernel.excess_sig }
    }
}

impl TransactionBody {
    /// The body that is written like this.
    pub fn from_v3(body: &TransactionBodyV3) -> (r: TransactionBody)
        requires
            body@.valid(),
        ensures
            r@ == body@.body(),
    {
        let inputs: Vec<Input> = map_vec(&body.inputs, input_from_v3);
        let outputs: Vec<Output> = map_vec(&body.outputs, output_from_v3);
        let kernels: Vec<TxKernel> = map_vec(&body.kernels, TxKernel::from_v3);
        assert(inputs@ =~= body.inputs@.map_values(|i: InputV3| i.input()));
        assert(outputs@ =~= body@.body().outputs);
        assert(kernels@ =~= body@.body().kernels);
        TransactionBody { inputs: Inputs::FeaturesAndCommit(inputs), outputs, kernels }
    }
}

impl Transaction {
    /// The transaction that is written like this.
    pub fn from_v3(tx: &TransactionV3) -> (r: Transaction)
        requires
            tx@.body.valid(),
        ensures
            r@ == tx@.transaction(),
    {
        Transaction { offset: tx.offset, body: TransactionBody::from_v3(&tx.body) }
    }
}

impl SlateV3 {
    /// Whether every relative height of a kernel is in range.
    pub fn is_valid(&self) -> (r: bool)
        ensures
            r == self@.tx.body.valid(),
    {
        let kernels: &Vec<TxKernelV3> = &self.tx.body.kernels;
        let mut i: usize = 0;
        while i < kernels.len()
            invariant
                i <= kernels@.len(),
                kernels@ == self@.tx.body.kernels,
                forall|j: int| 0 <= j < i ==> (#[trigger] kernels@[j]).valid(),
            decreases kernels@.len() - i,
        {
            if kernels[i].features == CompatKernelFeatures::NoRecentDuplicate && (
            kernels[i].lock_height < 1 || kernels[i].lock_height > MAX_RELATIVE_HEIGHT as u64) {
                assert(!self@.tx.body.kernels[i as int].valid());
                return false;
            }
            i = i + 1;
        }
        true
    }

    /// The slate that is written like this.
    pub fn to_slate(&self) -> (r: Slate)
        requires
            self@.tx.body.valid(),
        ensures
            r@ == self@.slate(),
    {
        let participant_data: Vec<ParticipantData> = map_vec(
            &self.participant_data,
            participant_from_v3,
        );
        let payment_proof: Option<PaymentInfo> = match &self.payment_proof {
            Some(p) => Some(PaymentInfo::from(p)),
            None => None,
        };
        let compact_slate: bool = match self.compact_slate {
            Some(compact) => compact,
            None => false,
        };
        let r = Slate {
            compact_slate,
            version_info: VersionCompatInfo::from(&self.version_info),
            num_participants: self.num_participants,
            id: self.id,
            tx: Transaction::from_v3(&self.tx),
            amount: self.amount,
            fee: self.fee,
            height: self.height,
            lock_height: self.lock_height,
            ttl_cutoff_height: self.ttl_cutoff_height,
            participant_data,
            payment_proof,
            offset: if compact_slate {
                self.tx.offset
            } else {
                zero_blind()
            },
        };
        assert(r@.participant_data =~= self@.participant_data);
        r
    }
}

} // verus!
