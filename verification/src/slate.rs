//! The slate itself, and what is read off it or set in it directly.
use crate::bytes::copy_optional_text;
use crate::crypto::{random_uuid, BlindingFactor, Uuid};
use crate::participant::{
    ParticipantData, ParticipantMessageData, ParticipantMessages, ParticipantView, MessageView,
};
use crate::transaction::{
    zero_blind, BodyView, Inputs, InputsView, KernelFeatures, Transaction, TransactionView,
    TxKernel,
};
use vstd::prelude::*;

verus! {

/// The version of the slates that are written.
pub const CURRENT_SLATE_VERSION: u16 = 3;

/// The versions of the slate format that are in use.
#[derive(Clone, Copy, Debug, PartialEq, Eq, Structural)]
pub enum SlateVersion {
    V2,
    V3,
}

/// The version of a slate, and what it is compatible with.
#[derive(Clone, Copy, Debug, PartialEq, Eq, Structural)]
pub struct VersionCompatInfo {
    /// The version of the slate format.
    pub version: u16,
    /// The block header version that the slate is intended for.
    pub block_header_version: u16,
}

/// An address that can prove that it was paid, in its text form.
#[derive(Debug, PartialEq, Eq)]
pub struct ProvableAddress {
    pub text: String,
}

impl Clone for ProvableAddress {
    fn clone(&self) -> (r: ProvableAddress)
        ensures
            r == *self,
    {
        ProvableAddress { text: self.text.clone() }
    }
}

/// A payment proof: who pays whom, and the signature of the receiver.
#[derive(Debug, PartialEq, Eq)]
pub struct PaymentInfo {
    pub sender_address: ProvableAddress,
    pub receiver_address: ProvableAddress,
    pub receiver_signature: Option<String>,
}

/// `PaymentInfo`, with texts as characters.
#[verifier::ext_equal]
pub struct PaymentView {
    pub sender_address: Seq<char>,
    pub receiver_address: Seq<char>,
    pub receiver_signature: Option<Seq<char>>,
}

impl View for PaymentInfo {
    type V = PaymentView;

    open spec fn view(&self) -> PaymentView {
        PaymentView {
            sender_address: self.sender_address.text@,
            receiver_address: self.receiver_address.text@,
            receiver_signature: crate::bytes::text_view(self.receiver_signature),
        }
    }
}

impl Clone for PaymentInfo {
    fn clone(&self) -> (r: PaymentInfo)
        ensures
            r == *self,
    {
        PaymentInfo {
            sender_address: self.sender_address.clone(),
            receiver_address: self.receiver_address.clone(),
            receiver_signature: copy_optional_text(&self.receiver_signature),
        }
    }
}

/// The view of an optional payment proof.
pub open spec fn payment_view(payment: Option<PaymentInfo>) -> Option<PaymentView> {
    match payment {
        Some(p) => Some(p@),
        None => None,
    }
}

/// A slate is passed around to all parties, who build up in it the public data that
/// a finished transaction needs. By what means it is passed around is up to them.
#[derive(Debug)]
pub struct Slate {
    /// Whether the slate is one for a slatepack.
    pub compact_slate: bool,
    /// The version of the slate.
    pub version_info: VersionCompatInfo,
    /// The number of participants that are intended to take part.
    pub num_participants: usize,
    /// The id of the transaction, which the sender chooses.
    pub id: Uuid,
    /// The transaction: inputs, outputs, kernels and kernel offset.
    pub tx: Transaction,
    /// The amount, without the fee.
    pub amount: u64,
    /// The fee.
    pub fee: u64,
    /// The block height of the transaction.
    pub height: u64,
    /// The height that the kernel is locked to, or zero.
    pub lock_height: u64,
    /// The block height from which wallets should refuse the transaction and unlock the
    /// outputs that go with it.
    pub ttl_cutoff_height: Option<u64>,
    /// The public data of the participants who have joined. For now 0 is the sender and 1
    /// the receiver.
    pub participant_data: Vec<ParticipantData>,
    /// The payment proof, where one is asked for.
    pub payment_proof: Option<PaymentInfo>,
    /// The offset of a compact slate, to which each participant adds.
    pub offset: BlindingFactor,
}

/// `Slate` over sequences.
#[verifier::ext_equal]
pub struct SlateView {
    pub compact_slate: bool,
    pub version_info: VersionCompatInfo,
    pub num_participants: usize,
    pub id: Uuid,
    pub tx: TransactionView,
    pub amount: u64,
    pub fee: u64,
    pub height: u64,
    pub lock_height: u64,
    pub ttl_cutoff_height: Option<u64>,
    pub participant_data: Seq<ParticipantView>,
    pub payment_proof: Option<PaymentView>,
    pub offset: BlindingFactor,
}

impl View for Slate {
    type V = SlateView;

    open spec fn view(&self) -> SlateView {
        SlateView {
            compact_slate: self.compact_slate,
            version_info: self.version_info,
            num_participants: self.num_participants,
            id: self.id,
            tx: self.tx@,
            amount: self.amount,
            fee: self.fee,
            height: self.height,
            lock_height: self.lock_height,
            ttl_cutoff_height: self.ttl_cutoff_height,
            participant_data: crate::participant::participant_views(self.participant_data@),
            payment_proof: payment_view(self.payment_proof),
            offset: self.offset,
        }
    }
}

impl Clone for Slate {
    fn clone(&self) -> (r: Slate)
        ensures
            r@ == self@,
    {
        let participant_data: Vec<ParticipantData> = self.participant_data.clone();
        assert(participant_data@ =~= self.participant_data@);
        Slate {
            compact_slate: self.compact_slate,
            version_info: self.version_info,
            num_participants: self.num_participants,
            id: self.id,
            tx: self.tx.clone(),
            amount: self.amount,
            fee: self.fee,
            height: self.height,
            lock_height: self.lock_height,
            ttl_cutoff_height: self.ttl_cutoff_height,
            participant_data,
            payment_proof: match &self.payment_proof {
                Some(p) => Some(p.clone()),
                None => None,
            },
            offset: self.offset,
        }
    }
}

impl SlateView {
    /// A new slate: nothing is in it but its id, the number of participants and
    /// the way in which it is built.
    pub open spec fn blank(num_participants: usize, compact_slate: bool, id: Uuid) -> SlateView {
        SlateView {
            compact_slate,
            version_info: VersionCompatInfo {
                version: CURRENT_SLATE_VERSION,
                block_header_version: 1,
            },
            num_participants: if num_participants == 0 {
                2
            } else {
                num_participants
            },
            id,
            tx: TransactionView {
                offset: crate::transaction::spec_zero_blind(),
                body: BodyView {
                    inputs: InputsView::FeaturesAndCommit(seq![]),
                    outputs: seq![],
                    kernels: seq![],
                },
            },
            amount: 0,
            fee: 0,
            height: 0,
            lock_height: 0,
            ttl_cutoff_height: None,
            participant_data: seq![],
            payment_proof: None,
            offset: crate::transaction::spec_zero_blind(),
        }
    }

    /// The features of the kernel of this slate: locked to a height where the
    /// slate has a lock height.
    pub open spec fn kernel_features(self) -> KernelFeatures {
        if self.lock_height == 0 {
            KernelFeatures::Plain { fee: self.fee }
        } else {
            KernelFeatures::HeightLocked { fee: self.fee, lock_height: self.lock_height }
        }
    }

    /// The slate with an unsigned kernel of its features as the one kernel of its
    /// transaction.
    pub open spec fn with_fresh_kernel(self) -> SlateView {
        SlateView {
            tx: self.tx.with_kernel(TxKernel::spec_with_features(self.kernel_features())),
            ..self
        }
    }

    /// What needs the newer format: a payment proof, a cutoff height or a compact
    /// slate.
    pub open spec fn needs_v3(self) -> bool {
        self.payment_proof is Some || self.ttl_cutoff_height is Some || self.compact_slate
    }

    /// The messages of the participants, in order.
    pub open spec fn messages(self) -> Seq<MessageView> {
        self.participant_data.map_values(|p: ParticipantView| p.message_data())
    }
}

impl Slate {
    /// A new slate with a fresh id. No number of participants stands for two. A compact
    /// slate is one for a slatepack: it is built in another way.
    pub fn blank(num_participants: usize, compact_slate: bool) -> (r: Slate)
        ensures
            r@ == SlateView::blank(num_participants, compact_slate, r.id),
            r.id@[6] / 16 == 4,
            r.id@[8] / 64 == 2,
    {
        let np: usize = match num_participants {
            0 => 2,
            n => n,
        };
        let mut slate = Slate {
            compact_slate,
            num_participants: np,  // assume 2 if not present
            id: random_uuid(),
            tx: Transaction::empty(),
            amount: 0,
            fee: 0,
            height: 0,
            lock_height: 0,
            ttl_cutoff_height: None,
            participant_data: Vec::new(),
            version_info: VersionCompatInfo {
                version: CURRENT_SLATE_VERSION,
                block_header_version: 1,
            },
            payment_proof: None,
            offset: zero_blind(),
        };
        // inputs are kept with their features
        slate.tx.body.inputs = Inputs::FeaturesAndCommit(Vec::new());
        assert(slate@ =~= SlateView::blank(num_participants, compact_slate, slate.id));
        slate
    }

    /// The lowest version that the slate can be written in, so that wallets that have not
    /// been upgraded can read it.
    pub fn lowest_version(&self) -> (r: SlateVersion)
        ensures
            r == (if self@.needs_v3() {
                SlateVersion::V3
            } else {
                SlateVersion::V2
            }),
    {
        if self.payment_proof.is_some() || self.ttl_cutoff_height.is_some() || self.compact_slate {
            SlateVersion::V3
        } else {
            SlateVersion::V2
        }
    }

    /// The features of the kernel: those of a plain one, or of one that is locked to a
    /// height where the slate has a lock height.
    pub fn kernel_features(&self) -> (r: KernelFeatures)
        ensures
            r == self@.kernel_features(),
    {
        match self.lock_height {
            0 => KernelFeatures::Plain { fee: self.fee },
            _ => KernelFeatures::HeightLocked { fee: self.fee, lock_height: self.lock_height },
        }
    }

    /// Replaces the kernels of the transaction by an unsigned one with the features of the
    /// slate. The fee may change while a transaction is built, and the kernel with it.
    pub fn update_kernel(&mut self)
        ensures
            final(self)@ == old(self)@.with_fresh_kernel(),
    {
        self.tx = self.tx.clone().replace_kernel(TxKernel::with_features(self.kernel_features()));
    }

    /// Adds inputs and outputs to the transaction, after its kernel is updated: `build`
    /// takes the transaction, adds the elements and returns it with the blinding factor of
    /// what was added, which is returned. `None` stands for no elements.
    pub fn add_transaction_elements<F>(&mut self, build: Option<F>) -> (r: Result<
        BlindingFactor,
        crate::error::SlateError,
    >) where
        F: FnOnce(Transaction) -> Result<(Transaction, BlindingFactor), grin_core::libtx::Error>,

        requires
            build matches Some(f) ==> forall|tx: Transaction|
                tx@ == old(self)@.with_fresh_kernel().tx ==> #[trigger] call_requires(f, (tx,)),
        ensures
            build is None ==> r == Ok::<BlindingFactor, crate::error::SlateError>(
                crate::transaction::spec_zero_blind(),
            ) && final(self)@ == old(self)@.with_fresh_kernel(),
            build matches Some(f) ==> exists|
                tx: Transaction,
                built: Result<(Transaction, BlindingFactor), grin_core::libtx::Error>,
            | #[trigger]
                call_ensures(f, (tx,), built) && tx@ == old(self)@.with_fresh_kernel().tx && (
                match built {
                    Ok((new_tx, blind)) => r == Ok::<BlindingFactor, crate::error::SlateError>(
                        blind,
                    ) && final(self)@ == (SlateView { tx: new_tx@, ..old(self)@ }),
                    Err(e) => r == Err::<BlindingFactor, crate::error::SlateError>(
                        crate::error::SlateError::LibTx(e),
                    ) && final(self)@ == old(self)@.with_fresh_kernel(),
                }),
    {
        self.update_kernel();
        match build {
            None => Ok(zero_blind()),
            Some(f) => {
                let tx: Transaction = self.tx.clone();
                match f(tx) {
                    Ok((tx, blind)) => {
                        self.tx = tx;
                        Ok(blind)
                    },
                    Err(e) => Err(crate::error::SlateError::LibTx(e)),
                }
            },
        }
    }

    /// The messages of all participants.
    pub fn participant_messages(&self) -> (r: ParticipantMessages)
        ensures
            r@ == self@.messages(),
    {
        let mut ret = ParticipantMessages { messages: Vec::new() };
        let mut i: usize = 0;
        while i < self.participant_data.len()
            invariant
                i <= self.participant_data@.len(),
                ret.messages@.len() == i,
                forall|j: int|
                    0 <= j < i ==> (#[trigger] ret.messages@[j])@
                        == self.participant_data@[j]@.message_data(),
            decreases self.participant_data@.len() - i,
        {
            ret.messages.push(
                ParticipantMessageData::from_participant_data(&self.participant_data[i]),
            );
            i = i + 1;
        }
        assert(ret@ =~= self@.messages());
        ret
    }
}

} // verus!
