//! When slates, and the parts of slates, hold the same data.
use crate::participant::ParticipantData;
use crate::slate::{PaymentInfo, Slate};
use crate::transaction::{Inputs, Transaction};
use vstd::prelude::*;

verus! {

/// Both texts are there and equal, or neither is.
pub open spec fn same_text(a: Option<String>, b: Option<String>) -> bool {
    match (a, b) {
        (Some(x), Some(y)) => x@ == y@,
        (None, None) => true,
        _ => false,
    }
}

/// Two participants have the same data.
pub open spec fn same_participant(a: ParticipantData, b: ParticipantData) -> bool {
    &&& a.id == b.id
    &&& a.public_blind_excess == b.public_blind_excess
    &&& a.public_nonce == b.public_nonce
    &&& a.part_sig == b.part_sig
    &&& same_text(a.message, b.message)
    &&& a.message_sig == b.message_sig
}

/// The same participants in the same order.
pub open spec fn same_participants(a: Seq<ParticipantData>, b: Seq<ParticipantData>) -> bool {
    &&& a.len() == b.len()
    &&& forall|i: int| 0 <= i < a.len() ==> same_participant(#[trigger] a[i], #[trigger] b[i])
}

/// The same payment proof.
pub open spec fn same_payment(a: Option<PaymentInfo>, b: Option<PaymentInfo>) -> bool {
    match (a, b) {
        (Some(x), Some(y)) => {
            &&& x.sender_address.text@ == y.sender_address.text@
            &&& x.receiver_address.text@ == y.receiver_address.text@
            &&& same_text(x.receiver_signature, y.receiver_signature)
        },
        (None, None) => true,
        _ => false,
    }
}

/// The same inputs in the same order and in the same form.
pub open spec fn same_inputs(a: Inputs, b: Inputs) -> bool {
    match (a, b) {
        (Inputs::CommitOnly(x), Inputs::CommitOnly(y)) => x@ == y@,
        (Inputs::FeaturesAndCommit(x), Inputs::FeaturesAndCommit(y)) => x@ == y@,
        _ => false,
    }
}

/// The same offset, inputs and outputs; nothing is said of the kernels.
pub open spec fn same_but_kernels(a: Transaction, b: Transaction) -> bool {
    &&& a.offset == b.offset
    &&& same_inputs(a.body.inputs, b.body.inputs)
    &&& a.body.outputs@ == b.body.outputs@
}

/// The same transaction.
pub open spec fn same_transaction(a: Transaction, b: Transaction) -> bool {
    same_but_kernels(a, b) && a.body.kernels@ == b.body.kernels@
}

/// The same in everything but the transaction, the participants and the offset of the slate.
pub open spec fn same_head(a: Slate, b: Slate) -> bool {
    &&& a.compact_slate == b.compact_slate
    &&& a.version_info.version == b.version_info.version
    &&& a.version_info.block_header_version == b.version_info.block_header_version
    &&& a.num_participants == b.num_participants
    &&& a.id == b.id
    &&& a.amount == b.amount
    &&& a.fee == b.fee
    &&& a.height == b.height
    &&& a.lock_height == b.lock_height
    &&& a.ttl_cutoff_height == b.ttl_cutoff_height
    &&& same_payment(a.payment_proof, b.payment_proof)
}

/// The same slate.
pub open spec fn same_slate(a: Slate, b: Slate) -> bool {
    &&& same_head(a, b)
    &&& same_transaction(a.tx, b.tx)
    &&& same_participants(a.participant_data@, b.participant_data@)
    &&& a.offset == b.offset
}

/// Participants whose views are the same have the same data.
pub proof fn lemma_same_participants(a: Seq<ParticipantData>, b: Seq<ParticipantData>)
    requires
        crate::participant::participant_views(a) == crate::participant::participant_views(b),
    ensures
        same_participants(a, b),
{
    let left = crate::participant::participant_views(a);
    let right = crate::participant::participant_views(b);
    assert(left.len() == a.len() && right.len() == b.len());
    assert forall|i: int| 0 <= i < a.len() implies same_participant(
        #[trigger] a[i],
        #[trigger] b[i],
    ) by {
        assert(left[i] == a[i]@ && right[i] == b[i]@);
    }
}

/// Copying a slate gives the same slate.
pub proof fn law_clone(slate: Slate, r: Slate)
    requires
        call_ensures(Slate::clone, (&slate,), r),
    ensures
        same_slate(slate, r),
{
    lemma_same_participants(slate.participant_data@, r.participant_data@);
}

/// Copying a transaction gives the same transaction.
pub proof fn law_clone_transaction(tx: Transaction, r: Transaction)
    requires
        call_ensures(Transaction::clone, (&tx,), r),
    ensures
        same_transaction(tx, r),
{
}

} // verus!
