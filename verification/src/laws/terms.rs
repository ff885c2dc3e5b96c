//! New slates, and what a slate that comes back may have changed.
use crate::error::SlateError;
use crate::participant::ParticipantData;
use crate::slate::{Slate, SlateVersion};
use crate::transaction::{Inputs, Output, TransactionBody};
use vstd::prelude::*;

verus! {

// New slates

/// A new slate is empty: it has an id, a number of participants and the way in which it is
/// built, and nothing else. It is of the third version, for block headers of the first.
pub proof fn law_blank_is_empty(num_participants: usize, compact_slate: bool, r: Slate)
    requires
        call_ensures(Slate::blank, (num_participants, compact_slate), r),
    ensures
        r.compact_slate == compact_slate,
        r.num_participants == (if num_participants == 0 {
            2usize
        } else {
            num_participants
        }),
        r.version_info.version == 3,
        r.version_info.block_header_version == 1,
        r.amount == 0 && r.fee == 0 && r.height == 0 && r.lock_height == 0,
        r.ttl_cutoff_height is None,
        r.payment_proof is None,
        r.participant_data@.len() == 0,
        r.tx.body.inputs is FeaturesAndCommit,
        r.tx.body.inputs->FeaturesAndCommit_0@.len() == 0,
        r.tx.body.outputs@.len() == 0,
        r.tx.body.kernels@.len() == 0,
        forall|i: int| 0 <= i < 32 ==> r.tx.offset@[i] == 0 && r.offset@[i] == 0,
        // a random id is one of the fourth version, of the usual variant
        r.id@[6] / 16 == 4 && r.id@[8] / 64 == 2,
{
    assert(r@.participant_data.len() == r.participant_data@.len());
}

/// A slate can be written in the second version exactly if it has no payment proof and no
/// cutoff height and is not compact.
pub proof fn law_lowest_version(slate: Slate, r: SlateVersion)
    requires
        call_ensures(Slate::lowest_version, (&slate,), r),
    ensures
        r == SlateVersion::V2 <==> slate.payment_proof is None && slate.ttl_cutoff_height is None
            && !slate.compact_slate,
{
}

// Comparing slates

/// The participant is among `all`, with the same data.
pub open spec fn is_among(participant: ParticipantData, all: Seq<ParticipantData>) -> bool {
    exists|j: int|
        0 <= j < all.len() && #[trigger] crate::laws::same::same_participant(participant, all[j])
}

/// All of `some` are among `all`, with the same data.
pub open spec fn are_among(some: Seq<ParticipantData>, all: Seq<ParticipantData>) -> bool {
    forall|i: int| 0 <= i < some.len() ==> is_among(#[trigger] some[i], all)
}

/// An output with the same features and the same commitment is among `all`.
pub open spec fn is_created(output: Output, all: Seq<Output>) -> bool {
    exists|j: int|
        0 <= j < all.len() && (#[trigger] all[j]).identifier.features == output.identifier.features
            && all[j].identifier.commit == output.identifier.commit
}

/// Every output of `some` is among `all`.
pub open spec fn are_created(some: Seq<Output>, all: Seq<Output>) -> bool {
    forall|i: int| 0 <= i < some.len() ==> is_created(#[trigger] some[i], all)
}

/// The comparison failed with this text.
pub open spec fn refused(r: Result<(), SlateError>, text: Seq<char>) -> bool {
    r matches Err(SlateError::SlateValidation(t)) && t@ == text
}

proof fn lemma_are_among(a: Slate, b: Slate)
    ensures
        a@.participants_in(b@) <==> are_among(a.participant_data@, b.participant_data@),
{
    let some = a.participant_data@;
    let all = b.participant_data@;
    if a@.participants_in(b@) {
        assert forall|i: int| 0 <= i < some.len() implies is_among(#[trigger] some[i], all) by {
            assert(b@.participant_data.contains(a@.participant_data[i]));
            let j = choose|j: int|
                0 <= j < all.len() && b@.participant_data[j] == a@.participant_data[i];
            assert(crate::laws::same::same_participant(some[i], all[j]));
        }
    }
    if are_among(some, all) {
        assert forall|i: int| 0 <= i < a@.participant_data.len() implies b@.participant_data.contains(
            #[trigger] a@.participant_data[i],
        ) by {
            assert(is_among(some[i], all));
            let j = choose|j: int|
                0 <= j < all.len() && #[trigger] crate::laws::same::same_participant(
                    some[i],
                    all[j],
                );
            assert(b@.participant_data[j] == a@.participant_data[i]);
        }
    }
}

proof fn lemma_are_created(a: Slate, b: Slate)
    ensures
        a@.outputs_in(b@) <==> are_created(a.tx.body.outputs@, b.tx.body.outputs@),
{
    let some = a.tx.body.outputs@;
    let all = b.tx.body.outputs@;
    if a@.outputs_in(b@) {
        assert forall|i: int| 0 <= i < some.len() implies is_created(#[trigger] some[i], all) by {
            assert(b@.tx.body.has_output(a@.tx.body.outputs[i]));
            let j = choose|j: int|
                0 <= j < all.len() && (#[trigger] b@.tx.body.outputs[j]).identifier
                    == some[i].identifier;
            assert(all[j].identifier.features == some[i].identifier.features);
        }
    }
    if are_created(some, all) {
        assert forall|i: int| 0 <= i < a@.tx.body.outputs.len() implies b@.tx.body.has_output(
            #[trigger] a@.tx.body.outputs[i],
        ) by {
            assert(is_created(some[i], all));
            let j = choose|j: int|
                0 <= j < all.len() && (#[trigger] all[j]).identifier.features
                    == some[i].identifier.features && all[j].identifier.commit
                    == some[i].identifier.commit;
            assert(b@.tx.body.outputs[j].identifier == some[i].identifier);
        }
    }
}

/// A reply to a slate that was sent to pay is accepted exactly if it has its id and its
/// heights and, unless the slate is compact, its amount, fee, inputs and kernels, and every
/// participant and output of it.
pub proof fn law_send_accepts_exactly(sent: Slate, reply: Slate, r: Result<(), SlateError>)
    requires
        call_ensures(Slate::compare_slates_send, (&sent, &reply), r),
    ensures
        r is Ok <==> {
            &&& reply.id == sent.id
            &&& reply.lock_height == sent.lock_height
            &&& reply.height == sent.height
            &&& reply.ttl_cutoff_height == sent.ttl_cutoff_height
            &&& sent.compact_slate || {
                &&& reply.amount == sent.amount
                &&& reply.fee == sent.fee
                &&& crate::laws::same::same_inputs(reply.tx.body.inputs, sent.tx.body.inputs)
                &&& reply.tx.body.kernels@ == sent.tx.body.kernels@
                &&& are_among(sent.participant_data@, reply.participant_data@)
                &&& are_created(sent.tx.body.outputs@, reply.tx.body.outputs@)
            }
        },
{
    lemma_are_among(sent, reply);
    lemma_are_created(sent, reply);
}

/// A reply that is refused is refused for the first thing that has changed: the id, then,
/// unless the slate is compact, the amount, the fee, the inputs, a participant, an output and
/// the kernels, then the lock height, the height and the cutoff height.
pub proof fn law_send_refuses_for(sent: Slate, reply: Slate, r: Result<(), SlateError>)
    requires
        call_ensures(Slate::compare_slates_send, (&sent, &reply), r),
    ensures
        reply.id != sent.id ==> refused(r, "uuid mismatch"@),
        reply.id == sent.id && !sent.compact_slate ==> {
            let inputs = crate::laws::same::same_inputs(
                reply.tx.body.inputs,
                sent.tx.body.inputs,
            );
            let participants = are_among(sent.participant_data@, reply.participant_data@);
            let outputs = are_created(sent.tx.body.outputs@, reply.tx.body.outputs@);
            &&& reply.amount != sent.amount ==> refused(r, "amount mismatch"@)
            &&& reply.amount == sent.amount && reply.fee != sent.fee ==> refused(r, "fee mismatch"@)
            &&& reply.amount == sent.amount && reply.fee == sent.fee ==> {
                &&& !inputs ==> refused(r, "inputs mismatch"@)
                &&& inputs && !participants ==> refused(r, "participant data mismatch"@)
                &&& inputs && participants && !outputs ==> refused(r, "outputs mismatch"@)
                &&& inputs && participants && outputs && reply.tx.body.kernels@
                    != sent.tx.body.kernels@ ==> refused(r, "kernels mismatch"@)
            }
        },
        reply.id == sent.id && (sent.compact_slate || reply.amount == sent.amount && reply.fee
            == sent.fee && crate::laws::same::same_inputs(
            reply.tx.body.inputs,
            sent.tx.body.inputs,
        ) && are_among(sent.participant_data@, reply.participant_data@) && are_created(
            sent.tx.body.outputs@,
            reply.tx.body.outputs@,
        ) && reply.tx.body.kernels@ == sent.tx.body.kernels@) ==> {
            &&& reply.lock_height != sent.lock_height ==> refused(r, "lock_height mismatch"@)
            &&& reply.lock_height == sent.lock_height && reply.height != sent.height ==> refused(
                r,
                "heigh mismatch"@,
            )
            &&& reply.lock_height == sent.lock_height && reply.height == sent.height
                && reply.ttl_cutoff_height != sent.ttl_cutoff_height ==> refused(
                r,
                "ttl_cutoff mismatch"@,
            )
        },
{
    lemma_are_among(sent, reply);
    lemma_are_created(sent, reply);
}

/// A reply to an invoice is accepted exactly if it has the id, the amount, the height and the
/// cutoff height of the invoice, and every output and participant of it.
pub proof fn law_invoice_accepts_exactly(invoice: Slate, reply: Slate, r: Result<(), SlateError>)
    requires
        call_ensures(Slate::compare_slates_invoice, (&invoice, &reply), r),
    ensures
        r is Ok <==> {
            &&& reply.id == invoice.id
            &&& reply.amount == invoice.amount
            &&& reply.height == invoice.height
            &&& reply.ttl_cutoff_height == invoice.ttl_cutoff_height
            &&& are_among(invoice.participant_data@, reply.participant_data@)
            &&& are_created(invoice.tx.body.outputs@, reply.tx.body.outputs@)
        },
{
    lemma_are_among(invoice, reply);
    lemma_are_created(invoice, reply);
}

/// A reply to an invoice that is refused is refused for the first thing that has changed: the
/// id, the amount, the height, the cutoff height, an output, then a participant.
pub proof fn law_invoice_refuses_for(invoice: Slate, reply: Slate, r: Result<(), SlateError>)
    requires
        call_ensures(Slate::compare_slates_invoice, (&invoice, &reply), r),
    ensures
        reply.id != invoice.id ==> refused(r, "uuid mismatch"@),
        reply.id == invoice.id && reply.amount != invoice.amount ==> refused(r, "amount mismatch"@),
        reply.id == invoice.id && reply.amount == invoice.amount ==> {
            let outputs = are_created(invoice.tx.body.outputs@, reply.tx.body.outputs@);
            let participants = are_among(invoice.participant_data@, reply.participant_data@);
            let height = reply.height == invoice.height;
            let cutoff = reply.ttl_cutoff_height == invoice.ttl_cutoff_height;
            &&& !height ==> refused(r, "heigh mismatch"@)
            &&& height && !cutoff ==> refused(r, "ttl_cutoff mismatch"@)
            &&& height && cutoff && !outputs ==> refused(r, "outputs mismatch"@)
            &&& height && cutoff && outputs && !participants ==> refused(
                r,
                "participant data mismatch"@,
            )
        },
{
    lemma_are_among(invoice, reply);
    lemma_are_created(invoice, reply);
}

/// An invoice that has no inputs can be compared with any reply.
pub proof fn law_invoice_can_be_compared(invoice: Slate, reply: Slate)
    requires
        match invoice.tx.body.inputs {
            Inputs::CommitOnly(commits) => commits@.len() == 0,
            Inputs::FeaturesAndCommit(inputs) => inputs@.len() == 0,
        },
    ensures
        call_requires(Slate::compare_slates_invoice, (&invoice, &reply)),
{
}

/// Every slate can be compared with every reply.
pub proof fn law_send_can_be_compared(sent: Slate, reply: Slate)
    ensures
        call_requires(Slate::compare_slates_send, (&sent, &reply)),
{
}

/// An output is among those of a body exactly if one of them has its features and its
/// commitment; inputs and kernels are the same exactly if they are equal, in order.
pub proof fn law_same_elements(
    a: TransactionBody,
    b: TransactionBody,
    output: Output,
    r_output: bool,
    r_inputs: bool,
    r_kernels: bool,
)
    requires
        call_ensures(TransactionBody::has_output, (&a, &output), r_output),
        call_ensures(Inputs::same, (&a.inputs, &b.inputs), r_inputs),
        call_ensures(TransactionBody::same_kernels, (&a, &b), r_kernels),
    ensures
        r_output == is_created(output, a.outputs@),
        r_inputs == crate::laws::same::same_inputs(a.inputs, b.inputs),
        r_kernels == (a.kernels@ == b.kernels@),
{
    if r_output {
        let j = choose|j: int|
            0 <= j < a@.outputs.len() && (#[trigger] a@.outputs[j]).identifier == output.identifier;
        assert(a.outputs@[j].identifier.features == output.identifier.features);
    }
    if is_created(output, a.outputs@) {
        let j = choose|j: int|
            0 <= j < a.outputs@.len() && (#[trigger] a.outputs@[j]).identifier.features
                == output.identifier.features && a.outputs@[j].identifier.commit
                == output.identifier.commit;
        assert(a@.outputs[j].identifier == output.identifier);
    }
}

// Participants

/// Two participants are equal exactly if they have the same data.
pub proof fn law_same_participant(a: ParticipantData, b: ParticipantData, r: bool)
    requires
        call_ensures(ParticipantData::same, (&a, &b), r),
    ensures
        r == crate::laws::same::same_participant(a, b),
{
}

/// A participant is among others exactly if one of them has the same data.
pub proof fn law_has_participant(all: Vec<ParticipantData>, p: ParticipantData, r: bool)
    requires
        call_ensures(crate::participant::has_participant, (&all, &p), r),
    ensures
        r == is_among(p, all@),
{
    let views = crate::participant::participant_views(all@);
    assert(views.len() == all@.len());
    if views.contains(p@) {
        let j = choose|j: int| 0 <= j < views.len() && views[j] == p@;
        assert(crate::laws::same::same_participant(p, all@[j]));
    }
    if is_among(p, all@) {
        let j = choose|j: int|
            0 <= j < all@.len() && #[trigger] crate::laws::same::same_participant(p, all@[j]);
        assert(views[j] == p@);
    }
}

/// The participant that is found by an id has it, has the data of one in the slate, and is
/// the first; none is found exactly if none has the id.
pub proof fn law_participant_with_id(slate: Slate, id: usize, r: Option<ParticipantData>)
    requires
        call_ensures(Slate::participant_with_id, (&slate, id), r),
    ensures
        match r {
            None => forall|i: int|
                0 <= i < slate.participant_data@.len() ==> (
                #[trigger] slate.participant_data@[i]).id as usize != id,
            Some(p) => exists|i: int|
                0 <= i < slate.participant_data@.len() && p.id as usize == id
                    && crate::laws::same::same_participant(
                    p,
                    #[trigger] slate.participant_data@[i],
                ) && forall|j: int|
                    0 <= j < i ==> (#[trigger] slate.participant_data@[j]).id as usize != id,
        },
{
    let wanted = |p: crate::participant::ParticipantView| p.id as usize == id;
    let views = slate@.participant_data;
    let all = slate.participant_data@;
    match crate::rounds::first_place(views, wanted) {
        Some(i) => {
            assert(crate::rounds::is_first(views, wanted, i));
            assert forall|j: int| 0 <= j < i implies (#[trigger] all[j]).id as usize != id by {
                assert(!wanted(views[j]));
            }
            assert(crate::laws::same::same_participant(r->Some_0, all[i]));
        },
        None => {
            assert forall|j: int| 0 <= j < all.len() implies (#[trigger] all[j]).id as usize
                != id by {
                crate::laws::lemma_no_first(views, wanted, j);
                assert(views[j] == all[j]@);
            }
        },
    }
}

/// A participant is complete exactly with a partial signature.
pub proof fn law_is_complete(p: ParticipantData, r: bool)
    requires
        call_ensures(ParticipantData::is_complete, (&p,), r),
    ensures
        r <==> p.part_sig is Some,
{
}

} // verus!
