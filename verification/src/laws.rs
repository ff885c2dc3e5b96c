//! What holds of slates across operations.
//!
//! The laws in this file relate the views of slates. Those in the modules under it speak of
//! the operations themselves: of the values that go in and of what comes out.
pub mod closing;
pub mod format;
pub mod joining;
pub mod kernel;
pub mod offsets;
pub mod same;
pub mod signing;
pub mod terms;
pub mod texts;

use crate::crypto::{BlindingFactor, Commitment, Signature};
use crate::documents::{ParsedSlate, SlateVersionProbe};
use crate::error::{SlateError, SlateErrorView};
use crate::participant::{ParticipantData, ParticipantView};
use crate::slate::{PaymentInfo, SlateView, VersionCompatInfo};
use crate::transaction::{
    BodyView, Input, Output, Transaction, TransactionView, TxKernel,
};
use crate::versions::{
    InputV3, OutputV3, ParticipantDataV3, PaymentInfoV3, SlateV3View, TxKernelV3,
    VersionCompatInfoV3,
};
use vstd::prelude::*;
use vstd::std_specs::convert::FromSpec;

verus! {

// Comparing slates

/// A slate that comes back as it was sent is accepted.
pub proof fn law_send_accepts_itself(slate: SlateView)
    ensures
        slate.send_mismatch(slate) is None,
{
    law_send_accepts_additions(slate, seq![], seq![], slate.tx.offset);
    assert(slate.participant_data + seq![] =~= slate.participant_data);
    assert(slate.tx.body.outputs + seq![] =~= slate.tx.body.outputs);
    assert(with_additions(slate, seq![], seq![], slate.tx.offset) == slate);
}

/// A slate to which participants and outputs were added, and whose transaction got
/// an offset.
pub open spec fn with_additions(
    slate: SlateView,
    participants: Seq<ParticipantView>,
    outputs: Seq<Output>,
    offset: BlindingFactor,
) -> SlateView {
    SlateView {
        participant_data: slate.participant_data + participants,
        tx: TransactionView {
            offset,
            body: BodyView { outputs: slate.tx.body.outputs + outputs, ..slate.tx.body },
        },
        ..slate
    }
}

/// A slate may come back with further participants and outputs, and with an offset.
pub proof fn law_send_accepts_additions(
    slate: SlateView,
    participants: Seq<ParticipantView>,
    outputs: Seq<Output>,
    offset: BlindingFactor,
)
    ensures
        slate.send_mismatch(with_additions(slate, participants, outputs, offset)) is None,
{
    let reply = with_additions(slate, participants, outputs, offset);
    lemma_additions_include(slate, reply, participants, outputs);
}

/// An invoice may come back with further participants and outputs, and with an
/// offset.
pub proof fn law_invoice_accepts_additions(
    slate: SlateView,
    participants: Seq<ParticipantView>,
    outputs: Seq<Output>,
    offset: BlindingFactor,
)
    ensures
        slate.invoice_mismatch(with_additions(slate, participants, outputs, offset)) is None,
{
    let reply = with_additions(slate, participants, outputs, offset);
    lemma_additions_include(slate, reply, participants, outputs);
}

proof fn lemma_additions_include(
    slate: SlateView,
    reply: SlateView,
    participants: Seq<ParticipantView>,
    outputs: Seq<Output>,
)
    requires
        reply.participant_data == slate.participant_data + participants,
        reply.tx.body.outputs == slate.tx.body.outputs + outputs,
    ensures
        slate.participants_in(reply),
        slate.outputs_in(reply),
{
    assert forall|i: int| 0 <= i < slate.participant_data.len() implies reply.participant_data.contains(
        #[trigger] slate.participant_data[i],
    ) by {
        assert(reply.participant_data[i] == slate.participant_data[i]);
    }
    assert forall|i: int| 0 <= i < slate.tx.body.outputs.len() implies reply.tx.body.has_output(
        #[trigger] slate.tx.body.outputs[i],
    ) by {
        assert(reply.tx.body.outputs[i] == slate.tx.body.outputs[i]);
    }
}

/// A reply that is accepted has the id and the heights that were sent. Unless the
/// slate is compact, it also has the amount, the fee, the inputs and the kernels, and
/// every participant and output that was sent.
pub proof fn law_send_keeps_what_was_sent(slate: SlateView, reply: SlateView)
    requires
        slate.send_mismatch(reply) is None,
    ensures
        reply.id == slate.id,
        reply.lock_height == slate.lock_height,
        reply.height == slate.height,
        reply.ttl_cutoff_height == slate.ttl_cutoff_height,
        !slate.compact_slate ==> {
            &&& reply.amount == slate.amount
            &&& reply.fee == slate.fee
            &&& reply.tx.body.inputs == slate.tx.body.inputs
            &&& reply.tx.body.kernels == slate.tx.body.kernels
            &&& slate.participants_in(reply)
            &&& slate.outputs_in(reply)
        },
{
}

/// Accepting a reply carries over: a reply to a reply that is accepted is a reply to
/// what was sent first.
pub proof fn law_send_is_transitive(first: SlateView, second: SlateView, third: SlateView)
    requires
        second.compact_slate ==> first.compact_slate,
        first.send_mismatch(second) is None,
        second.send_mismatch(third) is None,
    ensures
        first.send_mismatch(third) is None,
{
    if !first.compact_slate {
        assert forall|i: int| 0 <= i < first.participant_data.len() implies third.participant_data.contains(
            #[trigger] first.participant_data[i],
        ) by {
            assert(second.participant_data.contains(first.participant_data[i]));
            let j = choose|j: int|
                0 <= j < second.participant_data.len() && second.participant_data[j]
                    == first.participant_data[i];
            assert(third.participant_data.contains(second.participant_data[j]));
        }
        assert forall|i: int| 0 <= i < first.tx.body.outputs.len() implies third.tx.body.has_output(
            #[trigger] first.tx.body.outputs[i],
        ) by {
            assert(second.tx.body.has_output(first.tx.body.outputs[i]));
            let j = choose|j: int|
                0 <= j < second.tx.body.outputs.len() && (
                #[trigger] second.tx.body.outputs[j]).identifier
                    == first.tx.body.outputs[i].identifier;
            assert(third.tx.body.has_output(second.tx.body.outputs[j]));
            let k = choose|k: int|
                0 <= k < third.tx.body.outputs.len() && (
                #[trigger] third.tx.body.outputs[k]).identifier
                    == second.tx.body.outputs[j].identifier;
            assert(third.tx.body.outputs[k].identifier == first.tx.body.outputs[i].identifier);
        }
    }
}

/// A reply that is accepted stays accepted with further participants and outputs, and with
/// another offset.
pub proof fn law_accepted_reply_may_grow(
    slate: SlateView,
    reply: SlateView,
    participants: Seq<ParticipantView>,
    outputs: Seq<Output>,
    offset: BlindingFactor,
)
    ensures
        slate.send_mismatch(reply) is None ==> slate.send_mismatch(
            with_additions(reply, participants, outputs, offset),
        ) is None,
        slate.invoice_mismatch(reply) is None ==> slate.invoice_mismatch(
            with_additions(reply, participants, outputs, offset),
        ) is None,
{
    let grown = with_additions(reply, participants, outputs, offset);
    lemma_additions_include(reply, grown, participants, outputs);
    if slate.participants_in(reply) {
        assert forall|i: int| 0 <= i < slate.participant_data.len() implies grown.participant_data.contains(
            #[trigger] slate.participant_data[i],
        ) by {
            assert(reply.participant_data.contains(slate.participant_data[i]));
            let j = choose|j: int|
                0 <= j < reply.participant_data.len() && reply.participant_data[j]
                    == slate.participant_data[i];
            assert(grown.participant_data.contains(reply.participant_data[j]));
        }
    }
    if slate.outputs_in(reply) {
        assert forall|i: int| 0 <= i < slate.tx.body.outputs.len() implies grown.tx.body.has_output(
            #[trigger] slate.tx.body.outputs[i],
        ) by {
            assert(reply.tx.body.has_output(slate.tx.body.outputs[i]));
            let j = choose|j: int|
                0 <= j < reply.tx.body.outputs.len() && (
                #[trigger] reply.tx.body.outputs[j]).identifier
                    == slate.tx.body.outputs[i].identifier;
            assert(grown.tx.body.outputs[j] == reply.tx.body.outputs[j]);
        }
    }
}

/// A participant with a new id who joins a slate, and may set the offset of its
/// transaction, makes a reply that is accepted.
pub proof fn law_joining_is_accepted(
    slate: SlateView,
    new: ParticipantView,
    offset: BlindingFactor,
)
    requires
        crate::rounds::place_of(slate.participant_data, new.id) is None,
    ensures
        slate.send_mismatch(slate.with_tx_offset(offset).with_participant(new)) is None,
        slate.invoice_mismatch(slate.with_tx_offset(offset).with_participant(new)) is None,
{
    law_send_accepts_additions(slate, seq![new], seq![], offset);
    law_invoice_accepts_additions(slate, seq![new], seq![], offset);
    let reply = with_additions(slate, seq![new], seq![], offset);
    assert(slate.tx.body.outputs + seq![] =~= slate.tx.body.outputs);
    assert(slate.participant_data + seq![new] =~= slate.participant_data.push(new));
    assert(reply == slate.with_tx_offset(offset).with_participant(new));
}

// The kernel

/// After its kernel is updated, a slate has exactly one kernel, which pays its fee and
/// is not signed; updating it again changes nothing.
pub proof fn law_update_kernel(slate: SlateView)
    ensures
        slate.with_fresh_kernel().tx.body.kernels == seq![
            TxKernel::spec_with_features(slate.kernel_features()),
        ],
        slate.with_fresh_kernel().tx.body.fee() == slate.fee,
        slate.with_fresh_kernel().with_fresh_kernel() == slate.with_fresh_kernel(),
{
    let kernel = TxKernel::spec_with_features(slate.kernel_features());
    let kernels = seq![kernel];
    assert(kernels.drop_last() =~= seq![]);
    reveal_with_fuel(crate::transaction::fee_sum, 2);
    assert(crate::transaction::fee_sum(kernels) == slate.fee);
}

// Participants

/// The ids of participants are all different.
pub open spec fn ids_differ(participants: Seq<ParticipantView>) -> bool {
    forall|i: int, j: int|
        0 <= i < j < participants.len() ==> (#[trigger] participants[i]).id != (
        #[trigger] participants[j]).id
}

/// Recording a participant keeps ids different, adds at most one participant, leaves
/// those with other ids as and where they were, and takes over the keys and the message.
pub proof fn law_record(participants: Seq<ParticipantView>, new: ParticipantView)
    ensures
        ids_differ(participants) ==> ids_differ(crate::rounds::recorded(participants, new)),
        participants.len() <= crate::rounds::recorded(participants, new).len()
            <= participants.len() + 1,
        forall|i: int|
            0 <= i < participants.len() && participants[i].id != new.id
                ==> #[trigger] crate::rounds::recorded(participants, new)[i] == participants[i],
        crate::rounds::place_of(crate::rounds::recorded(participants, new), new.id) is Some,
        ({
            let after = crate::rounds::recorded(participants, new);
            let p = after[crate::rounds::place_of(after, new.id)->Some_0];
            &&& p.id == new.id
            &&& p.same_keys(new)
            &&& p.message == new.message
            &&& new.part_sig is Some ==> p.part_sig == new.part_sig
            &&& new.message_sig is Some ==> p.message_sig == new.message_sig
        }),
{
    let wanted = |p: ParticipantView| p.id == new.id;
    let after = crate::rounds::recorded(participants, new);
    match crate::rounds::place_of(participants, new.id) {
        Some(i) => {
            assert(crate::rounds::is_first(participants, wanted, i));
            assert(crate::rounds::is_first(after, wanted, i)) by {
                assert forall|j: int| 0 <= j < i implies !wanted(#[trigger] after[j]) by {
                    assert(!wanted(participants[j]));
                }
            }
            crate::rounds::lemma_first_place(after, wanted, i);
        },
        None => {
            lemma_absent(participants, new.id);
            let n = participants.len() as int;
            assert(crate::rounds::is_first(after, wanted, n)) by {
                assert forall|j: int| 0 <= j < n implies !wanted(#[trigger] after[j]) by {
                    assert(participants[j].id != new.id);
                }
            }
            crate::rounds::lemma_first_place(after, wanted, n);
        },
    }
}

/// Where no place is found, no participant has the id.
pub proof fn lemma_absent(participants: Seq<ParticipantView>, id: u64)
    requires
        crate::rounds::place_of(participants, id) is None,
    ensures
        forall|i: int| 0 <= i < participants.len() ==> (#[trigger] participants[i]).id != id,
    decreases participants.len(),
{
    let wanted = |p: ParticipantView| p.id == id;
    assert forall|i: int| 0 <= i < participants.len() implies (#[trigger] participants[i]).id
        != id by {
        lemma_no_first(participants, wanted, i);
    }
}

/// Where there is no first place, `wanted` holds of none.
pub proof fn lemma_no_first(
    participants: Seq<ParticipantView>,
    wanted: spec_fn(ParticipantView) -> bool,
    i: int,
)
    requires
        crate::rounds::first_place(participants, wanted) is None,
        0 <= i < participants.len(),
    ensures
        !wanted(participants[i]),
    decreases i,
{
    assert forall|j: int| 0 <= j < i implies !wanted(#[trigger] participants[j]) by {
        lemma_no_first(participants, wanted, j);
    }
    if wanted(participants[i]) {
        assert(crate::rounds::is_first(participants, wanted, i));
    }
}

/// Recording the same data of a participant twice is the same as recording it once.
pub proof fn law_record_twice(participants: Seq<ParticipantView>, new: ParticipantView)
    ensures
        crate::rounds::recorded(crate::rounds::recorded(participants, new), new)
            == crate::rounds::recorded(participants, new),
{
    law_record(participants, new);
    let after = crate::rounds::recorded(participants, new);
    let i = crate::rounds::place_of(after, new.id)->Some_0;
    let wanted = |p: ParticipantView| p.id == new.id;
    assert(crate::rounds::is_first(after, wanted, i));
    assert(after[i].updated(new) == after[i]) by {
        match crate::rounds::place_of(participants, new.id) {
            Some(k) => {
                assert(crate::rounds::is_first(participants, wanted, k));
                assert(crate::rounds::is_first(after, wanted, k)) by {
                    assert forall|j: int| 0 <= j < k implies !wanted(#[trigger] after[j]) by {
                        assert(!wanted(participants[j]));
                    }
                }
                crate::rounds::lemma_first_place(after, wanted, k);
                assert(after[i] == participants[k].updated(new));
            },
            None => {
                lemma_absent(participants, new.id);
                if i < participants.len() {
                    assert(participants[i].id != new.id);
                }
                assert(after[i] == new);
            },
        }
    }
    assert(after.update(i, after[i].updated(new)) =~= after);
}

/// A participant that was recorded is the one that is found by the id, where ids
/// fit in a `usize`.
pub proof fn law_recorded_is_found(
    participants: Seq<ParticipantView>,
    new: ParticipantView,
    id: usize,
)
    requires
        new.id == id as u64,
        forall|i: int|
            0 <= i < participants.len() ==> (#[trigger] participants[i]).id <= usize::MAX,
    ensures
        crate::rounds::first_place(
            crate::rounds::recorded(participants, new),
            |p: ParticipantView| p.id as usize == id,
        ) == crate::rounds::place_of(crate::rounds::recorded(participants, new), new.id),
{
    law_record(participants, new);
    let after = crate::rounds::recorded(participants, new);
    let by_id = |p: ParticipantView| p.id == new.id;
    let by_usize = |p: ParticipantView| p.id as usize == id;
    let i = crate::rounds::place_of(after, new.id)->Some_0;
    assert(crate::rounds::is_first(after, by_id, i));
    assert forall|j: int| 0 <= j < after.len() implies (#[trigger] after[j]).id <= usize::MAX by {
        if j < participants.len() {
            assert(participants[j].id <= usize::MAX);
        }
    }
    assert(crate::rounds::is_first(after, by_usize, i)) by {
        assert forall|j: int| 0 <= j < i implies !by_usize(#[trigger] after[j]) by {
            assert(!by_id(after[j]));
        }
    }
    crate::rounds::lemma_first_place(after, by_usize, i);
}

// Messages

/// The messages are all in order exactly if none has a fault.
pub proof fn law_messages_check(slate: SlateView)
    ensures
        slate.messages_check() is Ok <==> forall|i: int|
            0 <= i < slate.participant_data.len() ==> #[trigger] slate.message_fault(i) is None,
{
    lemma_messages_check_from(slate, 0);
}

proof fn lemma_messages_check_from(slate: SlateView, from: int)
    requires
        0 <= from <= slate.participant_data.len(),
    ensures
        slate.messages_check_from(from) is Ok <==> forall|i: int|
            from <= i < slate.participant_data.len() ==> #[trigger] slate.message_fault(i) is None,
    decreases slate.participant_data.len() - from,
{
    if from < slate.participant_data.len() {
        lemma_messages_check_from(slate, from + 1);
        if slate.message_fault(from) is Some {
            assert(!(slate.message_fault(from) is None));
        }
    }
}

/// A participant who joins with a message signs it, so where the messages were in
/// order before, they still are.
pub proof fn law_joining_keeps_messages(
    before: SlateView,
    after: SlateView,
    secret: Seq<u8>,
    nonce: Seq<u8>,
    id: u64,
    part_sig: Option<Signature>,
    message: Option<Seq<char>>,
    fixed: bool,
)
    requires
        before.join_outcome(after, Ok(()), secret, nonce, id, part_sig, message, fixed),
        before.messages_check() is Ok,
    ensures
        after.messages_check() is Ok,
{
    let new = choose|new: ParticipantView|
        #![trigger crate::rounds::is_participant(new, secret, nonce, id, part_sig, message, fixed)]
        crate::rounds::is_participant(new, secret, nonce, id, part_sig, message, fixed) && after
            == before.with_participant(new);
    law_messages_check(before);
    law_messages_check(after);
    law_record(before.participant_data, new);
    assert forall|i: int| 0 <= i < after.participant_data.len() implies #[trigger] after.message_fault(
        i,
    ) is None by {
        if i < before.participant_data.len() && after.participant_data[i]
            == before.participant_data[i] {
            assert(before.message_fault(i) is None);
        } else if i < before.participant_data.len() {
            assert(before.participant_data[i].id == new.id);
            assert(after.participant_data[i] == before.participant_data[i].updated(new));
        } else {
            assert(after.participant_data[i] == new);
        }
    }
}

// Signatures

/// The sums of keys and nonces, and the message to sign, do not depend on partial
/// signatures; so a valid one keeps all of them valid.
pub proof fn law_valid_part_sig(slate: SlateView, id: u64, signature: Signature)
    requires
        slate.part_sigs_check() is Ok,
        slate.nonce_sum() is Ok,
        slate.key_sum() is Ok,
        crate::rounds::place_of(slate.participant_data, id) matches Some(i)
            ==> crate::crypto::partial_signature_valid(
            signature@,
            slate.nonce_sum()->Ok_0,
            slate.participant_data[i].public_blind_excess@,
            slate.key_sum()->Ok_0,
            slate.message(),
        ),
    ensures
        slate.with_part_sig(id, signature).nonce_sum() == slate.nonce_sum(),
        slate.with_part_sig(id, signature).key_sum() == slate.key_sum(),
        slate.with_part_sig(id, signature).part_sigs_check() is Ok,
{
    let after = slate.with_part_sig(id, signature);
    assert(crate::rounds::nonces(after.participant_data) =~= crate::rounds::nonces(
        slate.participant_data,
    ));
    assert(crate::rounds::keys(after.participant_data) =~= crate::rounds::keys(
        slate.participant_data,
    ));
    let nonce_sum = slate.nonce_sum()->Ok_0;
    let key_sum = slate.key_sum()->Ok_0;
    assert forall|i: int| 0 <= i < after.participant_data.len() implies !#[trigger] after.part_sig_wrong(
        i,
        nonce_sum,
        key_sum,
    ) by {
        if after.participant_data[i] == slate.participant_data[i] {
            if slate.participant_data[i].part_sig is Some {
                assert(slate.has_part_sig());
                assert(!slate.part_sig_wrong(i, nonce_sum, key_sum));
            }
        }
    }
}

proof fn lemma_map_to_multiset<A, B>(a: Seq<A>, b: Seq<A>, f: spec_fn(A) -> B)
    requires
        a.to_multiset() == b.to_multiset(),
    ensures
        a.map_values(f).to_multiset() == b.map_values(f).to_multiset(),
    decreases a.len(),
{
    broadcast use vstd::multiset::group_multiset_axioms;

    a.to_multiset_ensures();
    b.to_multiset_ensures();
    if a.len() == 0 {
        assert(a.map_values(f) =~= b.map_values(f));
    } else {
        let x = a.last();
        assert(a.contains(x));
        assert(a.to_multiset().count(x) > 0);
        assert(b.contains(x));
        let i = choose|i: int| 0 <= i < b.len() && b[i] == x;
        let rest_a = a.remove(a.len() - 1);
        let rest_b = b.remove(i);
        lemma_map_to_multiset(rest_a, rest_b, f);
        let mapped_a = a.map_values(f);
        let mapped_b = b.map_values(f);
        mapped_a.to_multiset_ensures();
        mapped_b.to_multiset_ensures();
        assert(mapped_a.remove(a.len() - 1) =~= rest_a.map_values(f));
        assert(mapped_b.remove(i) =~= rest_b.map_values(f));
        assert(mapped_a[a.len() - 1] == f(x) && mapped_b[i] == f(x));
        assert(mapped_a.contains(f(x)) && mapped_b.contains(f(x)));
        assert(mapped_a.to_multiset() =~= mapped_a.to_multiset().remove(f(x)).insert(f(x)));
        assert(mapped_b.to_multiset() =~= mapped_b.to_multiset().remove(f(x)).insert(f(x)));
    }
}

/// The sums of nonces and keys do not depend on the order of the participants.
pub proof fn law_sums_in_any_order(a: SlateView, b: SlateView)
    requires
        a.participant_data.to_multiset() == b.participant_data.to_multiset(),
    ensures
        a.nonce_sum() == b.nonce_sum(),
        a.key_sum() == b.key_sum(),
{
    a.participant_data.to_multiset_ensures();
    b.participant_data.to_multiset_ensures();
    lemma_map_to_multiset(
        a.participant_data,
        b.participant_data,
        |p: ParticipantView| p.public_nonce@,
    );
    lemma_map_to_multiset(
        a.participant_data,
        b.participant_data,
        |p: ParticipantView| p.public_blind_excess@,
    );
}

/// A partial signature that a participant makes with the keys that were published counts:
/// afterwards that participant is complete too, and all that are have signed with theirs.
pub proof fn law_signing_counts(
    slate: SlateView,
    secrets: Seq<Seq<u8>>,
    nonces: Seq<Seq<u8>>,
    id: u64,
    signature: Signature,
)
    requires
        slate.signed_in_part(secrets, nonces),
        crate::rounds::place_of(slate.participant_data, id) is Some,
        crate::rounds::place_of(slate.participant_data, id)->Some_0 < slate.num_participants,
        ({
            let i = crate::rounds::place_of(slate.participant_data, id)->Some_0;
            crate::crypto::partial_signature(
                secrets[i],
                nonces[i],
                slate.nonce_sum()->Ok_0,
                slate.key_sum()->Ok_0,
                slate.message(),
            ) == Some(signature@)
        }),
    ensures
        slate.with_part_sig(id, signature).signed_in_part(secrets, nonces),
        forall|j: int|
            0 <= j < slate.participant_data.len() ==> ((
            #[trigger] slate.with_part_sig(id, signature).participant_data[j]).part_sig is Some
                <==> slate.participant_data[j].part_sig is Some || j == crate::rounds::place_of(
                slate.participant_data,
                id,
            )->Some_0),
{
    let after = slate.with_part_sig(id, signature);
    let i = crate::rounds::place_of(slate.participant_data, id)->Some_0;
    assert(crate::rounds::is_first(
        slate.participant_data,
        |p: ParticipantView| p.id == id,
        i,
    ));
    assert(crate::rounds::nonces(after.participant_data) =~= crate::rounds::nonces(
        slate.participant_data,
    ));
    assert(crate::rounds::keys(after.participant_data) =~= crate::rounds::keys(
        slate.participant_data,
    ));
    assert forall|j: int| 0 <= j < after.participant_data.len() implies {
        let p = #[trigger] after.participant_data[j];
        &&& crate::crypto::public_key(secrets[j]) == Some(p.public_blind_excess@)
        &&& crate::crypto::public_key(nonces[j]) == Some(p.public_nonce@)
        &&& p.part_sig is Some ==> crate::crypto::is_part(
            p.part_sig->Some_0@,
            secrets[j],
            nonces[j],
            after.nonce_sum()->Ok_0,
            after.key_sum()->Ok_0,
            after.message(),
        )
    } by {
        let old_p = slate.participant_data[j];
        assert(crate::crypto::public_key(secrets[j]) == Some(old_p.public_blind_excess@));
    }
}

/// A participant who joins changes nothing but the participants.
pub proof fn law_joining_changes_participants(
    before: SlateView,
    after: SlateView,
    result: Result<(), SlateErrorView>,
    secret: Seq<u8>,
    nonce: Seq<u8>,
    id: u64,
    part_sig: Option<Signature>,
    message: Option<Seq<char>>,
    fixed: bool,
)
    requires
        before.join_outcome(after, result, secret, nonce, id, part_sig, message, fixed),
    ensures
        after == (SlateView { participant_data: after.participant_data, ..before }),
        result is Err ==> after == before,
{
}

/// Finalizing a slate completes its one kernel with the joint signature and the excess, and
/// changes nothing else; the transaction is then one that was found valid. Where it fails it
/// changes nothing at all.
pub proof fn law_finalize_completes_the_kernel<V>(
    before: SlateView,
    after: SlateView,
    result: Result<(), SlateError>,
    base: u64,
    validate: V,
) where V: Fn(&Transaction) -> Result<(), grin_core::core::transaction::Error>
    requires
        crate::finalize::finalize_outcome(before, after, result, base, validate),
    ensures
        result is Err ==> after == before,
        result is Ok ==> {
            &&& after == (SlateView { tx: after.tx, ..before })
            &&& after.tx.offset == before.tx.offset
            &&& after.tx.body.inputs == before.tx.body.inputs
            &&& after.tx.body.outputs == before.tx.body.outputs
            &&& after.tx.body.kernels.len() == 1
            &&& after.tx.body.kernels[0].features == before.tx.body.kernels[0].features
            &&& before.final_signature() == Ok::<Seq<u8>, SlateErrorView>(
                after.tx.body.kernels[0].excess_sig@,
            )
            &&& before.excess() == Ok::<Seq<u8>, SlateErrorView>(after.tx.body.kernels[0].excess@)
            &&& exists|tx: Transaction, verdict: Result<(), grin_core::core::transaction::Error>|
                tx@ == after.tx && verdict is Ok && #[trigger] call_ensures(
                    validate,
                    (&tx,),
                    verdict,
                )
        },
{
}

/// Who asks less for a unit of weight accepts every fee that one who asks more accepts.
pub proof fn law_lower_fee_is_accepted(slate: SlateView, lower: u64, higher: u64)
    requires
        lower <= higher,
        slate.fee_check(higher) is Ok,
    ensures
        slate.fee_check(lower) is Ok,
{
    let weight = crate::crypto::saturated(
        (slate.tx.body.inputs.count() + 21 * slate.tx.body.outputs.len() + 3
            * slate.tx.body.kernels.len()) as int,
    );
    assert(0 <= weight * lower <= weight * higher) by (nonlinear_arith)
        requires
            0 <= weight,
            lower <= higher,
    ;
    assert(slate.required_fee(lower) <= slate.required_fee(higher));
}

/// Two sides that finalize the same slate and both succeed have the same slate afterwards,
/// whatever each asks for a unit of weight and however each validates; so have two that both
/// fail.
pub proof fn law_finalized_slates_are_the_same<V, W>(
    before: SlateView,
    after_a: SlateView,
    after_b: SlateView,
    result_a: Result<(), SlateError>,
    result_b: Result<(), SlateError>,
    base_a: u64,
    base_b: u64,
    validate_a: V,
    validate_b: W,
) where
    V: Fn(&Transaction) -> Result<(), grin_core::core::transaction::Error>,
    W: Fn(&Transaction) -> Result<(), grin_core::core::transaction::Error>,

    requires
        crate::finalize::finalize_outcome(before, after_a, result_a, base_a, validate_a),
        crate::finalize::finalize_outcome(before, after_b, result_b, base_b, validate_b),
        result_a is Ok <==> result_b is Ok,
    ensures
        after_a == after_b,
{
    law_finalize_completes_the_kernel(before, after_a, result_a, base_a, validate_a);
    law_finalize_completes_the_kernel(before, after_b, result_b, base_b, validate_b);
    if result_a is Ok {
        let a = after_a.tx.body.kernels[0];
        let b = after_b.tx.body.kernels[0];
        assert(a.excess =~= b.excess);
        assert(a.excess_sig =~= b.excess_sig);
        assert(after_a.tx.body.kernels =~= after_b.tx.body.kernels);
    }
}

/// Either side can finalize: two sides that finalize the same slate, whose verdicts agree on
/// equal transactions and who agree whether the fees are accepted, both succeed or both fail,
/// and have the same slate afterwards. Where both ask the same for a unit of weight, they
/// also fail with the same error.
pub proof fn law_either_side_can_finalize<V, W>(
    before: SlateView,
    after_a: SlateView,
    after_b: SlateView,
    result_a: Result<(), SlateError>,
    result_b: Result<(), SlateError>,
    base_a: u64,
    base_b: u64,
    validate_a: V,
    validate_b: W,
) where
    V: Fn(&Transaction) -> Result<(), grin_core::core::transaction::Error>,
    W: Fn(&Transaction) -> Result<(), grin_core::core::transaction::Error>,

    requires
        crate::finalize::finalize_outcome(before, after_a, result_a, base_a, validate_a),
        crate::finalize::finalize_outcome(before, after_b, result_b, base_b, validate_b),
        before.final_signature() is Ok && before.excess() is Ok ==> (before.fee_check(
            base_a,
        ) is Ok <==> before.fee_check(base_b) is Ok),
        forall|
            a: Transaction,
            b: Transaction,
            verdict_a: Result<(), grin_core::core::transaction::Error>,
            verdict_b: Result<(), grin_core::core::transaction::Error>,
        |
            #[trigger] call_ensures(validate_a, (&a,), verdict_a) && #[trigger] call_ensures(
                validate_b,
                (&b,),
                verdict_b,
            ) && a@ == b@ ==> (verdict_a is Ok <==> verdict_b is Ok),
    ensures
        result_a is Ok <==> result_b is Ok,
        after_a == after_b,
        base_a == base_b ==> crate::error::outcome(result_a) == crate::error::outcome(result_b),
{
    if before.final_signature() is Ok && before.fee_check(base_a) is Ok && before.excess() is Ok {
        let bytes = before.final_signature()->Ok_0;
        let signature_a = choose|signature: Signature|
            signature@ == bytes && #[trigger] crate::finalize::transaction_outcome(
                before,
                after_a,
                result_a,
                signature,
                base_a,
                validate_a,
            );
        let signature_b = choose|signature: Signature|
            signature@ == bytes && #[trigger] crate::finalize::transaction_outcome(
                before,
                after_b,
                result_b,
                signature,
                base_b,
                validate_b,
            );
        assert(signature_a =~= signature_b);
        let excess_bytes = before.excess()->Ok_0;
        let excess_a = choose|excess: Commitment|
            excess@ == excess_bytes && #[trigger] crate::finalize::completion_outcome(
                before,
                after_a,
                result_a,
                excess,
                signature_a,
                validate_a,
            );
        let excess_b = choose|excess: Commitment|
            excess@ == excess_bytes && #[trigger] crate::finalize::completion_outcome(
                before,
                after_b,
                result_b,
                excess,
                signature_b,
                validate_b,
            );
        assert(excess_a =~= excess_b);
    }
    law_finalized_slates_are_the_same(
        before,
        after_a,
        after_b,
        result_a,
        result_b,
        base_a,
        base_b,
        validate_a,
        validate_b,
    );
}

// The offset

/// The factor as a number, or zero where it is not below the order.
pub open spec fn factor_number(factor: Seq<u8>) -> int {
    if crate::crypto::number(factor) < crate::crypto::curve_order() {
        crate::crypto::number(factor)
    } else {
        0
    }
}

/// What a participant adds to the offset of a slate.
pub open spec fn contribution(
    initial_sec_key: Seq<u8>,
    input_keys: Seq<Seq<u8>>,
    output_keys: Seq<Seq<u8>>,
) -> int {
    crate::crypto::factor_sum(output_keys) - crate::crypto::factor_sum(input_keys) - factor_number(
        initial_sec_key,
    )
}

proof fn lemma_factor_sum_prepend(first: Seq<u8>, rest: Seq<Seq<u8>>)
    ensures
        crate::crypto::factor_sum(seq![first] + rest) == factor_number(first)
            + crate::crypto::factor_sum(rest),
    decreases rest.len(),
{
    let all = seq![first] + rest;
    if rest.len() == 0 {
        assert(all =~= seq![first]);
        assert(all.drop_last() =~= seq![]);
        assert(crate::crypto::factor_sum(all.drop_last()) == 0);
    } else {
        lemma_factor_sum_prepend(first, rest.drop_last());
        assert(all.drop_last() =~= seq![first] + rest.drop_last());
        assert(all.last() == rest.last());
    }
}

/// Adjusting the offset adds the contribution of the participant to it, modulo the
/// order.
pub proof fn law_adjusted_offset(
    slate: SlateView,
    initial_sec_key: Seq<u8>,
    input_keys: Seq<Seq<u8>>,
    output_keys: Seq<Seq<u8>>,
)
    ensures
        slate.adjusted_offset(initial_sec_key, input_keys, output_keys) == (factor_number(
            slate.offset@,
        ) + contribution(initial_sec_key, input_keys, output_keys)) % crate::crypto::curve_order(),
{
    lemma_factor_sum_prepend(slate.offset@, output_keys);
    lemma_factor_sum_prepend(initial_sec_key, input_keys);
}

/// The offset does not depend on the order in which two participants adjust it: `first`
/// is the slate after one of them, `second` after the other.
pub proof fn law_offset_order(
    slate: SlateView,
    first: SlateView,
    second: SlateView,
    a: (Seq<u8>, Seq<Seq<u8>>, Seq<Seq<u8>>),
    b: (Seq<u8>, Seq<Seq<u8>>, Seq<Seq<u8>>),
)
    requires
        crate::crypto::number(first.offset@) == slate.adjusted_offset(a.0, a.1, a.2),
        crate::crypto::number(second.offset@) == slate.adjusted_offset(b.0, b.1, b.2),
    ensures
        first.adjusted_offset(b.0, b.1, b.2) == second.adjusted_offset(a.0, a.1, a.2),
{
    let order = crate::crypto::curve_order();
    let o = factor_number(slate.offset@);
    let ca = contribution(a.0, a.1, a.2);
    let cb = contribution(b.0, b.1, b.2);
    law_adjusted_offset(slate, a.0, a.1, a.2);
    law_adjusted_offset(slate, b.0, b.1, b.2);
    law_adjusted_offset(first, b.0, b.1, b.2);
    law_adjusted_offset(second, a.0, a.1, a.2);
    assert(factor_number(first.offset@) == (o + ca) % order);
    assert(factor_number(second.offset@) == (o + cb) % order);
    vstd::arithmetic::div_mod::lemma_add_mod_noop_right(cb, o + ca, order);
    vstd::arithmetic::div_mod::lemma_add_mod_noop_right(ca, o + cb, order);
    assert(cb + (o + ca) == ca + (o + cb));
}

/// The key that is left when an offset is split off is a key, and with the offset it
/// adds up to the key that was split.
pub proof fn law_split_adds_up(secret: Seq<u8>, offset: Seq<u8>, left: Seq<u8>)
    requires
        crate::crypto::is_secret_key(secret),
        crate::crypto::is_secret_key(offset),
        crate::offset::split_number(secret, offset) != 0,
        crate::crypto::number(left) == crate::offset::split_number(secret, offset),
    ensures
        crate::crypto::is_secret_key(left),
        crate::crypto::factor_difference(seq![left, offset], seq![]) == crate::crypto::number(
            secret,
        ),
{
    let order = crate::crypto::curve_order();
    let s = crate::crypto::number(secret);
    let o = crate::crypto::number(offset);
    let l = crate::crypto::number(left);
    lemma_sum_of_one(secret);
    lemma_sum_of_one(offset);
    lemma_sum_of_one(left);
    assert(l == (s - o) % order);
    assert(0 < l < order);
    let pair = seq![left, offset];
    assert(pair.drop_last() =~= seq![left]);
    assert(crate::crypto::factor_sum(pair) == l + o);
    assert(crate::crypto::factor_sum(seq![]) == 0);
    if s >= o {
        vstd::arithmetic::div_mod::lemma_small_mod((s - o) as nat, order as nat);
        assert(l + o == s);
        vstd::arithmetic::div_mod::lemma_small_mod(s as nat, order as nat);
    } else {
        vstd::arithmetic::div_mod::lemma_mod_add_multiples_vanish(s - o, order);
        vstd::arithmetic::div_mod::lemma_small_mod((s - o + order) as nat, order as nat);
        assert(l + o == s + order);
        vstd::arithmetic::div_mod::lemma_mod_add_multiples_vanish(s, order);
        vstd::arithmetic::div_mod::lemma_small_mod(s as nat, order as nat);
    }
}

/// One factor below the order adds up to its number.
pub proof fn lemma_sum_of_one(factor: Seq<u8>)
    requires
        crate::crypto::number(factor) < crate::crypto::curve_order(),
    ensures
        crate::crypto::factor_sum(seq![factor]) == crate::crypto::number(factor),
{
    assert(seq![factor].drop_last() =~= seq![]);
    reveal_with_fuel(crate::crypto::factor_sum, 2);
}

/// Bytes of the same length that write the same number are the same.
pub proof fn law_number_is_unique(a: Seq<u8>, b: Seq<u8>)
    requires
        a.len() == b.len(),
        crate::crypto::number(a) == crate::crypto::number(b),
    ensures
        a == b,
    decreases a.len(),
{
    if a.len() > 0 {
        assert(a.last() == b.last() && crate::crypto::number(a.drop_last())
            == crate::crypto::number(b.drop_last()));
        law_number_is_unique(a.drop_last(), b.drop_last());
        assert(a =~= a.drop_last().push(a.last()));
        assert(b =~= b.drop_last().push(b.last()));
    } else {
        assert(a =~= b);
    }
}

// Fees

/// Where the fees are accepted, they are also accepted where less is asked for a
/// unit of weight.
pub proof fn law_lower_base_fee(slate: SlateView, base: u64, lower: u64)
    requires
        lower <= base,
        slate.fee_check(base) is Ok,
    ensures
        slate.required_fee(lower) <= slate.required_fee(base),
        slate.fee_check(lower) is Ok,
{
    let weight = crate::crypto::saturated(
        (slate.tx.body.inputs.count() + 21 * slate.tx.body.outputs.len() + 3
            * slate.tx.body.kernels.len()) as int,
    );
    assert(weight * lower <= weight * base) by (nonlinear_arith)
        requires
            lower <= base,
            0 <= weight,
    ;
    assert(0 <= weight * lower) by (nonlinear_arith)
        requires
            0 <= weight,
            0 <= lower,
    ;
}

// New slates

/// A new slate has nothing that could be wrong, cannot be finalized, and needs the
/// newer format only if it is compact.
pub proof fn law_blank(num_participants: usize, compact_slate: bool, id: crate::crypto::Uuid)
    ensures
        ({
            let slate = SlateView::blank(num_participants, compact_slate, id);
            &&& slate.num_participants > 0
            &&& slate.part_sigs_check() is Ok
            &&& slate.messages_check() is Ok
            &&& slate.messages() =~= seq![]
            &&& slate.final_signature() == Err::<Seq<u8>, SlateErrorView>(
                SlateErrorView::GenericError("Participant nonces cannot be empty"@),
            )
            &&& slate.needs_v3() <==> compact_slate
            &&& slate.splits_key() <==> !compact_slate
        }),
{
}

// Versions

/// Inputs, outputs and version info, and kernels of every kind but those with a
/// relative height, are read back from the third version as they were written.
pub proof fn law_v3_parts_round_trip(
    input: Input,
    output: Output,
    kernel: TxKernel,
    info: VersionCompatInfo,
)
    requires
        !(kernel.features is NoRecentDuplicate),
    ensures
        InputV3::of(input).input() == input,
        OutputV3::of(output).output() == output,
        TxKernelV3::of(kernel).valid(),
        TxKernelV3::of(kernel).kernel() == kernel,
        VersionCompatInfo::from_spec(&VersionCompatInfoV3::from_spec(&info)) == info,
{
}

/// Participants and payment proofs are read back from the third version as they were
/// written.
pub proof fn law_v3_texts_round_trip(participant: ParticipantData, payment: PaymentInfo)
    ensures
        ParticipantData::from_spec(&ParticipantDataV3::from_spec(&participant)) == participant,
        PaymentInfo::from_spec(&PaymentInfoV3::from_spec(&payment)) == payment,
{
}

/// The transaction has no kernel with a relative height, and the features of its
/// inputs are known: all of it has a place in the third version.
pub open spec fn fits_v3(body: BodyView) -> bool {
    body.inputs is FeaturesAndCommit && forall|i: int|
        0 <= i < body.kernels.len() ==> !((#[trigger] body.kernels[i]).features is NoRecentDuplicate)
}

/// A body that has a place in the third version is read back from it as it was
/// written.
pub proof fn law_v3_body_round_trip(body: BodyView)
    requires
        fits_v3(body),
    ensures
        body.to_v3().valid(),
        body.to_v3().body() == body,
{
    let back = body.to_v3().body();
    let inputs = body.inputs->FeaturesAndCommit_0;
    assert(back.inputs->FeaturesAndCommit_0 =~= inputs);
    assert(back.outputs =~= body.outputs);
    assert(back.kernels =~= body.kernels);
}

/// The slate with the one offset that is written: that of the slate where it is
/// compact, and that of the transaction where it is not.
pub open spec fn with_written_offset(slate: SlateView) -> SlateView {
    if slate.compact_slate {
        slate.with_tx_offset(slate.offset)
    } else {
        SlateView { offset: crate::transaction::spec_zero_blind(), ..slate }
    }
}

/// A slate whose transaction has a place in the third version is read back from it as
/// it was written, with the one offset that is written.
pub proof fn law_v3_slate_round_trip(slate: SlateView, network: Seq<char>)
    requires
        fits_v3(slate.tx.body),
    ensures
        slate.to_v3(network).tx.body.valid(),
        slate.to_v3(network).slate() == with_written_offset(slate),
{
    law_v3_body_round_trip(slate.tx.body);
}

/// What a document of the third version gives back is what was written in it.
pub proof fn law_document_round_trip(
    slate: SlateView,
    network: Seq<char>,
    slate_json: Seq<char>,
    probe: SlateVersionProbe,
    parsed: ParsedSlate,
)
    requires
        fits_v3(slate.tx.body),
        slate.version_info.version == 3,
        probe.version_info == Some(slate.version_info),
        parsed.probe == Ok::<SlateVersionProbe, String>(probe),
        parsed.v3 is Ok,
        parsed.v3->Ok_0@ == slate.to_v3(network),
    ensures
        parsed.upgraded(slate_json) == Ok::<SlateView, SlateErrorView>(with_written_offset(slate)),
{
    law_v3_slate_round_trip(slate, network);
}

} // verus!
