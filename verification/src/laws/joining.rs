//! Joining a slate: the keys and the messages of participants.
use crate::crypto::{BlindingFactor, SecretKey, Signature};
use crate::error::SlateError;
use crate::laws::same::lemma_same_participants;
use crate::participant::{
    ParticipantData, ParticipantMessageData, ParticipantMessages, ParticipantView,
};
use crate::slate::{Slate, SlateView};
use vstd::prelude::*;

verus! {

// Recording a participant

/// The two have the same keys.
pub open spec fn same_keys(a: ParticipantData, b: ParticipantData) -> bool {
    a.public_blind_excess == b.public_blind_excess && a.public_nonce == b.public_nonce
}

/// `after` is `before` with the data of `new`. A partial signature that is not given anew
/// stays if the keys stay; the signature of a message that is not given anew stays if the keys
/// and the message stay.
pub open spec fn is_updated(
    before: ParticipantData,
    after: ParticipantData,
    new: ParticipantData,
) -> bool {
    &&& after.id == new.id
    &&& same_keys(after, new)
    &&& crate::laws::same::same_text(after.message, new.message)
    &&& after.part_sig == (if new.part_sig is None && same_keys(before, new) {
        before.part_sig
    } else {
        new.part_sig
    })
    &&& after.message_sig == (if new.message_sig is None && same_keys(before, new)
        && crate::laws::same::same_text(before.message, new.message) {
        before.message_sig
    } else {
        new.message_sig
    })
}

/// The participants are as before, but for `new`: if one has its id, the first of them is
/// updated with it; else it is added at the end.
pub open spec fn is_recorded(
    before: Seq<ParticipantData>,
    after: Seq<ParticipantData>,
    new: ParticipantData,
) -> bool {
    &&& (forall|j: int| 0 <= j < before.len() ==> (#[trigger] before[j]).id != new.id) ==> {
        &&& after.len() == before.len() + 1
        &&& forall|j: int|
            0 <= j < before.len() ==> crate::laws::same::same_participant(
                #[trigger] after[j],
                before[j],
            )
        &&& crate::laws::same::same_participant(after[before.len() as int], new)
    }
    &&& forall|i: int| #[trigger]
        crate::laws::signing::is_place_of(before, new.id, i) ==> {
            &&& after.len() == before.len()
            &&& forall|j: int|
                0 <= j < before.len() && j != i ==> crate::laws::same::same_participant(
                    #[trigger] after[j],
                    before[j],
                )
            &&& is_updated(before[i], after[i], new)
        }
}

/// The slate is as before, but for the participants.
pub open spec fn only_participants_set(before: Slate, after: Slate) -> bool {
    &&& crate::laws::same::same_head(after, before)
    &&& crate::laws::same::same_transaction(after.tx, before.tx)
    &&& after.offset == before.offset
}

proof fn lemma_recorded(
    before: Seq<ParticipantData>,
    after: Seq<ParticipantData>,
    new: ParticipantData,
)
    requires
        crate::participant::participant_views(after) == crate::rounds::recorded(
            crate::participant::participant_views(before),
            new@,
        ),
    ensures
        is_recorded(before, after, new),
{
    let old_views = crate::participant::participant_views(before);
    let new_views = crate::participant::participant_views(after);
    let wanted = |p: ParticipantView| p.id == new.id;
    assert(old_views.len() == before.len() && new_views.len() == after.len());
    if forall|j: int| 0 <= j < before.len() ==> (#[trigger] before[j]).id != new.id {
        if crate::rounds::place_of(old_views, new.id) is Some {
            let i = crate::rounds::place_of(old_views, new.id)->Some_0;
            assert(crate::rounds::is_first(old_views, wanted, i));
            assert(before[i].id == new.id);
        }
        assert(new_views == old_views.push(new@));
        assert forall|j: int| 0 <= j < before.len() implies crate::laws::same::same_participant(
            #[trigger] after[j],
            before[j],
        ) by {
            assert(new_views[j] == after[j]@ && old_views[j] == before[j]@);
        }
        assert(new_views[before.len() as int] == after[before.len() as int]@);
    }
    assert forall|i: int| #[trigger]
        crate::laws::signing::is_place_of(before, new.id, i) implies {
        &&& after.len() == before.len()
        &&& forall|j: int|
            0 <= j < before.len() && j != i ==> crate::laws::same::same_participant(
                #[trigger] after[j],
                before[j],
            )
        &&& is_updated(before[i], after[i], new)
    } by {
        crate::laws::signing::lemma_place_of(before, new.id, i);
        assert(new_views == old_views.update(i, old_views[i].updated(new@)));
        assert(new_views.len() == old_views.len());
        assert forall|j: int|
            0 <= j < before.len() && j != i implies crate::laws::same::same_participant(
            #[trigger] after[j],
            before[j],
        ) by {
            assert(new_views[j] == after[j]@ && old_views[j] == before[j]@);
        }
        assert(new_views[i] == after[i]@ && old_views[i] == before[i]@);
    }
}

/// Recording a participant updates the first with the same id or adds a further one, and
/// changes nothing else.
pub proof fn law_record_participant(slate: &mut Slate, new: ParticipantData)
    requires
        call_ensures(Slate::record_participant, (slate, new), ()),
    ensures
        only_participants_set(*old(slate), *final(slate)),
        is_recorded(old(slate).participant_data@, final(slate).participant_data@, new),
{
    lemma_recorded(old(slate).participant_data@, final(slate).participant_data@, new);
}

// Joining

/// The hash of a text, which is what is signed.
pub open spec fn hash_of(text: String) -> Seq<u8> {
    crate::crypto::blake2b_hash(vstd::utf8::encode_utf8(text@))
}

/// The data that a participant publishes: the id, the public keys of the two secret ones, the
/// partial signature and the message as they were given, and the signature of the message by
/// the secret key. A message that is not there is not signed. Where the signature is fixed, it
/// is the one with a nonce of 32 bytes of one.
pub open spec fn is_published(
    new: ParticipantData,
    key: Seq<u8>,
    nonce: Seq<u8>,
    id: u64,
    part_sig: Option<Signature>,
    message: Option<String>,
    fixed: bool,
) -> bool {
    &&& new.id == id
    &&& crate::crypto::public_key(key) == Some(new.public_blind_excess@)
    &&& crate::crypto::public_key(nonce) == Some(new.public_nonce@)
    &&& new.part_sig == part_sig
    &&& crate::laws::same::same_text(new.message, message)
    &&& match message {
        None => new.message_sig is None,
        Some(text) => {
            &&& new.message_sig is Some
            &&& crate::crypto::single_signature_valid(
                new.message_sig->Some_0@,
                hash_of(text),
                new.public_blind_excess@,
            )
            &&& fixed ==> crate::crypto::single_signature(
                hash_of(text),
                key,
                Seq::new(32, |i: int| 1u8),
                new.public_blind_excess@,
            ) == Some(new.message_sig->Some_0@)
        },
    }
}

/// The bytes write a number that is not zero and below the order.
pub open spec fn is_key(bytes: Seq<u8>) -> bool {
    0 < crate::crypto::number(bytes) < crate::crypto::curve_order()
}

/// A participant has joined, or was refused because one of the keys is none; then nothing has
/// changed.
pub open spec fn has_joined(
    before: Slate,
    after: Slate,
    key: Seq<u8>,
    nonce: Seq<u8>,
    id: u64,
    part_sig: Option<Signature>,
    message: Option<String>,
    fixed: bool,
    r: Result<(), SlateError>,
) -> bool {
    &&& r is Ok <==> is_key(key) && is_key(nonce)
    &&& r is Ok ==> only_participants_set(before, after) && exists|new: ParticipantData| #[trigger]
        is_published(new, key, nonce, id, part_sig, message, fixed) && is_recorded(
            before.participant_data@,
            after.participant_data@,
            new,
        )
    &&& r is Err ==> r->Err_0 is Secp && crate::laws::same::same_slate(after, before)
}

proof fn lemma_joined(
    before: Slate,
    middle: SlateView,
    after: Slate,
    key: Seq<u8>,
    nonce: Seq<u8>,
    id: u64,
    part_sig: Option<Signature>,
    message: Option<String>,
    fixed: bool,
    r: Result<(), SlateError>,
)
    requires
        middle.participant_data == before@.participant_data,
        middle.join_outcome(
            after@,
            crate::error::outcome(r),
            key,
            nonce,
            id,
            part_sig,
            crate::bytes::text_view(message),
            fixed,
        ),
    ensures
        r is Ok <==> is_key(key) && is_key(nonce),
        r is Ok ==> exists|new: ParticipantData| #[trigger]
            is_published(new, key, nonce, id, part_sig, message, fixed) && is_recorded(
                before.participant_data@,
                after.participant_data@,
                new,
            ),
        r is Err ==> r->Err_0 is Secp && after@ == middle,
        after@ == (SlateView { participant_data: after@.participant_data, ..middle }),
{
    if r is Ok {
        let view = choose|view: ParticipantView| #[trigger]
            crate::rounds::is_participant(
                view,
                key,
                nonce,
                id,
                part_sig,
                crate::bytes::text_view(message),
                fixed,
            ) && after@ == middle.with_participant(view);
        let new = ParticipantData {
            id: view.id,
            public_blind_excess: view.public_blind_excess,
            public_nonce: view.public_nonce,
            part_sig: view.part_sig,
            message,
            message_sig: view.message_sig,
        };
        assert(new@ == view);
        assert(crate::rounds::test_nonce() =~= Seq::new(32, |i: int| 1u8));
        assert(is_published(new, key, nonce, id, part_sig, message, fixed));
        lemma_recorded(before.participant_data@, after.participant_data@, new);
    }
}

/// Adding a participant publishes the public keys of the two secret ones with the partial
/// signature and the message, and signs the message. It is refused exactly if one of the two
/// is no key.
pub proof fn law_add_participant(
    slate: &mut Slate,
    key: SecretKey,
    nonce: SecretKey,
    id: usize,
    part_sig: Option<Signature>,
    message: Option<String>,
    fixed: bool,
    r: Result<(), SlateError>,
)
    requires
        call_ensures(
            Slate::add_participant_info,
            (slate, &key, &nonce, id, part_sig, message, fixed),
            r,
        ),
    ensures
        has_joined(
            *old(slate),
            *final(slate),
            key@,
            nonce@,
            id as u64,
            part_sig,
            message,
            fixed,
            r,
        ),
{
    let before = *old(slate);
    let after = *final(slate);
    lemma_joined(before, before@, after, key@, nonce@, id as u64, part_sig, message, fixed, r);
    if r is Err {
        lemma_same_participants(after.participant_data@, before.participant_data@);
    }
}

/// A message is signed with a nonce of 32 bytes of one if the signature is to be fixed, and
/// else with one that is drawn.
pub proof fn law_message_nonce(fixed: bool, r: Option<SecretKey>)
    requires
        call_ensures(crate::rounds::message_nonce, (fixed,), r),
    ensures
        r is Some <==> fixed,
        r matches Some(nonce) ==> forall|i: int| 0 <= i < 32 ==> #[trigger] nonce@[i] == 1,
{
    if let Some(nonce) = r {
        assert forall|i: int| 0 <= i < 32 implies #[trigger] nonce@[i] == 1 by {
            assert(crate::rounds::test_nonce()[i] == 1);
        }
    }
}

/// The transaction of the slate has no offset yet: all its bytes are zero.
pub open spec fn has_no_offset(slate: Slate) -> bool {
    forall|i: int| 0 <= i < 32 ==> #[trigger] slate.tx.offset@[i] == 0
}

proof fn lemma_no_offset(slate: Slate)
    ensures
        slate@.splits_key() <==> !slate.compact_slate && has_no_offset(slate),
{
    let zero = crate::transaction::spec_zero_blind();
    if has_no_offset(slate) {
        assert(slate.tx.offset =~= zero);
    }
}

/// In a compact slate, and in one whose transaction has an offset, the first round of a
/// participant is joining: neither the key nor an offset changes.
pub proof fn law_fill_round_1(
    slate: &mut Slate,
    key: &mut SecretKey,
    nonce: SecretKey,
    id: usize,
    message: Option<String>,
    fixed: bool,
    r: Result<(), SlateError>,
)
    requires
        call_ensures(Slate::fill_round_1, (slate, key, &nonce, id, message, fixed), r),
        old(slate).compact_slate || !has_no_offset(*old(slate)),
    ensures
        *final(key) == *old(key),
        has_joined(
            *old(slate),
            *final(slate),
            old(key)@,
            nonce@,
            id as u64,
            None,
            message,
            fixed,
            r,
        ),
{
    let before = *old(slate);
    let after = *final(slate);
    let secret = old(key)@;
    lemma_no_offset(before);
    lemma_joined(before, before@, after, secret, nonce@, id as u64, None, message, fixed, r);
    if r is Err {
        lemma_same_participants(after.participant_data@, before.participant_data@);
    }
}

/// The first participant to fill round 1 in a slate that is not compact splits a fresh offset
/// off the key: it becomes the offset of the transaction, and with what is left of the key the
/// participant joins. The offset of the slate itself does not change. It fails where nothing
/// is left or the nonce is no key, and then nobody joins.
pub proof fn law_fill_round_1_first(
    slate: &mut Slate,
    key: &mut SecretKey,
    nonce: SecretKey,
    id: usize,
    message: Option<String>,
    fixed: bool,
    r: Result<(), SlateError>,
)
    requires
        call_ensures(Slate::fill_round_1, (slate, key, &nonce, id, message, fixed), r),
        !old(slate).compact_slate,
        has_no_offset(*old(slate)),
    ensures
        crate::laws::offsets::is_drawn(final(slate).tx.offset, fixed),
        ({
            let left = crate::laws::offsets::key_less_offset(*old(key), final(slate).tx.offset);
            &&& left == 0 ==> r is Err && r->Err_0 is Keychain && *final(key) == *old(key)
            &&& left != 0 ==> {
                &&& crate::crypto::number(final(key)@) == left
                &&& (left + crate::crypto::number(final(slate).tx.offset@))
                    % crate::crypto::curve_order() == crate::laws::factor_number(old(key)@)
                &&& r is Ok <==> is_key(nonce@)
                &&& r is Err ==> r->Err_0 is Secp
            }
        }),
        r is Ok ==> exists|new: ParticipantData| #[trigger]
            is_published(
                new,
                final(key)@,
                nonce@,
                id as u64,
                None,
                message,
                fixed,
            ) && is_recorded(
                old(slate).participant_data@,
                final(slate).participant_data@,
                new,
            ),
        r is Err ==> crate::laws::same::same_participants(
            final(slate).participant_data@,
            old(slate).participant_data@,
        ),
        crate::laws::same::same_head(*final(slate), *old(slate)),
        crate::laws::same::same_inputs(final(slate).tx.body.inputs, old(slate).tx.body.inputs),
        final(slate).tx.body.outputs@ == old(slate).tx.body.outputs@,
        final(slate).tx.body.kernels@ == old(slate).tx.body.kernels@,
        final(slate).offset == old(slate).offset,
{
    let before = *old(slate);
    let after = *final(slate);
    let key_before = *old(key);
    let key_after = *final(key);
    lemma_no_offset(before);
    let offset = choose|offset: BlindingFactor|
        #[trigger] crate::offset::is_fresh_offset(offset, fixed)
            && crate::rounds::round_1_with_offset(
            before@,
            after@,
            key_before,
            key_after,
            offset,
            crate::error::outcome(r),
            nonce@,
            id as u64,
            crate::bytes::text_view(message),
            fixed,
        );
    crate::laws::offsets::lemma_drawn(offset, fixed);
    crate::laws::offsets::lemma_split(key_before, key_after, offset);
    if crate::offset::split_number(key_before@, offset@) != 0 {
        lemma_joined(
            before,
            before@.with_tx_offset(offset),
            after,
            key_after@,
            nonce@,
            id as u64,
            None,
            message,
            fixed,
            r,
        );
    }
    if r is Err {
        lemma_same_participants(after.participant_data@, before.participant_data@);
    }
}

// Messages

/// The message of a participant, if there is one, is signed and the signature is that of the
/// participant over the hash of the text.
pub open spec fn message_is_signed(p: ParticipantData) -> bool {
    p.message matches Some(text) ==> p.message_sig is Some
        && crate::crypto::single_signature_valid(
        p.message_sig->Some_0@,
        hash_of(text),
        p.public_blind_excess@,
    )
}

/// The error of a message that is not signed, or whose signature does not match it.
pub open spec fn is_message_error(p: ParticipantData, e: SlateError) -> bool {
    e matches SlateError::Signature(text) && text@ == (if p.message_sig is None {
        "Optional participant messages doesn't have signature"@
    } else {
        "Optional participant messages do not match signatures"@
    })
}

/// The message of a participant is accepted exactly if there is none or it is signed by the
/// participant.
pub proof fn law_verify_message(p: ParticipantData, r: Result<(), SlateError>)
    requires
        call_ensures(ParticipantData::verify_message, (&p,), r),
    ensures
        r is Ok <==> message_is_signed(p),
        r is Err ==> is_message_error(p, r->Err_0),
{
}

/// A verdict on a message accepts it exactly if there is none, or it is signed and the
/// signature matches.
pub proof fn law_message_verdict(p: ParticipantData, matches: bool, r: Result<(), SlateError>)
    requires
        call_ensures(ParticipantData::message_verdict, (&p, matches), r),
    ensures
        r is Ok <==> p.message is None || p.message_sig is Some && matches,
        r is Err ==> is_message_error(p, r->Err_0),
{
}

/// The messages are accepted exactly if those of all participants are; else the error is that
/// of the first that is not.
pub proof fn law_verify_messages(slate: Slate, r: Result<(), SlateError>)
    requires
        call_ensures(Slate::verify_messages, (&slate,), r),
    ensures
        r is Ok <==> forall|i: int|
            0 <= i < slate.participant_data@.len() ==> message_is_signed(
                #[trigger] slate.participant_data@[i],
            ),
        r is Err ==> exists|i: int|
            {
                &&& 0 <= i < slate.participant_data@.len()
                &&& !message_is_signed(#[trigger] slate.participant_data@[i])
                &&& is_message_error(slate.participant_data@[i], r->Err_0)
                &&& forall|j: int|
                    0 <= j < i ==> message_is_signed(#[trigger] slate.participant_data@[j])
            },
{
    lemma_verify_messages(slate, r, 0);
}

proof fn lemma_verify_messages(slate: Slate, r: Result<(), SlateError>, from: int)
    requires
        crate::error::outcome(r) == slate@.messages_check_from(from),
        0 <= from <= slate.participant_data@.len(),
        forall|j: int| 0 <= j < from ==> message_is_signed(#[trigger] slate.participant_data@[j]),
    ensures
        r is Ok <==> forall|i: int|
            0 <= i < slate.participant_data@.len() ==> message_is_signed(
                #[trigger] slate.participant_data@[i],
            ),
        r is Err ==> exists|i: int|
            {
                &&& 0 <= i < slate.participant_data@.len()
                &&& !message_is_signed(#[trigger] slate.participant_data@[i])
                &&& is_message_error(slate.participant_data@[i], r->Err_0)
                &&& forall|j: int|
                    0 <= j < i ==> message_is_signed(#[trigger] slate.participant_data@[j])
            },
    decreases slate.participant_data@.len() - from,
{
    assert(slate@.participant_data.len() == slate.participant_data@.len());
    if from < slate.participant_data@.len() {
        let p = slate.participant_data@[from];
        assert(slate@.participant_data[from] == p@);
        if slate@.message_fault(from) is None {
            assert(message_is_signed(p));
            lemma_verify_messages(slate, r, from + 1);
        } else {
            assert(!message_is_signed(slate.participant_data@[from]));
        }
    }
}

/// `m` is the message of `p`, with the id, the key and the signature that go with it.
pub open spec fn is_message_of(m: ParticipantMessageData, p: ParticipantData) -> bool {
    &&& m.id == p.id
    &&& m.public_key == p.public_blind_excess
    &&& crate::laws::same::same_text(m.message, p.message)
    &&& m.message_sig == p.message_sig
}

/// The message data of a participant has its id, its key, its message and the signature.
pub proof fn law_message_data(p: ParticipantData, r: ParticipantMessageData)
    requires
        call_ensures(ParticipantMessageData::from_participant_data, (&p,), r),
    ensures
        is_message_of(r, p),
{
}

/// The messages of a slate are those of all its participants, in order.
pub proof fn law_participant_messages(slate: Slate, r: ParticipantMessages)
    requires
        call_ensures(Slate::participant_messages, (&slate,), r),
    ensures
        r.messages@.len() == slate.participant_data@.len(),
        forall|i: int|
            0 <= i < r.messages@.len() ==> is_message_of(
                #[trigger] r.messages@[i],
                slate.participant_data@[i],
            ),
{
    assert(r@.len() == r.messages@.len());
    assert(slate@.messages().len() == slate.participant_data@.len());
    assert forall|i: int| 0 <= i < r.messages@.len() implies is_message_of(
        #[trigger] r.messages@[i],
        slate.participant_data@[i],
    ) by {
        assert(r@[i] == r.messages@[i]@);
        assert(slate@.messages()[i] == slate.participant_data@[i]@.message_data());
    }
}

} // verus!
