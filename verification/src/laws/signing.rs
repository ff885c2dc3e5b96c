//! The sums of keys and nonces, the partial signatures and the joint one.
use crate::crypto::{PublicKey, SecretKey, Signature};
use crate::error::SlateError;
use crate::laws::same::lemma_same_participants;
use crate::participant::{ParticipantData, ParticipantView};
use crate::slate::Slate;
use vstd::prelude::*;

verus! {

// Sums

/// The public nonces in a slate, in order.
pub open spec fn published_nonces(slate: Slate) -> Seq<Seq<u8>> {
    Seq::new(
        slate.participant_data@.len(),
        |i: int| slate.participant_data@[i].public_nonce@,
    )
}

/// The public keys in a slate, in order.
pub open spec fn published_keys(slate: Slate) -> Seq<Seq<u8>> {
    Seq::new(
        slate.participant_data@.len(),
        |i: int| slate.participant_data@[i].public_blind_excess@,
    )
}

proof fn lemma_published(slate: Slate)
    ensures
        published_nonces(slate) == crate::rounds::nonces(slate@.participant_data),
        published_keys(slate) == crate::rounds::keys(slate@.participant_data),
{
    assert(published_nonces(slate) =~= crate::rounds::nonces(slate@.participant_data));
    assert(published_keys(slate) =~= crate::rounds::keys(slate@.participant_data));
}

/// The sum of `keys` as points of the curve, or an error: for no keys the given text, for
/// keys that have no sum one of the curve.
pub open spec fn is_sum(
    r: Result<PublicKey, SlateError>,
    keys: Seq<Seq<u8>>,
    empty: Seq<char>,
) -> bool {
    if keys.len() == 0 {
        r matches Err(SlateError::GenericError(text)) && text@ == empty
    } else {
        match crate::crypto::combined_key(keys.to_multiset()) {
            Some(sum) => r is Ok && r->Ok_0@ == sum,
            None => r matches Err(SlateError::Secp(_)),
        }
    }
}

/// The sum of the nonces is that of the public nonces of all participants. Where they are
/// those of secret nonces, it is the public key of the sum of the secret nonces.
pub proof fn law_nonce_sum(slate: Slate, r: Result<PublicKey, SlateError>, secrets: Seq<Seq<u8>>)
    requires
        call_ensures(Slate::pub_nonce_sum, (&slate,), r),
    ensures
        is_sum(r, published_nonces(slate), "Participant nonces cannot be empty"@),
        secrets.len() > 0 && crate::crypto::are_public_keys(published_nonces(slate), secrets) ==> {
            let sum = crate::crypto::factor_sum(secrets) % crate::crypto::curve_order();
            &&& r is Ok <==> sum != 0
            &&& r is Ok ==> crate::crypto::is_public_key_of(r->Ok_0@, sum)
        },
{
    lemma_published(slate);
}

/// The sum of the keys is that of the public keys of all participants. Where they are those
/// of secret keys, it is the public key of the sum of the secret keys.
pub proof fn law_key_sum(slate: Slate, r: Result<PublicKey, SlateError>, secrets: Seq<Seq<u8>>)
    requires
        call_ensures(Slate::pub_blind_sum, (&slate,), r),
    ensures
        is_sum(r, published_keys(slate), "Participant Blind sums cannot be empty"@),
        secrets.len() > 0 && crate::crypto::are_public_keys(published_keys(slate), secrets) ==> {
            let sum = crate::crypto::factor_sum(secrets) % crate::crypto::curve_order();
            &&& r is Ok <==> sum != 0
            &&& r is Ok ==> crate::crypto::is_public_key_of(r->Ok_0@, sum)
        },
{
    lemma_published(slate);
}

// Partial signatures

/// The sum of the public nonces, where there is one.
pub open spec fn whole_nonce(slate: Slate) -> Option<Seq<u8>> {
    crate::crypto::combined_key(published_nonces(slate).to_multiset())
}

/// The sum of the public keys, where there is one.
pub open spec fn whole_key(slate: Slate) -> Option<Seq<u8>> {
    crate::crypto::combined_key(published_keys(slate).to_multiset())
}

/// The message that the participants of a slate sign.
pub open spec fn signed_message(slate: Slate) -> Seq<u8> {
    crate::laws::kernel::terms_message(slate.fee, slate.lock_height)
}

/// The participant at place `i` has a partial signature.
pub open spec fn has_signed(slate: Slate, i: int) -> bool {
    slate.participant_data@[i].part_sig is Some
}

/// The partial signature at place `i` is valid for the key at that place, under the sums of
/// all nonces and all keys.
pub open spec fn part_is_valid(slate: Slate, i: int) -> bool {
    &&& whole_nonce(slate) is Some
    &&& whole_key(slate) is Some
    &&& crate::crypto::partial_signature_valid(
        slate.participant_data@[i].part_sig->Some_0@,
        whole_nonce(slate)->Some_0,
        slate.participant_data@[i].public_blind_excess@,
        whole_key(slate)->Some_0,
        signed_message(slate),
    )
}

/// Every partial signature that is there, at whatever place and of whatever id, is valid.
pub open spec fn parts_are_valid(slate: Slate) -> bool {
    forall|i: int|
        0 <= i < slate.participant_data@.len() && #[trigger] has_signed(slate, i) ==> part_is_valid(
            slate,
            i,
        )
}

proof fn lemma_parts(slate: Slate)
    ensures
        slate@.part_sigs_check() is Ok <==> parts_are_valid(slate),
        slate@.message() == signed_message(slate),
        slate.participant_data@.len() > 0 ==> {
            &&& slate@.nonce_sum() is Ok <==> whole_nonce(slate) is Some
            &&& slate@.nonce_sum() is Ok ==> slate@.nonce_sum()->Ok_0
                == whole_nonce(slate)->Some_0
            &&& slate@.key_sum() is Ok <==> whole_key(slate) is Some
            &&& slate@.key_sum() is Ok ==> slate@.key_sum()->Ok_0 == whole_key(slate)->Some_0
        },
        slate.participant_data@.len() == 0 ==> slate@.nonce_sum() is Err,
        slate@.has_part_sig() ==> slate.participant_data@.len() > 0,
{
    lemma_published(slate);
    let all = slate.participant_data@;
    let views = slate@.participant_data;
    assert(views.len() == all.len());
    assert forall|i: int| 0 <= i < all.len() implies (has_signed(slate, i) <==> (
    #[trigger] views[i]).part_sig is Some) by {
        assert(views[i] == all[i]@);
    }
    if slate@.part_sigs_check() is Ok {
        assert forall|i: int|
            0 <= i < all.len() && #[trigger] has_signed(slate, i) implies part_is_valid(
            slate,
            i,
        ) by {
            assert(views[i] == all[i]@);
            assert(slate@.has_part_sig());
            assert(!slate@.part_sig_wrong(i, slate@.nonce_sum()->Ok_0, slate@.key_sum()->Ok_0));
        }
    }
    if parts_are_valid(slate) {
        if slate@.has_part_sig() {
            let i = choose|i: int| 0 <= i < views.len() && (#[trigger] views[i]).part_sig is Some;
            assert(has_signed(slate, i));
            let nonce_sum = slate@.nonce_sum()->Ok_0;
            let key_sum = slate@.key_sum()->Ok_0;
            assert forall|j: int| 0 <= j < views.len() implies !#[trigger] slate@.part_sig_wrong(
                j,
                nonce_sum,
                key_sum,
            ) by {
                assert(views[j] == all[j]@);
                if views[j].part_sig is Some {
                    assert(has_signed(slate, j));
                }
            }
        }
    }
}

/// The partial signatures are found valid exactly if each one that is there is valid for the
/// key of its participant under the sums of all nonces and all keys, whatever the id. Else
/// the error says that one is not, or that there is no sum.
pub proof fn law_verify_part_sigs(slate: Slate, r: Result<(), SlateError>)
    requires
        call_ensures(Slate::verify_part_sigs, (&slate,), r),
    ensures
        r is Ok <==> parts_are_valid(slate),
        r is Err ==> {
            if whole_nonce(slate) is Some && whole_key(slate) is Some {
                r->Err_0 is LibTx
            } else {
                r->Err_0 is Secp
            }
        },
{
    lemma_parts(slate);
    lemma_published(slate);
}

/// One wrong partial signature is enough: whoever it belongs to, neither the check nor the
/// second round of anybody accepts it, and the slate stays as it is.
pub proof fn law_wrong_part_stops_round_2(
    slate: &mut Slate,
    i: int,
    key: SecretKey,
    nonce: SecretKey,
    id: usize,
    check: Result<(), SlateError>,
    r: Result<(), SlateError>,
)
    requires
        call_ensures(Slate::verify_part_sigs, (&*old(slate),), check),
        call_ensures(Slate::fill_round_2, (slate, &key, &nonce, id), r),
        0 <= i < old(slate).participant_data@.len(),
        has_signed(*old(slate), i),
        !part_is_valid(*old(slate), i),
    ensures
        check is Err,
        r is Err,
        crate::laws::same::same_slate(*final(slate), *old(slate)),
{
    lemma_parts(*old(slate));
    lemma_same_participants(final(slate).participant_data@, old(slate).participant_data@);
}

/// The partial signature that `key` makes with `nonce` in this slate.
pub open spec fn own_part(slate: Slate, key: SecretKey, nonce: SecretKey) -> Option<Seq<u8>> {
    crate::crypto::partial_signature(
        key@,
        nonce@,
        whole_nonce(slate)->Some_0,
        whole_key(slate)->Some_0,
        signed_message(slate),
    )
}

/// The caller can sign: every partial signature that is there is valid, the nonces and the
/// keys have sums, and the key makes a signature.
pub open spec fn can_sign(slate: Slate, key: SecretKey, nonce: SecretKey) -> bool {
    &&& slate.participant_data@.len() > 0
    &&& parts_are_valid(slate)
    &&& whole_nonce(slate) is Some
    &&& whole_key(slate) is Some
    &&& own_part(slate, key, nonce) is Some
}

/// The error where a signature cannot be made: without participants there are no nonces; where
/// nonces or keys have no sum it is one of the curve; else a signature is wrong or cannot be
/// made.
pub open spec fn is_signing_error(slate: Slate, e: SlateError) -> bool {
    if slate.participant_data@.len() == 0 {
        e matches SlateError::GenericError(text) && text@ == "Participant nonces cannot be empty"@
    } else if whole_nonce(slate) is None || whole_key(slate) is None {
        e is Secp
    } else {
        e is LibTx
    }
}

/// The caller's part of the joint signature is the one that the key makes with the nonce,
/// under the sums of all nonces and all keys, and it is made exactly if every part that is
/// there is valid.
pub proof fn law_round_2_signature(
    slate: Slate,
    key: SecretKey,
    nonce: SecretKey,
    r: Result<Signature, SlateError>,
)
    requires
        call_ensures(Slate::round_2_signature, (&slate, &key, &nonce), r),
    ensures
        r is Ok <==> can_sign(slate, key, nonce),
        r is Ok ==> own_part(slate, key, nonce) == Some(r->Ok_0@),
        r is Err ==> is_signing_error(slate, r->Err_0),
{
    lemma_parts(slate);
    lemma_published(slate);
}

/// `i` is the first place of a participant with the given id.
pub open spec fn is_place_of(all: Seq<ParticipantData>, id: u64, i: int) -> bool {
    &&& 0 <= i < all.len()
    &&& all[i].id == id
    &&& forall|j: int| 0 <= j < i ==> (#[trigger] all[j]).id != id
}

/// The participant is as before, but for the partial signature, which is now `signature`.
pub open spec fn signed_anew(
    before: ParticipantData,
    after: ParticipantData,
    signature: Seq<u8>,
) -> bool {
    &&& after.part_sig is Some
    &&& after.part_sig->Some_0@ == signature
    &&& after.id == before.id
    &&& after.public_blind_excess == before.public_blind_excess
    &&& after.public_nonce == before.public_nonce
    &&& crate::laws::same::same_text(after.message, before.message)
    &&& after.message_sig == before.message_sig
}

/// The slate is as before, but for the partial signature of the first participant with the
/// given id, where that one is among the intended number.
pub open spec fn only_part_set(before: Slate, after: Slate, id: u64, signature: Seq<u8>) -> bool {
    &&& crate::laws::same::same_head(after, before)
    &&& crate::laws::same::same_transaction(after.tx, before.tx)
    &&& after.offset == before.offset
    &&& after.participant_data@.len() == before.participant_data@.len()
    &&& forall|i: int|
        0 <= i < before.participant_data@.len() ==> {
            let p = #[trigger] after.participant_data@[i];
            if is_place_of(before.participant_data@, id, i) && i < before.num_participants {
                signed_anew(before.participant_data@[i], p, signature)
            } else {
                crate::laws::same::same_participant(p, before.participant_data@[i])
            }
        }
}

/// The first place by id, as the views have it.
pub proof fn lemma_place_of(all: Seq<ParticipantData>, id: u64, i: int)
    requires
        0 <= i < all.len(),
    ensures
        is_place_of(all, id, i) <==> crate::rounds::place_of(
            crate::participant::participant_views(all),
            id,
        ) == Some(i),
{
    let views = crate::participant::participant_views(all);
    let wanted = |p: ParticipantView| p.id == id;
    assert forall|j: int| 0 <= j < all.len() implies (#[trigger] views[j]).id == all[j].id by {}
    if is_place_of(all, id, i) {
        assert(crate::rounds::is_first(views, wanted, i)) by {
            assert forall|j: int| 0 <= j < i implies !wanted(#[trigger] views[j]) by {
                assert(all[j].id != id);
            }
        }
        crate::rounds::lemma_first_place(views, wanted, i);
    }
    if crate::rounds::place_of(views, id) == Some(i) {
        assert(crate::rounds::is_first(views, wanted, i));
        assert forall|j: int| 0 <= j < i implies (#[trigger] all[j]).id != id by {
            assert(!wanted(views[j]));
        }
    }
}

proof fn lemma_only_part_set(before: Slate, after: Slate, id: u64, signature: Signature)
    requires
        after@ == before@.with_part_sig(id, signature),
    ensures
        only_part_set(before, after, id, signature@),
{
    let old_all = before.participant_data@;
    let new_all = after.participant_data@;
    assert(before@.participant_data.len() == old_all.len());
    assert(after@.participant_data.len() == new_all.len());
    assert forall|i: int| 0 <= i < old_all.len() implies {
        let p = #[trigger] new_all[i];
        if is_place_of(old_all, id, i) && i < before.num_participants {
            signed_anew(old_all[i], p, signature@)
        } else {
            crate::laws::same::same_participant(p, old_all[i])
        }
    } by {
        lemma_place_of(old_all, id, i);
        assert(after@.participant_data[i] == new_all[i]@);
        assert(before@.participant_data[i] == old_all[i]@);
    }
}

/// The error of a second round before all participants have performed the first.
pub open spec fn is_too_early(e: SlateError) -> bool {
    e matches SlateError::GenericError(text) && text@
        == "Round 2 can only be completed after all participants have performed round 1"@
}

/// A partial signature is set for the first participant with the id, and nothing else
/// changes; it is refused as long as there are fewer participants than intended.
pub proof fn law_set_part_sig(
    slate: &mut Slate,
    id: usize,
    signature: Signature,
    r: Result<(), SlateError>,
)
    requires
        call_ensures(Slate::set_part_sig, (slate, id, signature), r),
    ensures
        r is Ok <==> old(slate).num_participants <= old(slate).participant_data@.len(),
        r is Ok ==> only_part_set(*old(slate), *final(slate), id as u64, signature@),
        r is Err ==> is_too_early(r->Err_0) && crate::laws::same::same_slate(
            *final(slate),
            *old(slate),
        ),
{
    assert(old(slate)@.participant_data.len() == old(slate).participant_data@.len());
    if r is Ok {
        lemma_only_part_set(*old(slate), *final(slate), id as u64, signature);
    } else {
        lemma_same_participants(final(slate).participant_data@, old(slate).participant_data@);
    }
}

/// The second round succeeds exactly if every partial signature that is there is valid, the
/// caller can sign and all participants have joined. Then the caller's own part is set for
/// the first participant with the id, and nothing else changes; on failure nothing does.
pub proof fn law_fill_round_2(
    slate: &mut Slate,
    key: SecretKey,
    nonce: SecretKey,
    id: usize,
    r: Result<(), SlateError>,
)
    requires
        call_ensures(Slate::fill_round_2, (slate, &key, &nonce, id), r),
    ensures
        r is Ok <==> can_sign(*old(slate), key, nonce) && old(slate).num_participants <= old(
            slate
        ).participant_data@.len(),
        r is Ok ==> only_part_set(
            *old(slate),
            *final(slate),
            id as u64,
            own_part(*old(slate), key, nonce)->Some_0,
        ),
        r is Err ==> crate::laws::same::same_slate(*final(slate), *old(slate)),
        r is Err && can_sign(*old(slate), key, nonce) ==> is_too_early(r->Err_0),
        r is Err && !can_sign(*old(slate), key, nonce) ==> is_signing_error(
            *old(slate),
            r->Err_0,
        ),
{
    let before = *old(slate);
    lemma_parts(before);
    lemma_published(before);
    assert(before@.participant_data.len() == before.participant_data@.len());
    if r is Ok {
        let bytes = before@.round_2_signature(key@, nonce@)->Ok_0;
        let signature = choose|signature: Signature|
            signature@ == bytes && final(slate)@ == #[trigger] before@.with_part_sig(
                id as u64,
                signature,
            );
        lemma_only_part_set(before, *final(slate), id as u64, signature);
    } else {
        lemma_same_participants(final(slate).participant_data@, before.participant_data@);
    }
}

/// Signing changes neither the sums nor the message: what was valid before a second round is
/// valid after it.
pub proof fn law_round_2_keeps_valid_parts(
    slate: &mut Slate,
    key: SecretKey,
    nonce: SecretKey,
    id: usize,
    r: Result<(), SlateError>,
)
    requires
        call_ensures(Slate::fill_round_2, (slate, &key, &nonce, id), r),
    ensures
        whole_nonce(*final(slate)) == whole_nonce(*old(slate)),
        whole_key(*final(slate)) == whole_key(*old(slate)),
        signed_message(*final(slate)) == signed_message(*old(slate)),
        forall|i: int|
            0 <= i < old(slate).participant_data@.len() && has_signed(*old(slate), i)
                && !is_place_of(old(slate).participant_data@, id as u64, i)
                ==> #[trigger] has_signed(*final(slate), i) && (r is Ok ==> part_is_valid(
                *final(slate),
                i,
            )),
{
    law_fill_round_2(slate, key, nonce, id, r);
    let before = *old(slate);
    let after = *final(slate);
    assert forall|i: int| 0 <= i < before.participant_data@.len() implies (
    #[trigger] published_nonces(after)[i]) == published_nonces(before)[i] && published_keys(
        after,
    )[i] == published_keys(before)[i] by {
        let p = after.participant_data@[i];
    }
    assert(published_nonces(after) =~= published_nonces(before));
    assert(published_keys(after) =~= published_keys(before)) by {
        assert forall|i: int| 0 <= i < before.participant_data@.len() implies published_keys(
            after,
        )[i] == published_keys(before)[i] by {
            assert(published_nonces(after)[i] == published_nonces(before)[i]);
        }
    }
    assert forall|i: int|
        0 <= i < before.participant_data@.len() && has_signed(before, i) && !is_place_of(
            before.participant_data@,
            id as u64,
            i,
        ) implies #[trigger] has_signed(after, i) && (r is Ok ==> part_is_valid(after, i)) by {
        let p = after.participant_data@[i];
    }
}

// The joint signature

/// `places` are the places of the participants who have signed, in order, and `signatures`
/// are their signatures.
pub open spec fn collects(
    all: Seq<ParticipantData>,
    signatures: Seq<Signature>,
    places: Seq<int>,
) -> bool {
    &&& places.len() == signatures.len()
    &&& forall|k: int|
        0 <= k < places.len() ==> 0 <= #[trigger] places[k] < all.len()
            && all[places[k]].part_sig == Some(signatures[k])
    &&& forall|k: int, l: int| 0 <= k < l < places.len() ==> places[k] < places[l]
    &&& forall|i: int|
        0 <= i < all.len() && (#[trigger] all[i]).part_sig is Some ==> places.contains(i)
}

proof fn lemma_collects(all: Seq<ParticipantData>, signatures: Seq<Signature>) -> (places: Seq<int>)
    requires
        crate::crypto::byte_strings(signatures) == crate::participant::participant_views(
            all,
        ).filter(|p: ParticipantView| crate::finalize::is_signed(p)).map_values(
            |p: ParticipantView| p.part_sig->Some_0@,
        ),
    ensures
        collects(all, signatures, places),
    decreases all.len(),
{
    reveal(Seq::filter);
    let signed = |p: ParticipantView| crate::finalize::is_signed(p);
    let bytes = |p: ParticipantView| p.part_sig->Some_0@;
    let views = crate::participant::participant_views(all);
    let strings = crate::crypto::byte_strings(signatures);
    assert(views.len() == all.len());
    assert(strings.len() == signatures.len());
    if all.len() == 0 {
        assert(views.filter(signed).len() == 0);
        Seq::<int>::empty()
    } else {
        let rest = all.drop_last();
        let last = all.len() - 1;
        assert(views.drop_last() =~= crate::participant::participant_views(rest));
        assert(views.last() == all.last()@);
        let kept = views.drop_last().filter(signed);
        if all.last().part_sig is Some {
            assert(views.filter(signed) == kept.push(views.last()));
            let shorter = signatures.drop_last();
            assert(crate::crypto::byte_strings(shorter) =~= strings.drop_last());
            assert(strings.drop_last() =~= kept.map_values(bytes));
            let places = lemma_collects(rest, shorter);
            assert(strings.last() == bytes(views.last()));
            assert(signatures.last()@ == strings.last());
            assert(signatures.last() =~= all.last().part_sig->Some_0);
            let r = places.push(last);
            assert forall|k: int| 0 <= k < r.len() implies 0 <= #[trigger] r[k] < all.len()
                && all[r[k]].part_sig == Some(signatures[k]) by {
                if k < places.len() {
                    assert(0 <= places[k] < rest.len());
                    assert(shorter[k] == signatures[k]);
                    assert(rest[places[k]] == all[places[k]]);
                }
            }
            assert forall|k: int, l: int| 0 <= k < l < r.len() implies r[k] < r[l] by {
                assert(0 <= places[k] < rest.len());
            }
            assert forall|i: int|
                0 <= i < all.len() && (#[trigger] all[i]).part_sig is Some implies r.contains(i) by {
                if i < last {
                    assert(rest[i] == all[i]);
                    assert(places.contains(i));
                    let k = choose|k: int| 0 <= k < places.len() && places[k] == i;
                    assert(r[k] == i);
                } else {
                    assert(r[places.len() as int] == i);
                }
            }
            r
        } else {
            assert(views.filter(signed) == kept);
            let places = lemma_collects(rest, signatures);
            assert forall|k: int| 0 <= k < places.len() implies 0 <= #[trigger] places[k]
                < all.len() && all[places[k]].part_sig == Some(signatures[k]) by {
                assert(0 <= places[k] < rest.len());
                assert(rest[places[k]] == all[places[k]]);
            }
            assert forall|i: int|
                0 <= i < all.len() && (
                #[trigger] all[i]).part_sig is Some implies places.contains(i) by {
                assert(i < last);
                assert(rest[i] == all[i]);
            }
            places
        }
    }
}

/// The partial signatures are collected from every participant who has one, in the order of
/// the participants.
pub proof fn law_part_sigs(slate: Slate, r: Vec<Signature>)
    requires
        call_ensures(Slate::part_sigs, (&slate,), r),
    ensures
        exists|places: Seq<int>| #[trigger] collects(slate.participant_data@, r@, places),
{
    let places = lemma_collects(slate.participant_data@, r@);
}

/// The joint signature is made exactly if every partial signature that is there is valid,
/// they add up, and the sum is a signature for the fee and the lock height under the sum of
/// all keys. It is then that sum. The slate does not change.
pub proof fn law_finalize_signature(
    slate: &mut Slate,
    parts: Vec<Signature>,
    r: Result<Signature, SlateError>,
)
    requires
        call_ensures(Slate::part_sigs, (&*old(slate),), parts),
        call_ensures(Slate::finalize_signature, (slate,), r),
    ensures
        *final(slate) == *old(slate),
        ({
            let before = *old(slate);
            let sum = crate::crypto::added_signatures(
                crate::crypto::byte_strings(parts@),
                whole_nonce(before)->Some_0,
            );
            &&& r is Ok <==> {
                &&& before.participant_data@.len() > 0
                &&& parts_are_valid(before)
                &&& whole_nonce(before) is Some
                &&& whole_key(before) is Some
                &&& sum is Some
                &&& crate::crypto::completed_signature_valid(
                    sum->Some_0,
                    whole_key(before)->Some_0,
                    whole_key(before)->Some_0,
                    signed_message(before),
                )
            }
            &&& r is Ok ==> sum == Some(r->Ok_0@)
            &&& r is Err ==> is_signing_error(before, r->Err_0)
        }),
{
    lemma_parts(*old(slate));
    lemma_published(*old(slate));
}

} // verus!
