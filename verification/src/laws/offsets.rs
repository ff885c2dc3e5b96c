//! The offset of a transaction, and that of a compact slate.
use crate::crypto::{BlindingFactor, Identifier, SecretKey};
use crate::error::SlateError;
use crate::laws::same::lemma_same_participants;
use crate::offset::{Context, Keychain};
use crate::slate::Slate;
use vstd::prelude::*;

verus! {

/// The slate is as before, but for the offset of its transaction.
pub open spec fn only_tx_offset_set(before: Slate, after: Slate, offset: BlindingFactor) -> bool {
    &&& crate::laws::same::same_head(after, before)
    &&& after.tx.offset == offset
    &&& crate::laws::same::same_inputs(after.tx.body.inputs, before.tx.body.inputs)
    &&& after.tx.body.outputs@ == before.tx.body.outputs@
    &&& after.tx.body.kernels@ == before.tx.body.kernels@
    &&& crate::laws::same::same_participants(after.participant_data@, before.participant_data@)
    &&& after.offset == before.offset
}

/// What is left of a key when an offset is taken off, modulo the order.
pub open spec fn key_less_offset(key: SecretKey, offset: BlindingFactor) -> int {
    (crate::laws::factor_number(key@) - crate::laws::factor_number(offset@))
        % crate::crypto::curve_order()
}

/// The key is split: what is left of it and the offset add up to it. Where nothing is left it
/// stays as it is, and the result is an error.
pub open spec fn is_split(
    before: SecretKey,
    after: SecretKey,
    offset: BlindingFactor,
    r: Result<(), SlateError>,
) -> bool {
    let left = key_less_offset(before, offset);
    &&& r is Ok <==> left != 0
    &&& r is Ok ==> 0 < crate::crypto::number(after@) < crate::crypto::curve_order() && (
    crate::crypto::number(after@) + crate::laws::factor_number(offset@))
        % crate::crypto::curve_order() == crate::laws::factor_number(before@)
    &&& r is Ok ==> crate::crypto::number(after@) == left
    &&& r is Err ==> after == before && r->Err_0 is Keychain
}

proof fn lemma_factor_number(factor: Seq<u8>)
    ensures
        crate::crypto::factor_sum(seq![factor]) == crate::laws::factor_number(factor),
        0 <= crate::laws::factor_number(factor) < crate::crypto::curve_order(),
{
    assert(seq![factor].drop_last() =~= seq![]);
    reveal_with_fuel(crate::crypto::factor_sum, 2);
    lemma_number_not_negative(factor);
}

/// No bytes write a negative number.
pub proof fn lemma_number_not_negative(bytes: Seq<u8>)
    ensures
        crate::crypto::number(bytes) >= 0,
    decreases bytes.len(),
{
    if bytes.len() > 0 {
        lemma_number_not_negative(bytes.drop_last());
    }
}

/// What a split leaves, and what it adds up to.
pub proof fn lemma_split(before: SecretKey, after: SecretKey, offset: BlindingFactor)
    ensures
        crate::offset::split_number(before@, offset@) == key_less_offset(before, offset),
        crate::crypto::number(after@) == key_less_offset(before, offset) ==> (
        crate::crypto::number(after@) + crate::laws::factor_number(offset@))
            % crate::crypto::curve_order() == crate::laws::factor_number(before@)
            && crate::crypto::number(after@) < crate::crypto::curve_order(),
        crate::crypto::number(after@) >= 0,
{
    let order = crate::crypto::curve_order();
    let s = crate::laws::factor_number(before@);
    let o = crate::laws::factor_number(offset@);
    lemma_factor_number(before@);
    lemma_factor_number(offset@);
    lemma_number_not_negative(after@);
    vstd::arithmetic::div_mod::lemma_add_mod_noop(s - o, o, order);
    vstd::arithmetic::div_mod::lemma_small_mod(s as nat, order as nat);
    vstd::arithmetic::div_mod::lemma_small_mod(o as nat, order as nat);
    assert(((s - o) % order + o) % order == s % order);
}

/// Splitting an offset off a key sets the offset of the transaction, and nothing else in the
/// slate; key and offset add up to the key that was split.
pub proof fn law_split_offset(
    slate: &mut Slate,
    key: &mut SecretKey,
    offset: BlindingFactor,
    r: Result<(), SlateError>,
)
    requires
        call_ensures(Slate::split_offset, (slate, key, offset), r),
    ensures
        only_tx_offset_set(*old(slate), *final(slate), offset),
        is_split(*old(key), *final(key), offset, r),
{
    lemma_split(*old(key), *final(key), offset);
    lemma_same_participants(final(slate).participant_data@, old(slate).participant_data@);
}

/// The offset is one that a key can be split by: a number that is not zero and below the
/// order. A fixed one is the numbers from 1234567890 on, each as eight bytes, lowest byte
/// first.
pub open spec fn is_drawn(offset: BlindingFactor, fixed: bool) -> bool {
    &&& 0 < crate::crypto::number(offset@) < crate::crypto::curve_order()
    &&& fixed ==> forall|i: int|
        0 <= i < 32 ==> #[trigger] offset@[i] == (1_234_567_890 + i / 8)
            / vstd::arithmetic::power::pow(256, (i % 8) as nat) % 256
}

/// An offset that is fresh is one that was drawn.
pub proof fn lemma_drawn(offset: BlindingFactor, fixed: bool)
    requires
        crate::offset::is_fresh_offset(offset, fixed),
    ensures
        is_drawn(offset, fixed),
{
    if fixed {
        assert forall|i: int| 0 <= i < 32 implies #[trigger] offset@[i] == (1_234_567_890 + i / 8)
            / vstd::arithmetic::power::pow(256, (i % 8) as nat) % 256 by {
            assert(offset@[i] == crate::offset::test_offset()[i]);
            assert((i / 8) * 1 == i / 8);
        }
    }
}

/// A fresh offset is drawn and split off the key.
pub proof fn law_generate_offset(
    slate: &mut Slate,
    key: &mut SecretKey,
    fixed: bool,
    r: Result<(), SlateError>,
)
    requires
        call_ensures(Slate::generate_legacy_offset, (slate, key, fixed), r),
    ensures
        is_drawn(final(slate).tx.offset, fixed),
        only_tx_offset_set(*old(slate), *final(slate), final(slate).tx.offset),
        is_split(*old(key), *final(key), final(slate).tx.offset, r),
{
    let before = *old(slate);
    let after = *final(slate);
    let key_before = *old(key);
    let key_after = *final(key);
    let offset = choose|offset: BlindingFactor|
        crate::offset::is_fresh_offset(offset, fixed) && #[trigger] crate::offset::split_outcome(
            before@,
            after@,
            key_before,
            key_after,
            offset,
            crate::error::outcome(r),
        );
    lemma_drawn(offset, fixed);
    lemma_split(key_before, key_after, offset);
    lemma_same_participants(after.participant_data@, before.participant_data@);
}

/// The slate is as before, but for its own offset.
pub open spec fn only_offset_set(before: Slate, after: Slate) -> bool {
    &&& crate::laws::same::same_head(after, before)
    &&& crate::laws::same::same_transaction(after.tx, before.tx)
    &&& crate::laws::same::same_participants(after.participant_data@, before.participant_data@)
}

/// The number of the offset after a participant has added to it: the offset as it was with
/// all output keys, less the first secret key and all input keys, modulo the order.
pub open spec fn moved_offset(
    slate: Slate,
    initial: SecretKey,
    input_keys: Seq<Seq<u8>>,
    output_keys: Seq<Seq<u8>>,
) -> int {
    (crate::laws::factor_number(slate.offset@) + crate::crypto::factor_sum(output_keys)
        - crate::laws::factor_number(initial@) - crate::crypto::factor_sum(input_keys))
        % crate::crypto::curve_order()
}

/// The offset was moved, and nothing else; to zero it cannot be moved.
pub open spec fn is_moved(
    before: Slate,
    after: Slate,
    number: int,
    r: Result<(), SlateError>,
) -> bool {
    &&& r is Ok <==> number != 0
    &&& only_offset_set(before, after)
    &&& r is Ok ==> crate::crypto::number(after.offset@) == number
    &&& r is Err ==> after.offset == before.offset && r->Err_0 is Keychain
}

/// Adding to the offset adds all output keys and takes off the first secret key and all input
/// keys.
pub proof fn law_add_to_offset(
    slate: &mut Slate,
    initial: SecretKey,
    input_keys: Vec<SecretKey>,
    output_keys: Vec<SecretKey>,
    r: Result<(), SlateError>,
)
    requires
        call_ensures(Slate::add_to_offset, (slate, &initial, &input_keys, &output_keys), r),
    ensures
        is_moved(
            *old(slate),
            *final(slate),
            moved_offset(
                *old(slate),
                initial,
                Seq::new(input_keys@.len(), |i: int| input_keys@[i]@),
                Seq::new(output_keys@.len(), |i: int| output_keys@[i]@),
            ),
            r,
        ),
{
    let ins = crate::crypto::byte_strings(input_keys@);
    let outs = crate::crypto::byte_strings(output_keys@);
    assert(ins =~= Seq::new(input_keys@.len(), |i: int| input_keys@[i]@));
    assert(outs =~= Seq::new(output_keys@.len(), |i: int| output_keys@[i]@));
    crate::laws::law_adjusted_offset(old(slate)@, initial@, ins, outs);
    lemma_same_participants(final(slate).participant_data@, old(slate).participant_data@);
}

/// `keys` are the keys that the keychain derives for the inputs or outputs, in order, each
/// from its own identifier and amount.
pub open spec fn are_derived(
    keychain: Keychain,
    ids: Seq<(Identifier, Option<u64>, u64)>,
    keys: Seq<Seq<u8>>,
) -> bool {
    &&& keys.len() == ids.len()
    &&& forall|i: int|
        0 <= i < ids.len() ==> crate::crypto::derived_key(
            keychain.seed@,
            keychain.is_test,
            (#[trigger] ids[i]).2,
            ids[i].0@,
        ) == Some(keys[i])
}

proof fn lemma_derived(
    keychain: Keychain,
    ids: Seq<(Identifier, Option<u64>, u64)>,
    keys: Seq<Seq<u8>>,
)
    requires
        are_derived(keychain, ids, keys),
    ensures
        keychain.has_keys_for(ids),
        keychain.keys_for(ids) == keys,
{
    assert forall|i: int| 0 <= i < ids.len() implies keychain.key_for(#[trigger] ids[i])
        == Some(keys[i]) by {}
    assert(keychain.keys_for(ids) =~= keys);
}

/// Adjusting the offset adds the keys of all outputs of the caller and takes off those of all
/// its inputs and its first secret key.
pub proof fn law_adjust_offset(
    slate: &mut Slate,
    keychain: Keychain,
    context: Context,
    input_keys: Seq<Seq<u8>>,
    output_keys: Seq<Seq<u8>>,
    r: Result<(), SlateError>,
)
    requires
        call_ensures(Slate::adjust_offset, (slate, &keychain, &context), r),
        are_derived(keychain, context.input_ids@, input_keys),
        are_derived(keychain, context.output_ids@, output_keys),
    ensures
        is_moved(
            *old(slate),
            *final(slate),
            moved_offset(*old(slate), context.initial_sec_key, input_keys, output_keys),
            r,
        ),
{
    lemma_derived(keychain, context.input_ids@, input_keys);
    lemma_derived(keychain, context.output_ids@, output_keys);
    crate::laws::law_adjusted_offset(
        old(slate)@,
        context.initial_sec_key@,
        input_keys,
        output_keys,
    );
    lemma_same_participants(final(slate).participant_data@, old(slate).participant_data@);
}

/// Where the keychain has no key for an input or an output of the caller, adjusting the
/// offset fails and changes nothing.
pub proof fn law_adjust_offset_without_key(
    slate: &mut Slate,
    keychain: Keychain,
    context: Context,
    i: int,
    r: Result<(), SlateError>,
)
    requires
        call_ensures(Slate::adjust_offset, (slate, &keychain, &context), r),
        0 <= i < context.input_ids@.len() && crate::crypto::derived_key(
            keychain.seed@,
            keychain.is_test,
            context.input_ids@[i].2,
            context.input_ids@[i].0@,
        ) is None || 0 <= i < context.output_ids@.len() && crate::crypto::derived_key(
            keychain.seed@,
            keychain.is_test,
            context.output_ids@[i].2,
            context.output_ids@[i].0@,
        ) is None,
    ensures
        r is Err && r->Err_0 is Keychain,
        crate::laws::same::same_slate(*final(slate), *old(slate)),
{
    if keychain.has_keys_for(context.input_ids@) && 0 <= i < context.input_ids@.len() {
        assert(keychain.key_for(context.input_ids@[i]) is Some);
    }
    if keychain.has_keys_for(context.output_ids@) && 0 <= i < context.output_ids@.len() {
        assert(keychain.key_for(context.output_ids@[i]) is Some);
    }
    lemma_same_participants(final(slate).participant_data@, old(slate).participant_data@);
}

} // verus!
