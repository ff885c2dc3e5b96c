//! The excess, the fees and the final transaction.
use crate::crypto::{Commitment, PublicKey, Signature};
use crate::error::SlateError;
use crate::laws::same::lemma_same_participants;
use crate::slate::{Slate, SlateView};
use crate::transaction::{Inputs, Transaction, TxKernel};
use vstd::prelude::*;

verus! {

// The excess

/// The number of inputs.
pub open spec fn input_count(inputs: Inputs) -> nat {
    match inputs {
        Inputs::CommitOnly(commits) => commits@.len(),
        Inputs::FeaturesAndCommit(inputs) => inputs@.len(),
    }
}

/// The commitment that input `i` spends.
pub open spec fn spent_commit(inputs: Inputs, i: int) -> Seq<u8> {
    match inputs {
        Inputs::CommitOnly(commits) => commits@[i]@,
        Inputs::FeaturesAndCommit(inputs) => inputs@[i].commit@,
    }
}

/// The commitments of all inputs, in order.
pub open spec fn spent_commits(tx: Transaction) -> Seq<Seq<u8>> {
    Seq::new(input_count(tx.body.inputs), |i: int| spent_commit(tx.body.inputs, i))
}

/// The commitments of all outputs, in order.
pub open spec fn created_commits(tx: Transaction) -> Seq<Seq<u8>> {
    Seq::new(tx.body.outputs@.len(), |i: int| tx.body.outputs@[i].identifier.commit@)
}

/// The fees of the kernels added up, up to the largest `u64`.
pub open spec fn fee_total(kernels: Seq<TxKernel>) -> int
    decreases kernels.len(),
{
    if kernels.len() == 0 {
        0
    } else {
        let sum = fee_total(kernels.drop_last()) + crate::laws::kernel::kernel_fee(kernels.last());
        if sum > u64::MAX {
            u64::MAX as int
        } else {
            sum
        }
    }
}

proof fn lemma_commits(tx: Transaction)
    ensures
        spent_commits(tx) == crate::crypto::byte_strings(tx@.body.inputs.commits()),
        created_commits(tx) == crate::crypto::byte_strings(tx@.body.output_commits()),
        input_count(tx.body.inputs) == tx@.body.inputs.count(),
{
    assert(spent_commits(tx) =~= crate::crypto::byte_strings(tx@.body.inputs.commits()));
    assert(created_commits(tx) =~= crate::crypto::byte_strings(tx@.body.output_commits()));
}

proof fn lemma_fee_total(kernels: Seq<TxKernel>)
    ensures
        fee_total(kernels) == crate::crypto::saturated(
            crate::transaction::fee_sum(kernels) as int,
        ),
    decreases kernels.len(),
{
    if kernels.len() > 0 {
        lemma_fee_total(kernels.drop_last());
    }
}

/// The transaction balances: each input and each output has an opening, and the values of
/// the outputs together with the fee are those of the inputs. Its offset is a key.
pub open spec fn balances(
    tx: Transaction,
    spent: Seq<(u64, Seq<u8>)>,
    created: Seq<(u64, Seq<u8>)>,
) -> bool {
    &&& crate::crypto::all_open(spent_commits(tx), spent)
    &&& crate::crypto::all_open(created_commits(tx), created)
    &&& crate::crypto::value_sum(created) + fee_total(tx.body.kernels@)
        == crate::crypto::value_sum(spent)
    &&& fee_total(tx.body.kernels@) <= i64::MAX
    &&& 0 < crate::crypto::number(tx.offset@) < crate::crypto::curve_order()
}

/// The key that is left of a balanced transaction: the blinding factors of all outputs less
/// those of all inputs and less the offset, modulo the order.
pub open spec fn key_left(
    tx: Transaction,
    spent: Seq<(u64, Seq<u8>)>,
    created: Seq<(u64, Seq<u8>)>,
) -> int {
    (crate::crypto::factor_sum(crate::crypto::blinds(created)) - crate::crypto::factor_sum(
        crate::crypto::blinds(spent),
    ) - crate::crypto::number(tx.offset@)) % crate::crypto::curve_order()
}

/// The blinding factors of all outputs are those of all inputs, modulo the order: nothing is
/// left that an offset could be taken off.
pub open spec fn nothing_left(
    spent: Seq<(u64, Seq<u8>)>,
    created: Seq<(u64, Seq<u8>)>,
) -> bool {
    (crate::crypto::factor_sum(crate::crypto::blinds(created)) - crate::crypto::factor_sum(
        crate::crypto::blinds(spent),
    )) % crate::crypto::curve_order() == 0
}

/// In a slate that is not compact and whose transaction balances, however many inputs and
/// outputs it has, the excess is the commitment to zero under the blinding factors of all
/// outputs less those of all inputs and less the offset. It fails exactly where nothing is
/// left, before the offset is taken off or after.
pub proof fn law_excess_of_balanced_transaction(
    slate: Slate,
    r: Result<Commitment, SlateError>,
    spent: Seq<(u64, Seq<u8>)>,
    created: Seq<(u64, Seq<u8>)>,
)
    requires
        call_ensures(Slate::calc_excess, (&slate,), r),
        !slate.compact_slate,
        balances(slate.tx, spent, created),
    ensures
        r is Ok <==> !nothing_left(spent, created) && key_left(slate.tx, spent, created) != 0,
        r is Ok ==> crate::crypto::commits_to_zero(
            r->Ok_0@,
            key_left(slate.tx, spent, created),
        ),
        nothing_left(spent, created) ==> r is Err && r->Err_0 is Committed,
        r is Err && !nothing_left(spent, created) ==> r->Err_0 is Secp,
{
    lemma_commits(slate.tx);
    lemma_fee_total(slate.tx.body.kernels@);
    assert(slate@.balances(spent, created));
    let order = crate::crypto::curve_order();
    let out = crate::crypto::factor_sum(crate::crypto::blinds(created));
    let inp = crate::crypto::factor_sum(crate::crypto::blinds(spent));
    let offset = crate::crypto::number(slate.tx.offset@);
    vstd::arithmetic::div_mod::lemma_sub_mod_noop(out - inp, offset, order);
    vstd::arithmetic::div_mod::lemma_small_mod(offset as nat, order as nat);
    assert(((out - inp) % order - offset) % order == (out - inp - offset) % order);
}

/// In a slate that is not compact the excess is computed from every input, every output and
/// the fee of every kernel: what they commit to, less the commitment to zero under the
/// offset.
pub proof fn law_excess_reads_the_whole_transaction(
    slate: Slate,
    r: Result<Commitment, SlateError>,
)
    requires
        call_ensures(Slate::calc_excess, (&slate,), r),
        !slate.compact_slate,
    ensures
        ({
            let whole = crate::crypto::transaction_sum(
                spent_commits(slate.tx),
                created_commits(slate.tx),
                (fee_total(slate.tx.body.kernels@) as u64) as i64,
            );
            let offset = crate::crypto::value_commitment(0, slate.tx.offset@);
            let left = crate::crypto::commitment_sum(seq![whole->Some_0], seq![offset->Some_0]);
            let number = crate::crypto::number(slate.tx.offset@);
            &&& r is Ok ==> whole is Some && offset is Some && left == Some(r->Ok_0@)
            &&& r is Ok <==> {
                &&& whole is Some
                &&& 0 < number < crate::crypto::curve_order()
                &&& offset is Some
                &&& left is Some
            }
            &&& r is Err ==> {
                if whole is None {
                    r->Err_0 is Committed
                } else if number >= crate::crypto::curve_order() {
                    r->Err_0 is Keychain
                } else {
                    r->Err_0 is Secp
                }
            }
        }),
{
    lemma_commits(slate.tx);
    lemma_fee_total(slate.tx.body.kernels@);
    crate::laws::offsets::lemma_number_not_negative(slate.tx.offset@);
}

/// In a compact slate the excess is the sum of the keys of all participants as a commitment;
/// the transaction does not matter.
pub proof fn law_excess_of_compact_slate(slate: Slate, r: Result<Commitment, SlateError>)
    requires
        call_ensures(Slate::calc_excess, (&slate,), r),
        slate.compact_slate,
    ensures
        ({
            let key = crate::crypto::combined_key(
                crate::laws::signing::published_keys(slate).to_multiset(),
            );
            &&& r is Ok <==> slate.participant_data@.len() > 0 && key is Some
            &&& r is Ok ==> crate::crypto::key_commitment(key->Some_0) == Some(r->Ok_0@)
            &&& r is Err && slate.participant_data@.len() > 0 ==> r->Err_0 is Secp
            &&& slate.participant_data@.len() == 0 ==> (r matches Err(SlateError::GenericError(text))
                && text@ == "Participant Blind sums cannot be empty"@)
        }),
{
    assert(crate::laws::signing::published_keys(slate) =~= crate::rounds::keys(
        slate@.participant_data,
    ));
}

/// The keys of the participants and the offset are what the transaction leaves.
pub open spec fn keys_match(
    slate: Slate,
    secrets: Seq<Seq<u8>>,
    spent: Seq<(u64, Seq<u8>)>,
    created: Seq<(u64, Seq<u8>)>,
) -> bool {
    &&& crate::crypto::are_public_keys(crate::laws::signing::published_keys(slate), secrets)
    &&& crate::crypto::factor_sum(secrets) % crate::crypto::curve_order() == key_left(
        slate.tx,
        spent,
        created,
    )
}

/// In a slate that is not compact and whose transaction balances with the secret keys of the
/// participants, the excess is the sum of their public keys.
pub proof fn law_balanced_excess_is_key_sum(
    slate: Slate,
    secrets: Seq<Seq<u8>>,
    spent: Seq<(u64, Seq<u8>)>,
    created: Seq<(u64, Seq<u8>)>,
    excess: Result<Commitment, SlateError>,
    key: Result<PublicKey, SlateError>,
)
    requires
        call_ensures(Slate::calc_excess, (&slate,), excess),
        call_ensures(Slate::pub_blind_sum, (&slate,), key),
        !slate.compact_slate,
        key is Ok,
        balances(slate.tx, spent, created),
        !nothing_left(spent, created),
        keys_match(slate, secrets, spent, created),
    ensures
        excess is Ok,
        crate::crypto::key_commitment(key->Ok_0@) == Some(excess->Ok_0@),
        slate@.excess_is_key_sum(),
{
    law_excess_of_balanced_transaction(slate, excess, spent, created);
    crate::laws::signing::law_key_sum(slate, key, secrets);
    assert(crate::laws::signing::published_keys(slate) =~= crate::rounds::keys(
        slate@.participant_data,
    ));
    assert(secrets.len() > 0);
    let left = key_left(slate.tx, spent, created);
    let blind = choose|blind: Seq<u8>|
        blind.len() == 32 && crate::crypto::is_secret_key(blind) && crate::crypto::number(blind)
            == left && #[trigger] crate::crypto::value_commitment(0, blind) == Some(
            excess->Ok_0@,
        ) && crate::crypto::public_key(blind) is Some && crate::crypto::key_commitment(
            crate::crypto::public_key(blind)->Some_0,
        ) == Some(excess->Ok_0@);
    let bytes = choose|bytes: Seq<u8>|
        bytes.len() == 32 && crate::crypto::number(bytes) == left
            && #[trigger] crate::crypto::public_key(bytes) == Some(key->Ok_0@);
    crate::laws::law_number_is_unique(blind, bytes);
}

/// Every participant of the slate has signed with the secret key and the secret nonce at the
/// same place, which are those that were published.
pub open spec fn all_signed(slate: Slate, secrets: Seq<Seq<u8>>, nonces: Seq<Seq<u8>>) -> bool {
    &&& slate.participant_data@.len() > 0
    &&& crate::crypto::are_public_keys(crate::laws::signing::published_keys(slate), secrets)
    &&& crate::crypto::are_public_keys(crate::laws::signing::published_nonces(slate), nonces)
    &&& crate::laws::signing::whole_key(slate) is Some
    &&& crate::laws::signing::whole_nonce(slate) is Some
    &&& forall|i: int|
        0 <= i < slate.participant_data@.len() ==> {
            let p = #[trigger] slate.participant_data@[i];
            &&& p.part_sig is Some
            &&& crate::crypto::partial_signature(
                secrets[i],
                nonces[i],
                crate::laws::signing::whole_nonce(slate)->Some_0,
                crate::laws::signing::whole_key(slate)->Some_0,
                crate::laws::signing::signed_message(slate),
            ) == Some(p.part_sig->Some_0@)
        }
}

proof fn lemma_all_signed(slate: Slate, secrets: Seq<Seq<u8>>, nonces: Seq<Seq<u8>>)
    requires
        all_signed(slate, secrets, nonces),
    ensures
        slate@.fully_signed(),
{
    let keys = crate::laws::signing::published_keys(slate);
    let public = crate::laws::signing::published_nonces(slate);
    assert(keys =~= crate::rounds::keys(slate@.participant_data));
    assert(public =~= crate::rounds::nonces(slate@.participant_data));
    assert(slate@.signed_in_part(secrets, nonces)) by {
        assert forall|i: int| 0 <= i < slate@.participant_data.len() implies {
            let p = #[trigger] slate@.participant_data[i];
            &&& crate::crypto::public_key(secrets[i]) == Some(p.public_blind_excess@)
            &&& crate::crypto::public_key(nonces[i]) == Some(p.public_nonce@)
            &&& p.part_sig is Some ==> crate::crypto::is_part(
                p.part_sig->Some_0@,
                secrets[i],
                nonces[i],
                slate@.nonce_sum()->Ok_0,
                slate@.key_sum()->Ok_0,
                slate@.message(),
            )
        } by {
            assert(slate@.participant_data[i] == slate.participant_data@[i]@);
            assert(crate::crypto::public_key(secrets[i]) == Some(keys[i]));
            assert(crate::crypto::public_key(nonces[i]) == Some(public[i]));
        }
    }
    assert forall|i: int| 0 <= i < slate@.participant_data.len() implies (
    #[trigger] slate@.participant_data[i]).part_sig is Some by {
        assert(slate@.participant_data[i] == slate.participant_data@[i]@);
    }
}

/// A slate that is not compact, that every participant has signed and whose transaction
/// balances with their keys is ready: where it pays the fee that is asked for, nothing but the
/// validation of the whole transaction can refuse it.
pub proof fn law_balanced_slate_is_ready(
    slate: Slate,
    secrets: Seq<Seq<u8>>,
    nonces: Seq<Seq<u8>>,
    spent: Seq<(u64, Seq<u8>)>,
    created: Seq<(u64, Seq<u8>)>,
    base: u64,
    excess: Result<Commitment, SlateError>,
    key: Result<PublicKey, SlateError>,
    check: Result<(), SlateError>,
    fees: Result<(), SlateError>,
)
    requires
        call_ensures(Slate::calc_excess, (&slate,), excess),
        call_ensures(Slate::pub_blind_sum, (&slate,), key),
        call_ensures(Slate::verify_part_sigs, (&slate,), check),
        call_ensures(Slate::check_fees, (&slate, base), fees),
        !slate.compact_slate,
        balances(slate.tx, spent, created),
        !nothing_left(spent, created),
        keys_match(slate, secrets, spent, created),
        all_signed(slate, secrets, nonces),
        check is Ok,
        fees is Ok,
        slate.tx.body.kernels@.len() == 1,
        crate::laws::kernel::pays_and_locks(
            slate.tx.body.kernels@[0].features,
            slate.fee,
            slate.lock_height,
        ),
    ensures
        slate@.ready(base),
{
    lemma_all_signed(slate, secrets, nonces);
    assert(key is Ok);
    law_balanced_excess_is_key_sum(slate, secrets, spent, created, excess, key);
}

/// The inputs are as many as are there, and the commitments that are spent and created are
/// those of all inputs and all outputs, in order.
pub proof fn law_commits(
    tx: Transaction,
    count: usize,
    spent: Vec<Commitment>,
    created: Vec<Commitment>,
)
    requires
        call_ensures(Inputs::len, (&tx.body.inputs,), count),
        call_ensures(Inputs::commits, (&tx.body.inputs,), spent),
        call_ensures(
            crate::transaction::TransactionBody::output_commits,
            (&tx.body,),
            created,
        ),
    ensures
        count == input_count(tx.body.inputs),
        spent@.len() == input_count(tx.body.inputs),
        forall|i: int|
            0 <= i < spent@.len() ==> (#[trigger] spent@[i])@ == spent_commit(tx.body.inputs, i),
        created@.len() == tx.body.outputs@.len(),
        forall|i: int|
            0 <= i < created@.len() ==> #[trigger] created@[i]
                == tx.body.outputs@[i].identifier.commit,
{
}

// Fees

/// The fee that is asked for a transaction: 1 for an input, 21 for an output and 3 for a
/// kernel, each times the base fee, up to the largest `u64`.
pub open spec fn asked_fee(tx: Transaction, base_fee: u64) -> int {
    let weight = input_count(tx.body.inputs) + 21 * tx.body.outputs@.len() + 3
        * tx.body.kernels@.len();
    let counted = if weight > u64::MAX {
        u64::MAX as int
    } else {
        weight as int
    };
    if counted * base_fee > u64::MAX {
        u64::MAX as int
    } else {
        counted * base_fee
    }
}

/// The fee that is required is the one that is asked for every input, output and kernel.
pub proof fn law_required_fee(slate: Slate, base_fee: u64, r: u64)
    requires
        call_ensures(Slate::required_fee, (&slate, base_fee), r),
    ensures
        r == asked_fee(slate.tx, base_fee),
{
    lemma_commits(slate.tx);
    lemma_asked_fee(slate, base_fee);
}

proof fn lemma_asked_fee(slate: Slate, base_fee: u64)
    ensures
        slate@.required_fee(base_fee) == asked_fee(slate.tx, base_fee),
{
    lemma_commits(slate.tx);
    let weight = crate::crypto::saturated(
        (slate@.tx.body.inputs.count() + 21 * slate@.tx.body.outputs.len() + 3
            * slate@.tx.body.kernels.len()) as int,
    );
    assert(0 <= weight * base_fee) by (nonlinear_arith)
        requires
            0 <= weight,
            0 <= base_fee,
    ;
}

/// The fees are accepted exactly if the kernels pay what is asked for and the amount with the
/// fee covers it. What the kernels pay is looked at first. The errors name both numbers.
pub proof fn law_check_fees(slate: Slate, base_fee: u64, r: Result<(), SlateError>)
    requires
        call_ensures(Slate::check_fees, (&slate, base_fee), r),
    ensures
        ({
            let asked = asked_fee(slate.tx, base_fee);
            let paid = fee_total(slate.tx.body.kernels@);
            let received = slate.amount + slate.fee;
            &&& r is Ok <==> asked <= paid && asked <= received
            &&& asked > paid ==> (r matches Err(SlateError::Fee(text)) && text@
                == "Fee Dispute Error: "@ + crate::text::decimal(paid as nat) + ", "@
                + crate::text::decimal(asked as nat))
            &&& asked <= paid && asked > received ==> (r matches Err(SlateError::Fee(text))
                && text@ == "Rejected the transfer because transaction fee ("@
                + crate::crypto::amount_text(asked as u64, false)
                + ") exceeds received amount ("@ + crate::crypto::amount_text(
                received as u64,
                false,
            ) + ")."@)
        }),
{
    lemma_asked_fee(slate, base_fee);
    lemma_fee_total(slate.tx.body.kernels@);
}

// The final transaction

/// A completed transaction has the same offset, inputs and outputs, and one kernel with the
/// features that it had, the excess and the signature.
pub open spec fn is_completed(
    tx: Transaction,
    before: Transaction,
    excess: Seq<u8>,
    signature: Seq<u8>,
) -> bool {
    &&& crate::laws::same::same_but_kernels(tx, before)
    &&& before.body.kernels@.len() == 1
    &&& tx.body.kernels@.len() == 1
    &&& tx.body.kernels@[0].features == before.body.kernels@[0].features
    &&& tx.body.kernels@[0].excess@ == excess
    &&& tx.body.kernels@[0].excess_sig@ == signature
}

/// Completing a transaction puts the excess and the signature into its one kernel and changes
/// nothing else.
pub proof fn law_completed_transaction(
    slate: Slate,
    excess: Commitment,
    signature: Signature,
    r: Transaction,
)
    requires
        slate.tx.body.kernels@.len() == 1,
        call_ensures(Slate::completed_transaction, (&slate, &excess, &signature), r),
    ensures
        is_completed(r, slate.tx, excess@, signature@),
{
    assert(r.body.kernels@ == r@.body.kernels);
}

/// The kernel of a transaction verifies with an excess and a signature.
pub open spec fn kernel_verifies(kernel: TxKernel, excess: Seq<u8>, signature: Seq<u8>) -> bool {
    crate::crypto::kernel_valid(
        kernel.features.kind(),
        kernel.features.fee_field(),
        kernel.features.height_field(),
        excess,
        signature,
    )
}

/// `validate` was asked about the completed transaction and gave this verdict.
pub open spec fn judged<V>(
    validate: V,
    before: Transaction,
    excess: Seq<u8>,
    signature: Seq<u8>,
    verdict: Result<(), grin_core::core::transaction::Error>,
) -> bool where V: Fn(&Transaction) -> Result<(), grin_core::core::transaction::Error> {
    exists|tx: Transaction| #[trigger]
        call_ensures(validate, (&tx,), verdict) && is_completed(tx, before, excess, signature)
}

/// The fees of a slate are accepted at a base fee.
pub open spec fn fees_accepted(slate: Slate, base_fee: u64) -> bool {
    let asked = asked_fee(slate.tx, base_fee);
    asked <= fee_total(slate.tx.body.kernels@) && asked <= slate.amount + slate.fee
}

/// What comes of finalizing a slate with this joint signature and this excess: it succeeds
/// exactly if the signature was made, the fees are accepted, the excess exists, the kernel
/// verifies with the two, and the whole transaction is found valid. The transaction is then
/// completed with the two, and nothing else changes. Else the error is that of the first of
/// these that fails, and nothing changes at all.
pub open spec fn is_finalized<V>(
    before: Slate,
    after: Slate,
    base_fee: u64,
    validate: V,
    signature: Result<Signature, SlateError>,
    excess: Result<Commitment, SlateError>,
    r: Result<(), SlateError>,
) -> bool where V: Fn(&Transaction) -> Result<(), grin_core::core::transaction::Error> {
    let sum = excess->Ok_0@;
    let joint = signature->Ok_0@;
    &&& r is Ok ==> {
        &&& signature is Ok && fees_accepted(before, base_fee) && excess is Ok
        &&& is_completed(after.tx, before.tx, sum, joint)
        &&& kernel_verifies(before.tx.body.kernels@[0], sum, joint)
        &&& crate::laws::same::same_head(after, before)
        &&& crate::laws::same::same_participants(after.participant_data@, before.participant_data@)
        &&& after.offset == before.offset
    }
    &&& r is Err ==> crate::laws::same::same_slate(after, before)
    &&& if signature is Err {
        r is Err && r->Err_0@ == signature->Err_0@
    } else if !fees_accepted(before, base_fee) {
        r is Err && r->Err_0 is Fee
    } else if excess is Err {
        r is Err && r->Err_0@ == excess->Err_0@
    } else if !kernel_verifies(before.tx.body.kernels@[0], sum, joint) {
        r is Err && r->Err_0 is Transaction
    } else {
        exists|verdict: Result<(), grin_core::core::transaction::Error>|
            {
                &&& #[trigger] judged(validate, before.tx, sum, joint, verdict)
                &&& match verdict {
                    Ok(_) => r is Ok,
                    Err(e) => r == Err::<(), SlateError>(SlateError::Transaction(e)),
                }
            }
    }
}

proof fn lemma_finalized<V>(
    before: Slate,
    after: Slate,
    base_fee: u64,
    validate: V,
    signature: Result<Signature, SlateError>,
    excess: Result<Commitment, SlateError>,
    r: Result<(), SlateError>,
) where V: Fn(&Transaction) -> Result<(), grin_core::core::transaction::Error>
    requires
        crate::error::outcome(signature) == before@.final_signature(),
        crate::error::outcome(excess) == before@.excess(),
        signature is Ok && fees_accepted(before, base_fee) && excess is Ok
            ==> before.tx.body.kernels@.len() == 1,
        crate::finalize::finalize_outcome(before@, after@, r, base_fee, validate),
    ensures
        is_finalized(before, after, base_fee, validate, signature, excess, r),
{
    lemma_asked_fee(before, base_fee);
    lemma_fee_total(before.tx.body.kernels@);
    assert(before@.fee_check(base_fee) is Ok <==> fees_accepted(before, base_fee));
    lemma_same_participants(after.participant_data@, before.participant_data@);
    if signature is Ok && fees_accepted(before, base_fee) && excess is Ok {
        let joint = choose|joint: Signature|
            joint@ == signature->Ok_0@ && #[trigger] crate::finalize::transaction_outcome(
                before@,
                after@,
                r,
                joint,
                base_fee,
                validate,
            );
        let sum = choose|sum: Commitment|
            sum@ == excess->Ok_0@ && #[trigger] crate::finalize::completion_outcome(
                before@,
                after@,
                r,
                sum,
                joint,
                validate,
            );
        assert(before.tx.body.kernels@ == before@.tx.body.kernels);
        if kernel_verifies(before.tx.body.kernels@[0], sum@, joint@) {
            lemma_judged(before, after, r, sum, joint, validate);
        }
    }
}

/// Finalizing puts the joint signature and the excess, as a copy of the slate gives them, into the
/// kernel, exactly if everything
/// is in order.
pub proof fn law_finalize<V>(
    slate: &mut Slate,
    copy: &mut Slate,
    base_fee: u64,
    validate: V,
    signature: Result<Signature, SlateError>,
    excess: Result<Commitment, SlateError>,
    r: Result<(), SlateError>,
) where V: Fn(&Transaction) -> Result<(), grin_core::core::transaction::Error>
    requires
        *old(copy) == *old(slate),
        call_ensures(Slate::finalize_signature, (copy,), signature),
        call_ensures(Slate::calc_excess, (&*old(slate),), excess),
        call_ensures(Slate::finalize::<V>, (slate, base_fee, validate), r),
        signature is Ok && fees_accepted(*old(slate), base_fee) && excess is Ok ==> old(
            slate
        ).tx.body.kernels@.len() == 1,
    ensures
        is_finalized(*old(slate), *final(slate), base_fee, validate, signature, excess, r),
{
    lemma_finalized(*old(slate), *final(slate), base_fee, validate, signature, excess, r);
}

/// Finalizing at the fee that the process asks for is finalizing at some fee.
pub proof fn law_finalize_with_accepted_fee<V>(
    slate: &mut Slate,
    copy: &mut Slate,
    validate: V,
    signature: Result<Signature, SlateError>,
    excess: Result<Commitment, SlateError>,
    r: Result<(), SlateError>,
) where V: Fn(&Transaction) -> Result<(), grin_core::core::transaction::Error>
    requires
        *old(copy) == *old(slate),
        call_ensures(Slate::finalize_signature, (copy,), signature),
        call_ensures(Slate::calc_excess, (&*old(slate),), excess),
        call_ensures(Slate::finalize_with_accepted_fee::<V>, (slate, validate), r),
        old(slate).tx.body.kernels@.len() == 1,
    ensures
        exists|base_fee: u64| #[trigger]
            is_finalized(*old(slate), *final(slate), base_fee, validate, signature, excess, r),
{
    let before = *old(slate);
    let after = *final(slate);
    let base = choose|base: u64|
        #[trigger] crate::finalize::finalize_outcome(before@, after@, r, base, validate)
            && crate::finalize::validate_decides(before@, after@, r, base, validate);
    lemma_finalized(before, after, base, validate, signature, excess, r);
}

/// A slate cannot be completed although it has a joint signature: what is asked for is paid,
/// but the amount with the fee is too large a number, or it is covered and the excess exists,
/// but there are more or fewer than one kernel.
pub open spec fn cannot_complete(
    slate: Slate,
    base_fee: u64,
    signature: Result<Signature, SlateError>,
    excess: Result<Commitment, SlateError>,
) -> bool {
    let asked = asked_fee(slate.tx, base_fee);
    &&& signature is Ok
    &&& asked <= fee_total(slate.tx.body.kernels@)
    &&& slate.amount + slate.fee > u64::MAX || asked <= slate.amount + slate.fee && excess is Ok
        && slate.tx.body.kernels@.len() != 1
}

/// Trying to finalize gives none exactly where the slate cannot be completed, and changes
/// nothing then; else it finalizes the slate.
pub proof fn law_try_finalize<V>(
    slate: &mut Slate,
    copy: &mut Slate,
    base_fee: u64,
    validate: V,
    signature: Result<Signature, SlateError>,
    excess: Result<Commitment, SlateError>,
    r: Option<Result<(), SlateError>>,
) where V: Fn(&Transaction) -> Result<(), grin_core::core::transaction::Error>
    requires
        *old(copy) == *old(slate),
        call_ensures(Slate::finalize_signature, (copy,), signature),
        call_ensures(Slate::calc_excess, (&*old(slate),), excess),
        call_ensures(Slate::try_finalize::<V>, (slate, base_fee, validate), r),
    ensures
        r is None <==> cannot_complete(*old(slate), base_fee, signature, excess),
        r is None ==> crate::laws::same::same_slate(*final(slate), *old(slate)),
        r matches Some(result) ==> is_finalized(
            *old(slate),
            *final(slate),
            base_fee,
            validate,
            signature,
            excess,
            result,
        ),
{
    let before = *old(slate);
    lemma_asked_fee(before, base_fee);
    lemma_fee_total(before.tx.body.kernels@);
    if let Some(result) = r {
        lemma_finalized(before, *final(slate), base_fee, validate, signature, excess, result);
    } else {
        lemma_same_participants(final(slate).participant_data@, before.participant_data@);
    }
}

/// Trying to finalize at the fee that the process asks for is trying at some fee.
pub proof fn law_try_finalize_with_accepted_fee<V>(
    slate: &mut Slate,
    copy: &mut Slate,
    validate: V,
    signature: Result<Signature, SlateError>,
    excess: Result<Commitment, SlateError>,
    r: Option<Result<(), SlateError>>,
) where V: Fn(&Transaction) -> Result<(), grin_core::core::transaction::Error>
    requires
        *old(copy) == *old(slate),
        call_ensures(Slate::finalize_signature, (copy,), signature),
        call_ensures(Slate::calc_excess, (&*old(slate),), excess),
        call_ensures(Slate::try_finalize_with_accepted_fee::<V>, (slate, validate), r),
    ensures
        match r {
            None => crate::laws::same::same_slate(*final(slate), *old(slate)) && exists|
                base_fee: u64,
            | #[trigger]
                cannot_complete(*old(slate), base_fee, signature, excess),
            Some(result) => exists|base_fee: u64|
                !cannot_complete(*old(slate), base_fee, signature, excess)
                    && #[trigger] is_finalized(
                    *old(slate),
                    *final(slate),
                    base_fee,
                    validate,
                    signature,
                    excess,
                    result,
                ),
        },
{
    let before = *old(slate);
    let after = *final(slate);
    lemma_fee_total(before.tx.body.kernels@);
    match r {
        None => {
            let base = choose|base: u64| !(#[trigger] before@.can_finalize(base));
            lemma_asked_fee(before, base);
            assert(cannot_complete(before, base, signature, excess));
            lemma_same_participants(after.participant_data@, before.participant_data@);
        },
        Some(result) => {
            let base = choose|base: u64|
                before@.can_finalize(base) && #[trigger] crate::finalize::finalize_outcome(
                    before@,
                    after@,
                    result,
                    base,
                    validate,
                ) && crate::finalize::validate_decides(before@, after@, result, base, validate);
            lemma_asked_fee(before, base);
            lemma_finalized(before, after, base, validate, signature, excess, result);
            assert(!cannot_complete(before, base, signature, excess));
        },
    }
}

/// Checking the fees at what the process asks for is checking them at some fee.
pub proof fn law_check_accepted_fee(slate: Slate, r: Result<(), SlateError>)
    requires
        call_ensures(Slate::check_accepted_fee, (&slate,), r),
    ensures
        exists|base_fee: u64| (r is Ok <==> #[trigger] fees_accepted(slate, base_fee)),
        r is Err ==> r->Err_0 is Fee,
{
    let base = choose|base: u64| crate::error::outcome(r) == #[trigger] slate@.fee_check(base);
    lemma_asked_fee(slate, base);
    lemma_fee_total(slate.tx.body.kernels@);
    assert(r is Ok <==> fees_accepted(slate, base));
}

/// Completing a transaction with an excess and a signature succeeds exactly if the kernel
/// verifies with them and the whole transaction is found valid. On failure nothing changes.
pub proof fn law_complete_transaction<V>(
    slate: &mut Slate,
    excess: Commitment,
    signature: Signature,
    validate: V,
    r: Result<(), SlateError>,
) where V: Fn(&Transaction) -> Result<(), grin_core::core::transaction::Error>
    requires
        old(slate).tx.body.kernels@.len() == 1,
        call_ensures(
            Slate::complete_transaction::<V>,
            (slate, &excess, &signature, validate),
            r,
        ),
    ensures
        r is Ok ==> is_completed(final(slate).tx, old(slate).tx, excess@, signature@)
            && kernel_verifies(old(slate).tx.body.kernels@[0], excess@, signature@),
        crate::laws::same::same_head(*final(slate), *old(slate)),
        crate::laws::same::same_participants(
            final(slate).participant_data@,
            old(slate).participant_data@,
        ),
        final(slate).offset == old(slate).offset,
        r is Err ==> r->Err_0 is Transaction && crate::laws::same::same_slate(
            *final(slate),
            *old(slate),
        ),
        kernel_verifies(old(slate).tx.body.kernels@[0], excess@, signature@) ==> exists|
            verdict: Result<(), grin_core::core::transaction::Error>,
        |
            {
                &&& #[trigger] judged(validate, old(slate).tx, excess@, signature@, verdict)
                &&& match verdict {
                    Ok(_) => r is Ok,
                    Err(e) => r == Err::<(), SlateError>(SlateError::Transaction(e)),
                }
            },
{
    let before = *old(slate);
    let after = *final(slate);
    assert(before.tx.body.kernels@ == before@.tx.body.kernels);
    if kernel_verifies(before.tx.body.kernels@[0], excess@, signature@) {
        lemma_judged(before, after, r, excess, signature, validate);
    }
    lemma_same_participants(after.participant_data@, before.participant_data@);
}

proof fn lemma_judged<V>(
    before: Slate,
    after: Slate,
    r: Result<(), SlateError>,
    excess: Commitment,
    signature: Signature,
    validate: V,
) where V: Fn(&Transaction) -> Result<(), grin_core::core::transaction::Error>
    requires
        before.tx.body.kernels@.len() == 1,
        crate::finalize::verdict_outcome(before@, after@, r, excess, signature, validate),
    ensures
        exists|verdict: Result<(), grin_core::core::transaction::Error>|
            {
                &&& #[trigger] judged(validate, before.tx, excess@, signature@, verdict)
                &&& match verdict {
                    Ok(_) => r is Ok,
                    Err(e) => r == Err::<(), SlateError>(SlateError::Transaction(e)),
                }
            },
        r is Ok ==> is_completed(after.tx, before.tx, excess@, signature@) && after@ == (SlateView {
            tx: after@.tx,
            ..before@
        }),
        r is Err ==> after@ == before@,
{
    let (tx, verdict) = choose|
        tx: Transaction,
        verdict: Result<(), grin_core::core::transaction::Error>,
    | #[trigger]
        call_ensures(validate, (&tx,), verdict) && tx@ == before@.completed_tx(excess, signature)
            && (match verdict {
            Ok(_) => r is Ok && after@ == (SlateView { tx: tx@, ..before@ }),
            Err(e) => r == Err::<(), SlateError>(SlateError::Transaction(e)) && after@ == before@,
        });
    assert(tx.body.kernels@ == tx@.body.kernels);
    assert(is_completed(tx, before.tx, excess@, signature@));
    assert(judged(validate, before.tx, excess@, signature@, verdict));
    if verdict is Ok {
        assert(after.tx.body.kernels@ == tx.body.kernels@);
    }
}

/// A slate that every participant has signed, with the kernel that they signed, and that pays
/// what is asked for is finalized whenever the validation of the whole transaction accepts it.
/// If it is not compact, its transaction has to balance with the keys of the participants.
pub proof fn law_signed_slate_is_finalized<V>(
    slate: &mut Slate,
    secrets: Seq<Seq<u8>>,
    nonces: Seq<Seq<u8>>,
    spent: Seq<(u64, Seq<u8>)>,
    created: Seq<(u64, Seq<u8>)>,
    base_fee: u64,
    validate: V,
    excess: Result<Commitment, SlateError>,
    key: Result<PublicKey, SlateError>,
    check: Result<(), SlateError>,
    fees: Result<(), SlateError>,
    r: Result<(), SlateError>,
) where V: Fn(&Transaction) -> Result<(), grin_core::core::transaction::Error>
    requires
        call_ensures(Slate::calc_excess, (&*old(slate),), excess),
        call_ensures(Slate::pub_blind_sum, (&*old(slate),), key),
        call_ensures(Slate::verify_part_sigs, (&*old(slate),), check),
        call_ensures(Slate::check_fees, (&*old(slate), base_fee), fees),
        call_ensures(Slate::finalize::<V>, (slate, base_fee, validate), r),
        old(slate).compact_slate || balances(old(slate).tx, spent, created) && !nothing_left(
            spent,
            created,
        ) && keys_match(*old(slate), secrets, spent, created),
        all_signed(*old(slate), secrets, nonces),
        check is Ok,
        fees is Ok,
        old(slate).tx.body.kernels@.len() == 1,
        crate::laws::kernel::pays_and_locks(
            old(slate).tx.body.kernels@[0].features,
            old(slate).fee,
            old(slate).lock_height,
        ),
        forall|tx: Transaction, verdict: Result<(), grin_core::core::transaction::Error>|
            #[trigger] call_ensures(validate, (&tx,), verdict) ==> verdict is Ok,
    ensures
        r is Ok,
{
    let before = *old(slate);
    lemma_all_signed(before, secrets, nonces);
    if !before.compact_slate {
        law_balanced_slate_is_ready(
            before,
            secrets,
            nonces,
            spent,
            created,
            base_fee,
            excess,
            key,
            check,
            fees,
        );
    }
    assert(before@.ready(base_fee));
}

} // verus!
