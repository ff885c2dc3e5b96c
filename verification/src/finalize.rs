//! The last step: the joint signature, the excess and the finished transaction.
use crate::crypto::{
    accept_fee_base, add_signatures, amount_to_text, blind_secret_key, commit, commit_to_key,
    sum_commits, sum_transaction, transaction_weight, verify_completed, verify_kernel, Commitment,
    Message, PublicKey, SecretKey, Signature,
};
use crate::error::{SlateError, SlateErrorView};
use crate::participant::ParticipantView;
use crate::slate::{Slate, SlateView};
use crate::text::decimal_text;
use crate::transaction::{Transaction, TransactionView, TxKernel};
use vstd::prelude::*;
use vstd::string::*;

verus! {

/// What an option says to fail with where it holds nothing.
pub open spec fn or_error(value: Option<Seq<u8>>, error: SlateErrorView) -> Result<
    Seq<u8>,
    SlateErrorView,
> {
    match value {
        Some(bytes) => Ok(bytes),
        None => Err(error),
    }
}

/// A participant has a partial signature.
pub open spec fn is_signed(p: ParticipantView) -> bool {
    p.part_sig is Some
}

/// The error of a transfer whose amount does not cover the fee, from the two as text.
pub open spec fn spec_fee_rejection(fee: Seq<char>, received: Seq<char>) -> SlateErrorView {
    SlateErrorView::Fee(
        "Rejected the transfer because transaction fee ("@ + fee + ") exceeds received amount ("@
            + received + ")."@,
    )
}

/// The error of a transfer whose amount does not cover the fee, from the two as text.
pub fn fee_rejection(fee: &str, received: &str) -> (r: SlateError)
    ensures
        r@ == spec_fee_rejection(fee@, received@),
{
    let mut reason: String = "Rejected the transfer because transaction fee (".to_string();
    reason.append(fee);
    reason.append(") exceeds received amount (");
    reason.append(received);
    reason.append(").");
    SlateError::Fee(reason)
}

impl SlateView {
    /// The partial signatures that are there, in the order of the participants.
    pub open spec fn part_sigs(self) -> Seq<Seq<u8>> {
        self.participant_data.filter(|p: ParticipantView| is_signed(p)).map_values(
            |p: ParticipantView| p.part_sig->Some_0@,
        )
    }

    /// The joint signature: the valid parts added up, where the sum is a signature
    /// under the sum of the keys.
    pub open spec fn final_signature(self) -> Result<Seq<u8>, SlateErrorView> {
        match (self.part_sigs_check(), self.nonce_sum(), self.key_sum()) {
            (Err(e), _, _) => Err(e),
            (Ok(_), Err(e), _) => Err(e),
            (Ok(_), Ok(_), Err(e)) => Err(e),
            (Ok(_), Ok(nonce_sum), Ok(key_sum)) => match crate::crypto::added_signatures(
                self.part_sigs(),
                nonce_sum,
            ) {
                None => Err(SlateErrorView::LibTx),
                Some(signature) => if crate::crypto::completed_signature_valid(
                    signature,
                    key_sum,
                    key_sum,
                    self.message(),
                ) {
                    Ok(signature)
                } else {
                    Err(SlateErrorView::LibTx)
                },
            },
        }
    }

    /// What the outputs and the fee of the transaction commit to beyond its inputs.
    pub open spec fn transaction_excess(self) -> Result<Seq<u8>, SlateErrorView> {
        or_error(
            crate::crypto::transaction_sum(
                crate::crypto::byte_strings(self.tx.body.inputs.commits()),
                crate::crypto::byte_strings(self.tx.body.output_commits()),
                self.tx.body.fee() as i64,
            ),
            SlateErrorView::Committed,
        )
    }

    /// The commitment to zero under the offset of the transaction. A zero offset has none.
    pub open spec fn offset_excess(self) -> Result<Seq<u8>, SlateErrorView> {
        if crate::crypto::number(self.tx.offset@) >= crate::crypto::curve_order() {
            Err(SlateErrorView::Keychain)
        } else if crate::crypto::number(self.tx.offset@) == 0 {
            Err(SlateErrorView::Secp)
        } else {
            or_error(
                crate::crypto::value_commitment(0, self.tx.offset@),
                SlateErrorView::Secp,
            )
        }
    }

    /// The excess of the transaction. In a compact slate it is the sum of the keys;
    /// else it is what the transaction commits to, less its offset.
    pub open spec fn excess(self) -> Result<Seq<u8>, SlateErrorView> {
        if self.compact_slate {
            match self.key_sum() {
                Ok(sum) => or_error(crate::crypto::key_commitment(sum), SlateErrorView::Secp),
                Err(e) => Err(e),
            }
        } else {
            match (self.transaction_excess(), self.offset_excess()) {
                (Err(e), _) => Err(e),
                (Ok(_), Err(e)) => Err(e),
                (Ok(whole), Ok(offset)) => or_error(
                    crate::crypto::commitment_sum(seq![whole], seq![offset]),
                    SlateErrorView::Secp,
                ),
            }
        }
    }

    /// The transaction balances: `spent` opens its inputs and `created` its outputs, and with
    /// the fee the outputs are worth what the inputs are. It has an offset.
    pub open spec fn balances(
        self,
        spent: Seq<(u64, Seq<u8>)>,
        created: Seq<(u64, Seq<u8>)>,
    ) -> bool {
        &&& crate::crypto::all_open(
            crate::crypto::byte_strings(self.tx.body.inputs.commits()),
            spent,
        )
        &&& crate::crypto::all_open(
            crate::crypto::byte_strings(self.tx.body.output_commits()),
            created,
        )
        &&& self.tx.body.fee() <= i64::MAX
        &&& crate::crypto::value_sum(created) + self.tx.body.fee() == crate::crypto::value_sum(
            spent,
        )
        &&& crate::crypto::is_secret_key(self.tx.offset@)
    }

    /// The fee that is asked for this transaction at `base` for a unit of weight,
    /// or the largest `u64` where it is beyond it.
    pub open spec fn required_fee(self, base: u64) -> u64 {
        let weight = crate::crypto::saturated(
            (self.tx.body.inputs.count() + 21 * self.tx.body.outputs.len() + 3
                * self.tx.body.kernels.len()) as int,
        );
        crate::crypto::saturated(weight * base)
    }

    /// The amount with the fee is a number that can be compared with a fee, where
    /// it is compared at all.
    pub open spec fn fees_defined(self, base: u64) -> bool {
        self.required_fee(base) <= self.tx.body.fee() ==> self.amount + self.fee <= u64::MAX
    }

    /// The transaction pays the fee that is asked for, and the amount with the
    /// fee covers it.
    pub open spec fn fee_check(self, base: u64) -> Result<(), SlateErrorView> {
        let required = self.required_fee(base);
        if required > self.tx.body.fee() {
            Err(
                SlateErrorView::Fee(
                    "Fee Dispute Error: "@ + crate::text::decimal(self.tx.body.fee() as nat) + ", "@
                        + crate::text::decimal(required as nat),
                ),
            )
        } else if required > self.amount + self.fee {
            Err(
                spec_fee_rejection(
                    crate::crypto::amount_text(required, false),
                    crate::crypto::amount_text((self.amount + self.fee) as u64, false),
                ),
            )
        } else {
            Ok(())
        }
    }

    /// The transaction with `excess` and `signature` in its one kernel.
    pub open spec fn completed_tx(self, excess: Commitment, signature: Signature) -> TransactionView {
        self.tx.with_kernel(
            TxKernel {
                excess,
                excess_sig: signature,
                ..self.tx.body.kernels[0]
            },
        )
    }

    /// The one kernel is valid with `excess` and `signature` in it.
    pub open spec fn kernel_check(self, excess: Seq<u8>, signature: Seq<u8>) -> Result<
        (),
        SlateErrorView,
    > {
        let features = self.tx.body.kernels[0].features;
        if crate::crypto::kernel_valid(
            features.kind(),
            features.fee_field(),
            features.height_field(),
            excess,
            signature,
        ) {
            Ok(())
        } else {
            Err(SlateErrorView::Transaction)
        }
    }

    /// `signature` is a joint signature for the one kernel under the key that `excess`
    /// commits to.
    pub open spec fn joint_kernel(self, excess: Seq<u8>, signature: Seq<u8>) -> bool {
        let features = self.tx.body.kernels[0].features;
        features.valid() && crate::crypto::is_joint_kernel_signature(
            signature,
            excess,
            crate::crypto::kernel_message(
                features.kind(),
                features.fee_field(),
                features.height_field(),
            ),
        )
    }

    /// The excess commits to the sum of the keys. In a compact slate it always does; in
    /// others it does where the transaction balances.
    pub open spec fn excess_is_key_sum(self) -> bool {
        self.compact_slate || (self.excess() is Ok && self.key_sum() is Ok
            && crate::crypto::key_commitment(self.key_sum()->Ok_0) == Some(self.excess()->Ok_0))
    }

    /// A slate that every participant has signed, with the kernel that they signed, with an
    /// excess that commits to their keys, and with fees that are accepted.
    pub open spec fn ready(self, base: u64) -> bool {
        &&& self.excess_is_key_sum()
        &&& self.fully_signed()
        &&& self.part_sigs_check() is Ok
        &&& self.tx.body.kernels.len() == 1
        &&& self.tx.body.kernels[0].features == self.kernel_features()
        &&& self.fee_check(base) is Ok
    }

    /// A kernel can be completed where one has to be: there is exactly one.
    pub open spec fn can_complete(self, base: u64) -> bool {
        self.fees_defined(base) && (self.fee_check(base) is Ok && self.excess() is Ok
            ==> self.tx.body.kernels.len() == 1)
    }

    /// Where the joint signature exists, the transaction can be completed with it.
    pub open spec fn can_finalize(self, base: u64) -> bool {
        self.final_signature() is Ok ==> self.can_complete(base)
    }
}

/// What the excess of a transaction is whose blinding factors differ by `whole` and that has
/// the given offset, where it balances: the commitment to zero under the key that is left of
/// the difference when the offset is taken off. Neither of the two may be zero.
pub open spec fn balanced_excess(
    result: Result<Commitment, SlateError>,
    whole: int,
    offset: int,
) -> bool {
    let left = (whole - offset) % crate::crypto::curve_order();
    if whole == 0 {
        crate::error::outcome(result) == Err::<Seq<u8>, SlateErrorView>(SlateErrorView::Committed)
    } else if left == 0 {
        crate::error::outcome(result) == Err::<Seq<u8>, SlateErrorView>(SlateErrorView::Secp)
    } else {
        result is Ok && crate::crypto::commits_to_zero(result->Ok_0@, left)
    }
}

/// `validate` decides: the transaction with `excess` and `signature` in its kernel takes the
/// place of that of `before`, or is refused, and then nothing changes.
pub open spec fn verdict_outcome<V>(
    before: SlateView,
    after: SlateView,
    result: Result<(), SlateError>,
    excess: Commitment,
    signature: Signature,
    validate: V,
) -> bool where V: Fn(&Transaction) -> Result<(), grin_core::core::transaction::Error> {
    exists|tx: Transaction, verdict: Result<(), grin_core::core::transaction::Error>| #[trigger]
        call_ensures(validate, (&tx,), verdict) && tx@ == before.completed_tx(excess, signature) && (
        match verdict {
            Ok(_) => result is Ok && after == (SlateView { tx: tx@, ..before }),
            Err(e) => result == Err::<(), SlateError>(SlateError::Transaction(e)) && after
                == before,
        })
}

/// What comes of completing the transaction of `before` with `excess` and
/// `signature`: the kernel has to be valid, and then `validate` has the last word on
/// the whole transaction. On failure nothing changes.
pub open spec fn completion_outcome<V>(
    before: SlateView,
    after: SlateView,
    result: Result<(), SlateError>,
    excess: Commitment,
    signature: Signature,
    validate: V,
) -> bool where V: Fn(&Transaction) -> Result<(), grin_core::core::transaction::Error> {
    match before.kernel_check(excess@, signature@) {
        Err(e) => crate::error::outcome(result) == Err::<(), SlateErrorView>(e) && after == before,
        Ok(_) => verdict_outcome(before, after, result, excess, signature, validate),
    }
}

/// What comes of finishing the transaction of `before` with the joint signature
/// at `base` for a unit of weight: the fees are checked, the excess is computed,
/// and the transaction is completed.
pub open spec fn transaction_outcome<V>(
    before: SlateView,
    after: SlateView,
    result: Result<(), SlateError>,
    signature: Signature,
    base: u64,
    validate: V,
) -> bool where V: Fn(&Transaction) -> Result<(), grin_core::core::transaction::Error> {
    match (before.fee_check(base), before.excess()) {
        (Err(e), _) => crate::error::outcome(result) == Err::<(), SlateErrorView>(e) && after
            == before,
        (Ok(_), Err(e)) => crate::error::outcome(result) == Err::<(), SlateErrorView>(e) && after
            == before,
        (Ok(_), Ok(bytes)) => exists|excess: Commitment|
            excess@ == bytes && #[trigger] completion_outcome(
                before,
                after,
                result,
                excess,
                signature,
                validate,
            ),
    }
}

/// What comes of finalizing `before`: the joint signature is made, and the
/// transaction is finished with it.
pub open spec fn finalize_outcome<V>(
    before: SlateView,
    after: SlateView,
    result: Result<(), SlateError>,
    base: u64,
    validate: V,
) -> bool where V: Fn(&Transaction) -> Result<(), grin_core::core::transaction::Error> {
    match before.final_signature() {
        Err(e) => crate::error::outcome(result) == Err::<(), SlateErrorView>(e) && after == before,
        Ok(bytes) => exists|signature: Signature|
            signature@ == bytes && #[trigger] transaction_outcome(
                before,
                after,
                result,
                signature,
                base,
                validate,
            ),
    }
}

/// Where `before` is ready, nothing but `validate` can refuse it.
pub open spec fn validate_decides<V>(
    before: SlateView,
    after: SlateView,
    result: Result<(), SlateError>,
    base: u64,
    validate: V,
) -> bool where V: Fn(&Transaction) -> Result<(), grin_core::core::transaction::Error> {
    before.ready(base) ==> exists|excess: Commitment, signature: Signature| #[trigger]
        verdict_outcome(before, after, result, excess, signature, validate)
}

/// Where every participant has signed, the partial signatures are the parts of a joint
/// signature.
proof fn lemma_fully_signed(slate: SlateView)
    requires
        slate.fully_signed(),
    ensures
        exists|secrets: Seq<Seq<u8>>, nonces: Seq<Seq<u8>>| #[trigger]
            crate::crypto::jointly_signed(
                slate.part_sigs(),
                secrets,
                nonces,
                slate.nonce_sum()->Ok_0,
                slate.key_sum()->Ok_0,
                slate.message(),
            ),
{
    let (secrets, nonces) = choose|secrets: Seq<Seq<u8>>, nonces: Seq<Seq<u8>>| #[trigger]
        slate.signed_in_part(secrets, nonces);
    let participants = slate.participant_data;
    lemma_filter_all(participants);
    assert(slate.part_sigs().len() == participants.len());
    assert forall|i: int| 0 <= i < participants.len() implies crate::crypto::public_keys(
        secrets,
    )[i] == crate::rounds::keys(participants)[i] && crate::crypto::public_keys(nonces)[i]
        == crate::rounds::nonces(participants)[i] by {
        let p = participants[i];
    }
    assert(crate::crypto::public_keys(secrets) =~= crate::rounds::keys(participants));
    assert(crate::crypto::public_keys(nonces) =~= crate::rounds::nonces(participants));
    assert forall|i: int|
        0 <= i < slate.part_sigs().len() implies #[trigger] crate::crypto::is_part(
        slate.part_sigs()[i],
        secrets[i],
        nonces[i],
        slate.nonce_sum()->Ok_0,
        slate.key_sum()->Ok_0,
        slate.message(),
    ) by {
        let p = participants[i];
    }
    assert(crate::crypto::jointly_signed(
        slate.part_sigs(),
        secrets,
        nonces,
        slate.nonce_sum()->Ok_0,
        slate.key_sum()->Ok_0,
        slate.message(),
    ));
}

/// Where every participant has signed, no one is left out.
proof fn lemma_filter_all(participants: Seq<ParticipantView>)
    requires
        forall|i: int| 0 <= i < participants.len() ==> is_signed(#[trigger] participants[i]),
    ensures
        participants.filter(|p: ParticipantView| is_signed(p)) == participants,
    decreases participants.len(),
{
    reveal(Seq::filter);
    if participants.len() > 0 {
        let rest = participants.drop_last();
        assert forall|i: int| 0 <= i < rest.len() implies is_signed(#[trigger] rest[i]) by {
            assert(is_signed(participants[i]));
        }
        lemma_filter_all(rest);
        assert(is_signed(participants[participants.len() - 1]));
        assert(rest.push(participants.last()) =~= participants);
    }
}

/// A commitment to zero under `whole` less one under the offset is one under their
/// difference.
proof fn lemma_balanced_excess<E>(
    excess: Result<Commitment, E>,
    tx_excess: Commitment,
    offset_excess: Commitment,
    offset: Seq<u8>,
    whole: int,
)
    requires
        crate::crypto::commits_to_zero(tx_excess@, whole),
        offset.len() == 32,
        crate::crypto::is_secret_key(offset),
        crate::crypto::value_commitment(0, offset) == Some(offset_excess@),
        forall|added: Seq<(u64, Seq<u8>)>, taken: Seq<(u64, Seq<u8>)>|
            #[trigger] crate::crypto::all_open(seq![tx_excess@], added)
                && #[trigger] crate::crypto::all_open(seq![offset_excess@], taken)
                && crate::crypto::value_sum(added) == crate::crypto::value_sum(taken)
                ==> crate::crypto::balanced_sum(excess, added, taken),
    ensures
        ({
            let left = (whole - crate::crypto::number(offset)) % crate::crypto::curve_order();
            &&& left == 0 ==> excess is Err
            &&& left != 0 ==> excess is Ok && crate::crypto::commits_to_zero(excess->Ok_0@, left)
        }),
{
    let blind = choose|blind: Seq<u8>|
        blind.len() == 32 && crate::crypto::is_secret_key(blind) && crate::crypto::number(blind)
            == whole && #[trigger] crate::crypto::value_commitment(0, blind) == Some(tx_excess@);
    let added = seq![(0u64, blind)];
    let taken = seq![(0u64, offset)];
    assert(crate::crypto::all_open(seq![tx_excess@], added));
    assert(crate::crypto::all_open(seq![offset_excess@], taken));
    assert(added.drop_last() =~= seq![] && taken.drop_last() =~= seq![]);
    reveal_with_fuel(crate::crypto::value_sum, 2);
    assert(crate::crypto::value_sum(added) == crate::crypto::value_sum(taken));
    assert(crate::crypto::blinds(added) =~= seq![blind]);
    assert(crate::crypto::blinds(taken) =~= seq![offset]);
    crate::laws::lemma_sum_of_one(blind);
    crate::laws::lemma_sum_of_one(offset);
    assert(crate::crypto::balanced_sum(excess, added, taken));
}

impl Slate {
    /// The partial signatures that are there, in the order of the participants.
    pub fn part_sigs(&self) -> (r: Vec<Signature>)
        ensures
            crate::crypto::byte_strings(r@) == self@.part_sigs(),
    {
        let ghost signed = |p: ParticipantView| is_signed(p);
        let ghost bytes = |p: ParticipantView| p.part_sig->Some_0@;
        let mut r: Vec<Signature> = Vec::new();
        let mut i: usize = 0;
        proof {
            reveal(Seq::filter);
            assert(crate::crypto::byte_strings(r@) =~= self@.participant_data.take(0).filter(
                signed,
            ).map_values(bytes));
        }
        while i < self.participant_data.len()
            invariant
                i <= self.participant_data@.len(),
                signed == (|p: ParticipantView| is_signed(p)),
                bytes == (|p: ParticipantView| p.part_sig->Some_0@),
                crate::crypto::byte_strings(r@) == self@.participant_data.take(i as int).filter(
                    signed,
                ).map_values(bytes),
            decreases self.participant_data@.len() - i,
        {
            let ghost before = r@;
            let ghost p = self@.participant_data[i as int];
            assert(p == self.participant_data@[i as int]@);
            if let Some(s) = &self.participant_data[i].part_sig {
                r.push(*s);
                assert(crate::crypto::byte_strings(r@) =~= crate::crypto::byte_strings(before).push(
                    s@,
                ));
            }
            i = i + 1;
            proof {
                reveal(Seq::filter);
                let now = self@.participant_data.take(i as int);
                assert(now.drop_last() =~= self@.participant_data.take(i as int - 1));
                assert(now.last() == p);
                assert(crate::crypto::byte_strings(r@) =~= now.filter(signed).map_values(bytes));
            }
        }
        assert(self@.participant_data.take(i as int) =~= self@.participant_data);
        r
    }

    /// The joint signature. Every partial signature is verified first, and the sum is
    /// verified under the sum of the keys.
    pub fn finalize_signature(&mut self) -> (r: Result<Signature, SlateError>)
        ensures
            crate::error::outcome(r) == old(self)@.final_signature(),
            *final(self) == *old(self),
            old(self)@.fully_signed() && old(self)@.part_sigs_check() is Ok
                ==> r is Ok && crate::crypto::is_joint_signature(
                r->Ok_0@,
                old(self)@.key_sum()->Ok_0,
                old(self)@.message(),
            ),
    {
        self.joint_signature()
    }

    /// The joint signature.
    fn joint_signature(&self) -> (r: Result<Signature, SlateError>)
        ensures
            crate::error::outcome(r) == self@.final_signature(),
            self@.fully_signed() && self@.part_sigs_check() is Ok
                ==> r is Ok && crate::crypto::is_joint_signature(
                r->Ok_0@,
                self@.key_sum()->Ok_0,
                self@.message(),
            ),
    {
        match self.verify_part_sigs() {
            Ok(_) => {},
            Err(e) => return Err(e),
        }
        let part_sigs: Vec<Signature> = self.part_sigs();
        let nonce_sum: PublicKey = match self.pub_nonce_sum() {
            Ok(k) => k,
            Err(e) => return Err(e),
        };
        let final_pubkey: PublicKey = match self.pub_blind_sum() {
            Ok(k) => k,
            Err(e) => return Err(e),
        };
        proof {
            if self@.fully_signed() {
                lemma_fully_signed(self@);
            }
        }
        let final_sig: Signature = match add_signatures(&part_sigs, &nonce_sum) {
            Ok(s) => s,
            Err(e) => return Err(SlateError::LibTx(e)),
        };
        let message: Message = match self.msg_to_sign() {
            Ok(m) => m,
            Err(e) => return Err(e),
        };
        match verify_completed(&final_sig, &final_pubkey, &final_pubkey, &message) {
            Ok(_) => Ok(final_sig),
            Err(e) => Err(SlateError::LibTx(e)),
        }
    }

    /// The excess of the final transaction.
    pub fn calc_excess(&self) -> (r: Result<Commitment, SlateError>)
        ensures
            crate::error::outcome(r) == self@.excess(),
            self@.compact_slate && self@.key_sum() is Ok ==> r is Ok,
            forall|spent: Seq<(u64, Seq<u8>)>, created: Seq<(u64, Seq<u8>)>|
                !self@.compact_slate && #[trigger] self@.balances(spent, created)
                    ==> balanced_excess(
                    r,
                    crate::crypto::factor_difference(
                        crate::crypto::blinds(created),
                        crate::crypto::blinds(spent),
                    ),
                    crate::crypto::number(self@.tx.offset@),
                ),
    {
        if self.compact_slate {
            let sum: PublicKey = match self.pub_blind_sum() {
                Ok(k) => k,
                Err(e) => return Err(e),
            };
            match commit_to_key(&sum) {
                Ok(c) => Ok(c),
                Err(e) => Err(SlateError::Secp(e)),
            }
        } else {
            let overage: i64 = self.tx.body.fee() as i64;
            let tx_excess: Commitment = match sum_transaction(
                &self.tx.body.inputs.commits(),
                &self.tx.body.output_commits(),
                overage,
            ) {
                Ok(c) => c,
                Err(e) => return Err(SlateError::Committed(e)),
            };
            // the offset is committed to zero and taken off
            let offset_key: SecretKey = match blind_secret_key(&self.tx.offset) {
                Ok(k) => k,
                Err(e) => return Err(SlateError::Keychain(e)),
            };
            let offset_excess: Commitment = match commit(0, &offset_key) {
                Ok(c) => c,
                Err(e) => return Err(SlateError::Secp(e)),
            };
            let mut positive: Vec<Commitment> = Vec::new();
            positive.push(tx_excess);
            let mut negative: Vec<Commitment> = Vec::new();
            negative.push(offset_excess);
            assert(crate::crypto::byte_strings(positive@) =~= seq![tx_excess@]);
            assert(crate::crypto::byte_strings(negative@) =~= seq![offset_excess@]);
            let excess: Result<Commitment, grin_util::secp::Error> = sum_commits(
                &positive,
                &negative,
            );
            proof {
                assert forall|spent: Seq<(u64, Seq<u8>)>, created: Seq<(u64, Seq<u8>)>| #[trigger]
                    self@.balances(spent, created) implies {
                    let whole = crate::crypto::factor_difference(
                        crate::crypto::blinds(created),
                        crate::crypto::blinds(spent),
                    );
                    let left = (whole - crate::crypto::number(self@.tx.offset@))
                        % crate::crypto::curve_order();
                    &&& left == 0 ==> excess is Err
                    &&& left != 0 ==> excess is Ok && crate::crypto::commits_to_zero(
                        excess->Ok_0@,
                        left,
                    )
                } by {
                    lemma_balanced_excess(
                        excess,
                        tx_excess,
                        offset_excess,
                        self@.tx.offset@,
                        crate::crypto::factor_difference(
                            crate::crypto::blinds(created),
                            crate::crypto::blinds(spent),
                        ),
                    );
                }
            }
            match excess {
                Ok(c) => Ok(c),
                Err(e) => Err(SlateError::Secp(e)),
            }
        }
    }

    /// The fee that is asked for this transaction at `base_fee` for a unit of weight.
    pub fn required_fee(&self, base_fee: u64) -> (r: u64)
        ensures
            r == self@.required_fee(base_fee),
    {
        let weight: u64 = transaction_weight(
            self.tx.body.inputs.len() as u64,
            self.tx.body.outputs.len() as u64,
            self.tx.body.kernels.len() as u64,
        );
        match weight.checked_mul(base_fee) {
            Some(fee) => fee,
            None => u64::MAX,
        }
    }

    /// Checks that the transaction pays the fee that is asked for at `base_fee` for a unit
    /// of weight, and that the amount covers it.
    pub fn check_fees(&self, base_fee: u64) -> (r: Result<(), SlateError>)
        requires
            self@.fees_defined(base_fee),
        ensures
            crate::error::outcome(r) == self@.fee_check(base_fee),
    {
        // the sender is not to be trusted with the fee, and it is signed, so it can only
        // be checked
        let fee: u64 = self.required_fee(base_fee);
        let tx_fee: u64 = self.tx.body.fee();
        if fee > tx_fee {
            let mut reason: String = "Fee Dispute Error: ".to_string();
            reason.append(decimal_text(tx_fee).as_str());
            reason.append(", ");
            reason.append(decimal_text(fee).as_str());
            return Err(SlateError::Fee(reason));
        }
        let received: u64 = self.amount + self.fee;
        if fee > received {
            return Err(
                fee_rejection(
                    amount_to_text(fee, false).as_str(),
                    amount_to_text(received, false).as_str(),
                ),
            );
        }
        Ok(())
    }

    /// Checks the fees at what this process asks for a unit of weight.
    pub fn check_accepted_fee(&self) -> (r: Result<(), SlateError>)
        requires
            self@.amount + self@.fee <= u64::MAX,
        ensures
            exists|base: u64| crate::error::outcome(r) == #[trigger] self@.fee_check(base),
    {
        self.check_fees(accept_fee_base())
    }

    /// The transaction with `excess` and `final_sig` in its one kernel.
    pub fn completed_transaction(&self, excess: &Commitment, final_sig: &Signature) -> (r:
        Transaction)
        requires
            self@.tx.body.kernels.len() == 1,
        ensures
            r@ == self@.completed_tx(*excess, *final_sig),
    {
        let mut final_tx: Transaction = self.tx.clone();
        let kernel = TxKernel {
            features: final_tx.body.kernels[0].features,
            excess: *excess,
            excess_sig: *final_sig,
        };
        final_tx.body.kernels.set(0, kernel);
        assert(final_tx@.body.kernels =~= seq![kernel]);
        final_tx
    }

    /// Completes the transaction with `excess` and `final_sig` in its kernel. The kernel
    /// has to verify, and `validate` has to accept the whole transaction.
    pub fn complete_transaction<V>(
        &mut self,
        excess: &Commitment,
        final_sig: &Signature,
        validate: V,
    ) -> (r: Result<(), SlateError>) where
        V: Fn(&Transaction) -> Result<(), grin_core::core::transaction::Error>,

        requires
            old(self)@.tx.body.kernels.len() == 1,
            forall|tx: Transaction| #[trigger] call_requires(validate, (&tx,)),
        ensures
            completion_outcome(old(self)@, final(self)@, r, *excess, *final_sig, validate),
            old(self)@.joint_kernel(excess@, final_sig@) ==> old(self)@.kernel_check(
                excess@,
                final_sig@,
            ) is Ok,
    {
        let final_tx: Transaction = self.completed_transaction(excess, final_sig);
        let kernel: TxKernel = final_tx.body.kernels[0];

        match verify_kernel(&kernel.features, &kernel.excess, &kernel.excess_sig) {
            Ok(_) => {},
            Err(e) => return Err(SlateError::Transaction(e)),
        }
        match validate(&final_tx) {
            Ok(_) => {},
            Err(e) => return Err(SlateError::Transaction(e)),
        }
        self.tx = final_tx;
        Ok(())
    }

    /// Builds the final transaction with the joint signature, at `base_fee` for a unit of
    /// weight.
    fn finalize_transaction<V>(
        &mut self,
        final_sig: &Signature,
        base_fee: u64,
        validate: V,
    ) -> (r: Result<(), SlateError>) where
        V: Fn(&Transaction) -> Result<(), grin_core::core::transaction::Error>,

        requires
            old(self)@.can_complete(base_fee),
            forall|tx: Transaction| #[trigger] call_requires(validate, (&tx,)),
        ensures
            transaction_outcome(old(self)@, final(self)@, r, *final_sig, base_fee, validate),
            old(self)@.ready(base_fee) && crate::crypto::is_joint_signature(
                final_sig@,
                old(self)@.key_sum()->Ok_0,
                old(self)@.message(),
            ) ==> exists|excess: Commitment| #[trigger]
                verdict_outcome(old(self)@, final(self)@, r, excess, *final_sig, validate),
    {
        match self.check_fees(base_fee) {
            Ok(_) => {},
            Err(e) => return Err(e),
        }
        let final_excess: Commitment = match self.calc_excess() {
            Ok(c) => c,
            Err(e) => return Err(e),
        };
        proof {
            if self@.ready(base_fee) && crate::crypto::is_joint_signature(
                final_sig@,
                self@.key_sum()->Ok_0,
                self@.message(),
            ) {
                assert(self@.joint_kernel(final_excess@, final_sig@));
            }
        }
        self.complete_transaction(&final_excess, final_sig, validate)
    }

    /// Makes the joint signature and, with it, the final transaction, at `base_fee` for a
    /// unit of weight. Either side can do this once all partial signatures are there.
    /// `validate` decides whether the whole transaction is valid.
    pub fn finalize<V>(&mut self, base_fee: u64, validate: V) -> (r: Result<
        (),
        SlateError,
    >) where V: Fn(&Transaction) -> Result<(), grin_core::core::transaction::Error>
        requires
            old(self)@.can_finalize(base_fee),
            forall|tx: Transaction| #[trigger] call_requires(validate, (&tx,)),
        ensures
            finalize_outcome(old(self)@, final(self)@, r, base_fee, validate),
            validate_decides(old(self)@, final(self)@, r, base_fee, validate),
    {
        let final_sig: Signature = match self.finalize_signature() {
            Ok(s) => s,
            Err(e) => return Err(e),
        };
        let r: Result<(), SlateError> = self.finalize_transaction(&final_sig, base_fee, validate);
        proof {
            if old(self)@.ready(base_fee) {
                let excess = choose|excess: Commitment| #[trigger]
                    verdict_outcome(old(self)@, self@, r, excess, final_sig, validate);
                assert(verdict_outcome(old(self)@, self@, r, excess, final_sig, validate));
            }
        }
        r
    }

    /// Finalizes the slate at what this process asks for a unit of weight.
    pub fn finalize_with_accepted_fee<V>(&mut self, validate: V) -> (r: Result<
        (),
        SlateError,
    >) where V: Fn(&Transaction) -> Result<(), grin_core::core::transaction::Error>
        requires
            forall|base: u64| #[trigger] old(self)@.can_finalize(base),
            forall|tx: Transaction| #[trigger] call_requires(validate, (&tx,)),
        ensures
            exists|base: u64|
                #[trigger] finalize_outcome(old(self)@, final(self)@, r, base, validate)
                    && validate_decides(old(self)@, final(self)@, r, base, validate),
    {
        let base: u64 = accept_fee_base();
        assert(self@.can_finalize(base));
        self.finalize(base, validate)
    }

    /// Finalizes the slate where `finalize` is defined. `None` says that the joint
    /// signature is there but the transaction cannot be completed: it has more or
    /// fewer than one kernel, or the amount with the fee is too large a number.
    pub fn try_finalize<V>(&mut self, base_fee: u64, validate: V) -> (r: Option<
        Result<(), SlateError>,
    >) where V: Fn(&Transaction) -> Result<(), grin_core::core::transaction::Error>
        requires
            forall|tx: Transaction| #[trigger] call_requires(validate, (&tx,)),
        ensures
            r is None <==> !old(self)@.can_finalize(base_fee),
            match r {
                None => final(self)@ == old(self)@,
                Some(result) => finalize_outcome(
                    old(self)@,
                    final(self)@,
                    result,
                    base_fee,
                    validate,
                ) && validate_decides(old(self)@, final(self)@, result, base_fee, validate),
            },
    {
        if self.tx.body.kernels.len() == 1 && self.fee <= u64::MAX - self.amount {
            return Some(self.finalize(base_fee, validate));
        }
        let signature: Signature = match self.finalize_signature() {
            Ok(s) => s,
            Err(e) => return Some(Err(e)),
        };
        if self.fee > u64::MAX - self.amount && self.required_fee(base_fee)
            <= self.tx.body.fee() {
            return None;
        }
        match self.check_fees(base_fee) {
            Ok(_) => {},
            Err(e) => {
                assert(transaction_outcome(
                    old(self)@,
                    self@,
                    Err::<(), SlateError>(e),
                    signature,
                    base_fee,
                    validate,
                ));
                return Some(Err(e));
            },
        }
        match self.calc_excess() {
            Ok(_) => None,
            Err(e) => {
                assert(transaction_outcome(
                    old(self)@,
                    self@,
                    Err::<(), SlateError>(e),
                    signature,
                    base_fee,
                    validate,
                ));
                Some(Err(e))
            },
        }
    }

    /// Finalizes the slate at what this process asks for a unit of weight, where that is
    /// defined; `None` is that of `try_finalize`.
    pub fn try_finalize_with_accepted_fee<V>(&mut self, validate: V) -> (r: Option<
        Result<(), SlateError>,
    >) where V: Fn(&Transaction) -> Result<(), grin_core::core::transaction::Error>
        requires
            forall|tx: Transaction| #[trigger] call_requires(validate, (&tx,)),
        ensures
            match r {
                None => final(self)@ == old(self)@ && exists|base: u64| !(
                #[trigger] old(self)@.can_finalize(base)),
                Some(result) => exists|base: u64|
                    old(self)@.can_finalize(base) && #[trigger] finalize_outcome(
                        old(self)@,
                        final(self)@,
                        result,
                        base,
                        validate,
                    ) && validate_decides(old(self)@, final(self)@, result, base, validate),
            },
    {
        if self.tx.body.kernels.len() == 1 && self.fee <= u64::MAX - self.amount {
            let result: Result<(), SlateError> = self.finalize_with_accepted_fee(validate);
            proof {
                let base = choose|base: u64|
                    #[trigger] finalize_outcome(old(self)@, self@, result, base, validate)
                        && validate_decides(old(self)@, self@, result, base, validate);
                assert(old(self)@.can_finalize(base));
            }
            return Some(result);
        }
        self.try_finalize(accept_fee_base(), validate)
    }
}

} // verus!
