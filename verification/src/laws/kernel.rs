//! The kernel of a slate, and the message that the participants sign.
use crate::crypto::{BlindingFactor, Message};
use crate::error::SlateError;
use crate::laws::same::lemma_same_participants;
use crate::slate::Slate;
use crate::transaction::{KernelFeatures, Transaction, TransactionBody, TxKernel};
use vstd::prelude::*;

verus! {

/// `features` are those of a kernel that pays `fee` and is locked to `lock_height`, or to no
/// height where that is zero.
pub open spec fn pays_and_locks(features: KernelFeatures, fee: u64, lock_height: u64) -> bool {
    match features {
        KernelFeatures::Plain { fee: f } => lock_height == 0 && f == fee,
        KernelFeatures::HeightLocked { fee: f, lock_height: h } => lock_height != 0 && f == fee && h
            == lock_height,
        _ => false,
    }
}

/// The features of the kernel of a slate have exactly its fee and its lock height. They do
/// not depend on anything else in the slate.
pub proof fn law_kernel_features(slate: Slate, r: KernelFeatures)
    requires
        call_ensures(Slate::kernel_features, (&slate,), r),
    ensures
        pays_and_locks(r, slate.fee, slate.lock_height),
        r.fee_field() == slate.fee,
        r.height_field() == slate.lock_height,
        r.kind() == (if slate.lock_height == 0 {
            0u8
        } else {
            2u8
        }),
{
}

/// The fields in which the features of a kernel are signed: the number of the kind, the fee
/// and the height, zero where the kind has none.
pub proof fn law_kernel_fields(fee: u64, height: u64, relative: u16)
    ensures
        ({
            let plain = KernelFeatures::Plain { fee };
            &&& plain.kind() == 0 && plain.fee_field() == fee && plain.height_field() == 0
            &&& plain.valid()
        }),
        ({
            let coinbase = KernelFeatures::Coinbase;
            &&& coinbase.kind() == 1 && coinbase.fee_field() == 0 && coinbase.height_field() == 0
            &&& coinbase.valid()
        }),
        ({
            let locked = KernelFeatures::HeightLocked { fee, lock_height: height };
            &&& locked.kind() == 2 && locked.fee_field() == fee && locked.height_field() == height
            &&& locked.valid()
        }),
        ({
            let unique = KernelFeatures::NoRecentDuplicate { fee, relative_height: relative };
            &&& unique.kind() == 3 && unique.fee_field() == fee && unique.height_field() == relative
            &&& unique.valid() <==> 1 <= relative <= 10080
        }),
{
}

/// The message that signs for a fee and a lock height.
pub open spec fn terms_message(fee: u64, lock_height: u64) -> Seq<u8> {
    if lock_height == 0 {
        crate::crypto::kernel_message(0, fee, 0)
    } else {
        crate::crypto::kernel_message(2, fee, lock_height)
    }
}

/// The participants sign for the fee and the lock height of the slate.
pub proof fn law_message_to_sign(slate: Slate, r: Result<Message, SlateError>)
    requires
        call_ensures(Slate::msg_to_sign, (&slate,), r),
    ensures
        r is Ok,
        r->Ok_0@ == terms_message(slate.fee, slate.lock_height),
{
}

/// Slates with the same fee and the same lock height are signed with the same message.
pub proof fn law_same_terms_same_message(
    a: Slate,
    b: Slate,
    r_a: Result<Message, SlateError>,
    r_b: Result<Message, SlateError>,
)
    requires
        call_ensures(Slate::msg_to_sign, (&a,), r_a),
        call_ensures(Slate::msg_to_sign, (&b,), r_b),
        a.fee == b.fee,
        a.lock_height == b.lock_height,
    ensures
        r_a is Ok && r_b is Ok,
        r_a->Ok_0 == r_b->Ok_0,
{
    assert(r_a->Ok_0 =~= r_b->Ok_0);
}

/// The kernel has these features, and no excess and no signature yet: all their bytes are
/// zero.
pub open spec fn is_unsigned(kernel: TxKernel, fee: u64, lock_height: u64) -> bool {
    &&& pays_and_locks(kernel.features, fee, lock_height)
    &&& forall|i: int| 0 <= i < 33 ==> #[trigger] kernel.excess@[i] == 0
    &&& forall|i: int| 0 <= i < 64 ==> #[trigger] kernel.excess_sig@[i] == 0
}

/// A kernel that is made from features has them and is unsigned; in a transaction it takes
/// the place of all kernels and leaves everything else as it is.
pub proof fn law_new_kernel(
    features: KernelFeatures,
    kernel: TxKernel,
    tx: Transaction,
    replaced: Transaction,
)
    requires
        call_ensures(TxKernel::with_features, (features,), kernel),
        call_ensures(Transaction::replace_kernel, (tx, kernel), replaced),
    ensures
        kernel.features == features,
        forall|i: int| 0 <= i < 33 ==> #[trigger] kernel.excess@[i] == 0,
        forall|i: int| 0 <= i < 64 ==> #[trigger] kernel.excess_sig@[i] == 0,
        crate::laws::same::same_but_kernels(replaced, tx),
        replaced.body.kernels@ == seq![kernel],
{
}

/// An empty transaction has no inputs, outputs and kernels, and no offset.
pub proof fn law_empty_transaction(r: Transaction)
    requires
        call_ensures(Transaction::empty, (), r),
    ensures
        r.body.inputs is CommitOnly,
        r.body.inputs->CommitOnly_0@.len() == 0,
        r.body.outputs@.len() == 0,
        r.body.kernels@.len() == 0,
        forall|i: int| 0 <= i < 32 ==> #[trigger] r.offset@[i] == 0,
{
}

/// Updating the kernel leaves a transaction with the same inputs, outputs and offset, and
/// with one unsigned kernel for the fee and the lock height of the slate. Nothing else in the
/// slate changes.
pub proof fn law_update_kernel_replaces(slate: &mut Slate)
    requires
        call_ensures(Slate::update_kernel, (slate,), ()),
    ensures
        final(slate).tx.body.kernels@.len() == 1,
        is_unsigned(
            final(slate).tx.body.kernels@[0],
            old(slate).fee,
            old(slate).lock_height,
        ),
        crate::laws::same::same_but_kernels(final(slate).tx, old(slate).tx),
        crate::laws::same::same_head(*final(slate), *old(slate)),
        crate::laws::same::same_participants(
            final(slate).participant_data@,
            old(slate).participant_data@,
        ),
        final(slate).offset == old(slate).offset,
{
    lemma_same_participants(final(slate).participant_data@, old(slate).participant_data@);
    assert(final(slate).tx.body.kernels@[0] == final(slate)@.tx.body.kernels[0]);
}

/// Adding no elements updates the kernel and gives the zero blinding factor. Else the builder
/// gets the transaction with the updated kernel: what it builds becomes the transaction, and
/// its blinding factor is handed back; its error is handed back as it is, and then only the
/// kernel is updated.
pub proof fn law_add_elements<F>(
    slate: &mut Slate,
    build: Option<F>,
    r: Result<BlindingFactor, SlateError>,
) where F: FnOnce(Transaction) -> Result<(Transaction, BlindingFactor), grin_core::libtx::Error>
    requires
        call_ensures(Slate::add_transaction_elements::<F>, (slate, build), r),
    ensures
        crate::laws::same::same_head(*final(slate), *old(slate)),
        crate::laws::same::same_participants(
            final(slate).participant_data@,
            old(slate).participant_data@,
        ),
        final(slate).offset == old(slate).offset,
        build is None || r is Err ==> {
            &&& final(slate).tx.body.kernels@.len() == 1
            &&& is_unsigned(
                final(slate).tx.body.kernels@[0],
                old(slate).fee,
                old(slate).lock_height,
            )
            &&& crate::laws::same::same_but_kernels(final(slate).tx, old(slate).tx)
        },
        build is None ==> r is Ok && forall|i: int| 0 <= i < 32 ==> #[trigger] r->Ok_0@[i] == 0,
        build matches Some(f) ==> exists|
            tx: Transaction,
            built: Result<(Transaction, BlindingFactor), grin_core::libtx::Error>,
        |
            {
                &&& #[trigger] call_ensures(f, (tx,), built)
                &&& crate::laws::same::same_but_kernels(tx, old(slate).tx)
                &&& tx.body.kernels@.len() == 1
                &&& is_unsigned(tx.body.kernels@[0], old(slate).fee, old(slate).lock_height)
                &&& match built {
                    Ok((new_tx, blind)) => r is Ok && r->Ok_0 == blind
                        && crate::laws::same::same_transaction(final(slate).tx, new_tx),
                    Err(e) => r == Err::<BlindingFactor, SlateError>(SlateError::LibTx(e)),
                }
            },
{
    lemma_same_participants(final(slate).participant_data@, old(slate).participant_data@);
    let after = *final(slate);
    let fresh = old(slate)@.with_fresh_kernel().tx.body.kernels;
    assert(is_unsigned(fresh[0], old(slate).fee, old(slate).lock_height));
    if let Some(f) = build {
        let (tx, built) = choose|
            tx: Transaction,
            built: Result<(Transaction, BlindingFactor), grin_core::libtx::Error>,
        | #[trigger]
            call_ensures(f, (tx,), built) && tx@ == old(slate)@.with_fresh_kernel().tx && (
            match built {
                Ok((new_tx, blind)) => r == Ok::<BlindingFactor, SlateError>(blind) && after@ == (
                crate::slate::SlateView { tx: new_tx@, ..old(slate)@ }),
                Err(e) => r == Err::<BlindingFactor, SlateError>(SlateError::LibTx(e)) && after@
                    == old(slate)@.with_fresh_kernel(),
            });
        assert(tx.body.kernels@ == fresh);
        assert(crate::laws::same::same_but_kernels(tx, old(slate).tx));
    }
}

/// The fee that a kernel pays.
pub open spec fn kernel_fee(kernel: TxKernel) -> u64 {
    match kernel.features {
        KernelFeatures::Plain { fee } => fee,
        KernelFeatures::Coinbase => 0,
        KernelFeatures::HeightLocked { fee, .. } => fee,
        KernelFeatures::NoRecentDuplicate { fee, .. } => fee,
    }
}

/// A body without kernels pays no fee, and a further kernel adds its fee, up to the largest
/// `u64`.
pub proof fn law_fee_adds_up(
    body: TransactionBody,
    longer: TransactionBody,
    kernel: TxKernel,
    r: u64,
    r_longer: u64,
)
    requires
        call_ensures(TransactionBody::fee, (&body,), r),
        call_ensures(TransactionBody::fee, (&longer,), r_longer),
        longer.kernels@ == body.kernels@.push(kernel),
    ensures
        body.kernels@.len() == 0 ==> r == 0,
        r_longer == (if r + kernel_fee(kernel) > u64::MAX {
            u64::MAX as int
        } else {
            r + kernel_fee(kernel)
        }),
{
    assert(longer.kernels@.drop_last() =~= body.kernels@);
    assert(longer.kernels@.last() == kernel);
}

/// A body with one kernel pays its fee.
pub proof fn law_fee_of_one(body: TransactionBody, r: u64)
    requires
        call_ensures(TransactionBody::fee, (&body,), r),
        body.kernels@.len() == 1,
    ensures
        r == kernel_fee(body.kernels@[0]),
{
    assert(body.kernels@.drop_last() =~= seq![]);
    reveal_with_fuel(crate::transaction::fee_sum, 2);
}

} // verus!
