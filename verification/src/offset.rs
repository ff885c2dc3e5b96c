//! The offset: the part of the excess that is split off, in the transaction or in
//! a compact slate.
use crate::crypto::{
    blind_secret_key, derive_key, random_secret_key, stepped_secret_key, sum_blinds,
    BlindingFactor, Identifier, SecretKey,
};
use crate::error::{SlateError, SlateErrorView};
use crate::slate::{Slate, SlateView};
use crate::transaction::TransactionView;
use vstd::prelude::*;

verus! {

/// Where the numbers that make up a key start when the key has to come out the
/// same each time.
pub const TEST_KEY_START: u64 = 1_234_567_890;

impl SlateView {
    /// The key of the participant has to be split: a part of it becomes the offset of
    /// the transaction. This is done once, and not in a compact slate.
    pub open spec fn splits_key(self) -> bool {
        !self.compact_slate && self.tx.offset == crate::transaction::spec_zero_blind()
    }

    /// This slate with an offset for its transaction.
    pub open spec fn with_tx_offset(self, offset: BlindingFactor) -> SlateView {
        SlateView { tx: TransactionView { offset, ..self.tx }, ..self }
    }
}

/// The offset that comes out the same each time.
pub open spec fn test_offset() -> Seq<u8> {
    Seq::new(32, |i: int| crate::crypto::stepped_byte(TEST_KEY_START as int, 1, i))
}

/// The offset is a secret key.
proof fn lemma_test_offset()
    ensures
        crate::crypto::is_secret_key(test_offset()),
{
    let p = vstd::arithmetic::power::pow(256, 31);
    let b = test_offset()[0] as int;
    crate::crypto::lemma_number_bounds(test_offset());
    crate::crypto::lemma_first_byte_bounds();
    vstd::arithmetic::power::lemma_pow0(256);
    assert(b == 210);
    assert(p <= b * p && (b + 1) * p <= 0xFF * p) by (nonlinear_arith)
        requires
            b == 210,
            0 < p,
    ;
}

/// `offset` is one that a key can be split by: a secret key, and the fixed one
/// where `fixed` is set.
pub open spec fn is_fresh_offset(offset: BlindingFactor, fixed: bool) -> bool {
    crate::crypto::is_secret_key(offset@) && (fixed ==> offset@ == test_offset())
}

/// What is left of `secret` when `offset` is split off: their difference.
pub open spec fn split_number(secret: Seq<u8>, offset: Seq<u8>) -> int {
    crate::crypto::factor_difference(seq![secret], seq![offset])
}

/// What comes of splitting `offset` off a key: it becomes the offset of the
/// transaction, and the key loses it. It is set even where no key would be left,
/// which is an error.
pub open spec fn split_outcome(
    before: SlateView,
    after: SlateView,
    key_before: SecretKey,
    key_after: SecretKey,
    offset: BlindingFactor,
    result: Result<(), SlateErrorView>,
) -> bool {
    &&& after == before.with_tx_offset(offset)
    &&& split_number(key_before@, offset@) == 0 ==> result == Err::<(), SlateErrorView>(
        SlateErrorView::Keychain,
    ) && key_after == key_before
    &&& split_number(key_before@, offset@) != 0 ==> result == Ok::<(), SlateErrorView>(())
        && crate::crypto::number(key_after@) == split_number(key_before@, offset@)
}

/// A keychain: the seed of its keys, and whether it is one of a test network.
#[derive(Debug)]
pub struct Keychain {
    pub seed: Vec<u8>,
    pub is_test: bool,
}

/// What a participant keeps of a transaction: the first secret key, and the
/// inputs and outputs by key identifier, optional position and amount.
#[derive(Debug)]
pub struct Context {
    pub initial_sec_key: SecretKey,
    pub input_ids: Vec<(Identifier, Option<u64>, u64)>,
    pub output_ids: Vec<(Identifier, Option<u64>, u64)>,
}

/// The identifiers are paths that a keychain can walk.
pub open spec fn paths_valid(ids: Seq<(Identifier, Option<u64>, u64)>) -> bool {
    forall|i: int| 0 <= i < ids.len() ==> (#[trigger] ids[i]).0@[0] <= 4
}

impl Keychain {
    /// The key of one input or output.
    pub open spec fn key_for(self, id: (Identifier, Option<u64>, u64)) -> Option<Seq<u8>> {
        crate::crypto::derived_key(self.seed@, self.is_test, id.2, id.0@)
    }

    /// Every input or output has a key.
    pub open spec fn has_keys_for(self, ids: Seq<(Identifier, Option<u64>, u64)>) -> bool {
        forall|i: int| 0 <= i < ids.len() ==> self.key_for(#[trigger] ids[i]) is Some
    }

    /// The keys of inputs or outputs, in order.
    pub open spec fn keys_for(self, ids: Seq<(Identifier, Option<u64>, u64)>) -> Seq<Seq<u8>> {
        ids.map_values(|id: (Identifier, Option<u64>, u64)| self.key_for(id)->Some_0)
    }

    /// Derives the keys of inputs or outputs, in order.
    fn derive_keys(&self, ids: &Vec<(Identifier, Option<u64>, u64)>) -> (r: Result<
        Vec<SecretKey>,
        SlateError,
    >)
        requires
            paths_valid(ids@),
        ensures
            match r {
                Ok(keys) => self.has_keys_for(ids@) && crate::crypto::byte_strings(keys@)
                    == self.keys_for(ids@),
                Err(e) => !self.has_keys_for(ids@) && e@ == SlateErrorView::Keychain,
            },
    {
        let mut keys: Vec<SecretKey> = Vec::new();
        let mut i: usize = 0;
        while i < ids.len()
            invariant
                i <= ids@.len(),
                paths_valid(ids@),
                keys@.len() == i,
                forall|j: int|
                    0 <= j < i ==> self.key_for(#[trigger] ids@[j]) == Some(keys@[j]@),
            decreases ids@.len() - i,
        {
            let id: &(Identifier, Option<u64>, u64) = &ids[i];
            assert(ids@[i as int].0@[0] <= 4);
            match derive_key(self.seed.as_slice(), self.is_test, id.2, &id.0) {
                Ok(key) => keys.push(key),
                Err(e) => {
                    assert(self.key_for(ids@[i as int]) is None);
                    return Err(SlateError::Keychain(e));
                },
            }
            i = i + 1;
        }
        assert(crate::crypto::byte_strings(keys@) =~= self.keys_for(ids@));
        Ok(keys)
    }
}

impl SlateView {
    /// The offset of this slate with the part of a participant: what the keys of its
    /// outputs exceed the first secret key and the keys of its inputs by.
    pub open spec fn adjusted_offset(
        self,
        initial_sec_key: Seq<u8>,
        input_keys: Seq<Seq<u8>>,
        output_keys: Seq<Seq<u8>>,
    ) -> int {
        crate::crypto::factor_difference(
            seq![self.offset@] + output_keys,
            seq![initial_sec_key] + input_keys,
        )
    }

    /// What comes of adding to the offset of this slate: a zero offset is refused,
    /// and then nothing changes.
    pub open spec fn offset_outcome(
        self,
        after: SlateView,
        result: Result<(), SlateErrorView>,
        number: int,
    ) -> bool {
        &&& number == 0 ==> result == Err::<(), SlateErrorView>(SlateErrorView::Keychain) && after
            == self
        &&& number != 0 ==> result == Ok::<(), SlateErrorView>(()) && after == (SlateView {
            offset: after.offset,
            ..self
        }) && crate::crypto::number(after.offset@) == number
    }
}

impl Slate {
    /// Splits the key of the caller: `offset` becomes the offset of the transaction,
    /// and the key loses it. The offset is set even where no key would be left, which
    /// is an error.
    pub fn split_offset(&mut self, sec_key: &mut SecretKey, offset: BlindingFactor) -> (r: Result<
        (),
        SlateError,
    >)
        ensures
            split_outcome(
                old(self)@,
                final(self)@,
                *old(sec_key),
                *final(sec_key),
                offset,
                crate::error::outcome(r),
            ),
    {
        self.tx.offset = offset;
        let mut positive: Vec<BlindingFactor> = Vec::new();
        positive.push(*sec_key);
        let mut negative: Vec<BlindingFactor> = Vec::new();
        negative.push(offset);
        assert(crate::crypto::byte_strings(positive@) =~= seq![sec_key@]);
        assert(crate::crypto::byte_strings(negative@) =~= seq![offset@]);
        match sum_blinds(&positive, &negative) {
            Ok(blind_offset) => match blind_secret_key(&blind_offset) {
                Ok(key) => {
                    *sec_key = key;
                    Ok(())
                },
                Err(e) => Err(SlateError::Keychain(e)),
            },
            Err(e) => Err(SlateError::Keychain(e)),
        }
    }

    /// Splits a fresh offset off the key of the caller. This is for slates that are not
    /// compact: somebody involved has to generate the offset of the transaction, and
    /// the first to fill round 1 does. With `use_test_rng` the offset is always the same.
    pub fn generate_legacy_offset(&mut self, sec_key: &mut SecretKey, use_test_rng: bool) -> (r:
        Result<(), SlateError>)
        ensures
            exists|offset: BlindingFactor|
                is_fresh_offset(offset, use_test_rng) && #[trigger] split_outcome(
                    old(self)@,
                    final(self)@,
                    *old(sec_key),
                    *final(sec_key),
                    offset,
                    crate::error::outcome(r),
                ),
    {
        proof {
            lemma_test_offset();
        }
        let offset: BlindingFactor = if use_test_rng {
            stepped_secret_key(TEST_KEY_START, 1)
        } else {
            random_secret_key()
        };
        assert(is_fresh_offset(offset, use_test_rng));
        self.split_offset(sec_key, offset)
    }

    /// Adds to the offset of the slate what the output keys exceed the first secret
    /// key and the input keys by.
    pub fn add_to_offset(
        &mut self,
        initial_sec_key: &SecretKey,
        input_keys: &Vec<SecretKey>,
        output_keys: &Vec<SecretKey>,
    ) -> (r: Result<(), SlateError>)
        ensures
            old(self)@.offset_outcome(
                final(self)@,
                crate::error::outcome(r),
                old(self)@.adjusted_offset(
                    initial_sec_key@,
                    crate::crypto::byte_strings(input_keys@),
                    crate::crypto::byte_strings(output_keys@),
                ),
            ),
    {
        let positive: Vec<BlindingFactor> = prepended(&self.offset, output_keys);
        let negative: Vec<BlindingFactor> = prepended(initial_sec_key, input_keys);
        match sum_blinds(&positive, &negative) {
            Ok(offset) => {
                self.offset = offset;
                Ok(())
            },
            Err(e) => Err(SlateError::Keychain(e)),
        }
    }

    /// Adds the contribution of the caller to the offset of a compact slate, based on
    /// the first secret key, the inputs and the outputs.
    pub fn adjust_offset(&mut self, keychain: &Keychain, context: &Context) -> (r: Result<
        (),
        SlateError,
    >)
        requires
            old(self)@.compact_slate,
            paths_valid(context.input_ids@),
            paths_valid(context.output_ids@),
        ensures
            if keychain.has_keys_for(context.input_ids@) && keychain.has_keys_for(
                context.output_ids@,
            ) {
                old(self)@.offset_outcome(
                    final(self)@,
                    crate::error::outcome(r),
                    old(self)@.adjusted_offset(
                        context.initial_sec_key@,
                        keychain.keys_for(context.input_ids@),
                        keychain.keys_for(context.output_ids@),
                    ),
                )
            } else {
                crate::error::outcome(r) == Err::<(), SlateErrorView>(SlateErrorView::Keychain)
                    && final(self)@ == old(self)@
            },
    {
        let input_keys: Vec<SecretKey> = match keychain.derive_keys(&context.input_ids) {
            Ok(keys) => keys,
            Err(e) => return Err(e),
        };
        let output_keys: Vec<SecretKey> = match keychain.derive_keys(&context.output_ids) {
            Ok(keys) => keys,
            Err(e) => return Err(e),
        };
        self.add_to_offset(&context.initial_sec_key, &input_keys, &output_keys)
    }
}

/// `first`, then `rest`.
fn prepended(first: &BlindingFactor, rest: &Vec<SecretKey>) -> (r: Vec<BlindingFactor>)
    ensures
        crate::crypto::byte_strings(r@) == seq![first@] + crate::crypto::byte_strings(rest@),
{
    let mut all: Vec<BlindingFactor> = Vec::new();
    all.push(*first);
    let mut i: usize = 0;
    while i < rest.len()
        invariant
            i <= rest@.len(),
            all@.len() == i + 1,
            all@[0] == *first,
            forall|j: int| 0 <= j < i ==> #[trigger] rest@[j] == all@[j + 1],
        decreases rest@.len() - i,
    {
        all.push(rest[i]);
        i = i + 1;
    }
    assert forall|k: int| 0 <= k < all@.len() implies #[trigger] crate::crypto::byte_strings(
        all@,
    )[k] == (seq![first@] + crate::crypto::byte_strings(rest@))[k] by {
        if k > 0 {
            assert(rest@[k - 1] == all@[k]);
        }
    }
    assert(crate::crypto::byte_strings(all@) =~= seq![first@] + crate::crypto::byte_strings(rest@));
    all
}

} // verus!
