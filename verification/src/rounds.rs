//! The two rounds of signing: participants add their keys, then their parts of
//! the signature.
use crate::bytes::{same_bytes, same_optional_text};
use crate::crypto::{
    combine_keys, hash_message, kernel_sig_msg, public_key_of, sign_partial, sign_single,
    verify_partial, BlindingFactor, Message, PublicKey, SecretKey, Signature,
};
use crate::error::{SlateError, SlateErrorView};
use crate::participant::{ParticipantData, ParticipantView};
use crate::slate::{Slate, SlateView};
use crate::transaction::zero_blind;
use vstd::prelude::*;

verus! {

/// `i` is the first place in `participants` that `wanted` holds of.
pub open spec fn is_first(
    participants: Seq<ParticipantView>,
    wanted: spec_fn(ParticipantView) -> bool,
    i: int,
) -> bool {
    &&& 0 <= i < participants.len()
    &&& wanted(participants[i])
    &&& forall|j: int| 0 <= j < i ==> !wanted(#[trigger] participants[j])
}

/// The first place in `participants` that `wanted` holds of.
pub open spec fn first_place(
    participants: Seq<ParticipantView>,
    wanted: spec_fn(ParticipantView) -> bool,
) -> Option<int> {
    if exists|i: int| is_first(participants, wanted, i) {
        Some(choose|i: int| is_first(participants, wanted, i))
    } else {
        None
    }
}

/// A place that is the first is the one that `first_place` gives.
pub proof fn lemma_first_place(
    participants: Seq<ParticipantView>,
    wanted: spec_fn(ParticipantView) -> bool,
    i: int,
)
    requires
        is_first(participants, wanted, i),
    ensures
        first_place(participants, wanted) == Some(i),
{
    let c = choose|c: int| is_first(participants, wanted, c);
    assert(is_first(participants, wanted, c));
    if c < i {
        assert(!wanted(participants[c]));
    } else if i < c {
        assert(!wanted(participants[i]));
    }
}

/// The place of the participant with the given id.
pub open spec fn place_of(participants: Seq<ParticipantView>, id: u64) -> Option<int> {
    first_place(participants, |p: ParticipantView| p.id == id)
}

impl ParticipantView {
    /// `other` has the keys of this participant.
    pub open spec fn same_keys(self, other: ParticipantView) -> bool {
        self.public_blind_excess == other.public_blind_excess && self.public_nonce
            == other.public_nonce
    }

    /// This participant with the data of `new`, which has the same id. As long as
    /// the keys stay, a partial signature stays that is not replaced, and so does
    /// the signature of a message that stays.
    pub open spec fn updated(self, new: ParticipantView) -> ParticipantView {
        ParticipantView {
            part_sig: if self.same_keys(new) && new.part_sig is None {
                self.part_sig
            } else {
                new.part_sig
            },
            message_sig: if self.same_keys(new) && self.message == new.message
                && new.message_sig is None {
                self.message_sig
            } else {
                new.message_sig
            },
            ..new
        }
    }
}

/// `participants` with the data of `new`: that of the participant with the same
/// id, or else a further one at the end.
pub open spec fn recorded(participants: Seq<ParticipantView>, new: ParticipantView) -> Seq<
    ParticipantView,
> {
    match place_of(participants, new.id) {
        Some(i) => participants.update(i, participants[i].updated(new)),
        None => participants.push(new),
    }
}

/// The public nonces of `participants`, in order.
pub open spec fn nonces(participants: Seq<ParticipantView>) -> Seq<Seq<u8>> {
    participants.map_values(|p: ParticipantView| p.public_nonce@)
}

/// The public keys of `participants`, in order.
pub open spec fn keys(participants: Seq<ParticipantView>) -> Seq<Seq<u8>> {
    participants.map_values(|p: ParticipantView| p.public_blind_excess@)
}

/// The sum of keys, where there are keys and they have a sum.
pub open spec fn sum_of(keys: Seq<Seq<u8>>, empty: Seq<char>) -> Result<Seq<u8>, SlateErrorView> {
    if keys.len() == 0 {
        Err(SlateErrorView::GenericError(empty))
    } else {
        match crate::crypto::combined_key(keys.to_multiset()) {
            Some(sum) => Ok(sum),
            None => Err(SlateErrorView::Secp),
        }
    }
}

/// The error of a second round that comes too early.
pub open spec fn too_early() -> SlateErrorView {
    SlateErrorView::GenericError(
        "Round 2 can only be completed after all participants have performed round 1"@,
    )
}

/// A secret key, 32 times the byte one, that signs messages where the signature
/// has to come out the same each time.
pub open spec fn test_nonce() -> Seq<u8> {
    Seq::new(32, |i: int| 1u8)
}

/// The nonce that signs a message: the fixed one with `use_test_rng`, and else none, so
/// that a random one is drawn.
pub fn message_nonce(use_test_rng: bool) -> (r: Option<SecretKey>)
    ensures
        r is Some <==> use_test_rng,
        r matches Some(n) ==> n@ == test_nonce(),
{
    if use_test_rng {
        let nonce: SecretKey = [1u8; 32];
        assert(nonce@ =~= test_nonce());
        Some(nonce)
    } else {
        None
    }
}

/// The nonce is a secret key.
proof fn lemma_test_nonce()
    ensures
        crate::crypto::is_secret_key(test_nonce()),
{
    let p = vstd::arithmetic::power::pow(256, 31);
    let b = test_nonce()[0] as int;
    crate::crypto::lemma_number_bounds(test_nonce());
    crate::crypto::lemma_first_byte_bounds();
    assert(b * p == p && (b + 1) * p == 2 * p) by (nonlinear_arith)
        requires
            b == 1,
    ;
}

impl SlateView {
    /// The sum of the public nonces.
    pub open spec fn nonce_sum(self) -> Result<Seq<u8>, SlateErrorView> {
        sum_of(nonces(self.participant_data), "Participant nonces cannot be empty"@)
    }

    /// The sum of the public keys.
    pub open spec fn key_sum(self) -> Result<Seq<u8>, SlateErrorView> {
        sum_of(keys(self.participant_data), "Participant Blind sums cannot be empty"@)
    }

    /// The message that the joint signature signs: that of the kernel.
    pub open spec fn message(self) -> Seq<u8> {
        let features = self.kernel_features();
        crate::crypto::kernel_message(
            features.kind(),
            features.fee_field(),
            features.height_field(),
        )
    }

    /// Participant `i` has a partial signature, and it is not valid.
    pub open spec fn part_sig_wrong(self, i: int, nonce_sum: Seq<u8>, key_sum: Seq<u8>) -> bool {
        let p = self.participant_data[i];
        p.part_sig is Some && !crate::crypto::partial_signature_valid(
            p.part_sig->Some_0@,
            nonce_sum,
            p.public_blind_excess@,
            key_sum,
            self.message(),
        )
    }

    /// Some participant has a partial signature that is not valid.
    pub open spec fn some_part_sig_wrong(self, nonce_sum: Seq<u8>, key_sum: Seq<u8>) -> bool {
        exists|i: int|
            0 <= i < self.participant_data.len() && #[trigger] self.part_sig_wrong(
                i,
                nonce_sum,
                key_sum,
            )
    }

    /// Some participant has a partial signature.
    pub open spec fn has_part_sig(self) -> bool {
        exists|i: int|
            0 <= i < self.participant_data.len() && (
            #[trigger] self.participant_data[i]).part_sig is Some
    }

    /// Whether the partial signatures that are there are valid. Where there are
    /// none, nothing is asked of the keys.
    pub open spec fn part_sigs_check(self) -> Result<(), SlateErrorView> {
        if !self.has_part_sig() {
            Ok(())
        } else {
            match (self.nonce_sum(), self.key_sum()) {
                (Err(e), _) => Err(e),
                (Ok(_), Err(e)) => Err(e),
                (Ok(nonce_sum), Ok(key_sum)) => if self.some_part_sig_wrong(nonce_sum, key_sum) {
                    Err(SlateErrorView::LibTx)
                } else {
                    Ok(())
                },
            }
        }
    }

    /// The participant's part of the joint signature in the second round.
    pub open spec fn round_2_signature(self, secret: Seq<u8>, nonce: Seq<u8>) -> Result<
        Seq<u8>,
        SlateErrorView,
    > {
        match (self.part_sigs_check(), self.nonce_sum(), self.key_sum()) {
            (Err(e), _, _) => Err(e),
            (Ok(_), Err(e), _) => Err(e),
            (Ok(_), Ok(_), Err(e)) => Err(e),
            (Ok(_), Ok(nonce_sum), Ok(key_sum)) => match crate::crypto::partial_signature(
                secret,
                nonce,
                nonce_sum,
                key_sum,
                self.message(),
            ) {
                Some(signature) => Ok(signature),
                None => Err(SlateErrorView::LibTx),
            },
        }
    }

    /// `secrets` and `nonces` are the secret keys of the participants, in order, and every
    /// partial signature that is there was made with them.
    pub open spec fn signed_in_part(self, secrets: Seq<Seq<u8>>, nonces: Seq<Seq<u8>>) -> bool {
        &&& secrets.len() == nonces.len() == self.participant_data.len()
        &&& self.nonce_sum() is Ok
        &&& self.key_sum() is Ok
        &&& forall|i: int|
            0 <= i < self.participant_data.len() ==> {
                let p = #[trigger] self.participant_data[i];
                &&& crate::crypto::public_key(secrets[i]) == Some(p.public_blind_excess@)
                &&& crate::crypto::public_key(nonces[i]) == Some(p.public_nonce@)
                &&& p.part_sig is Some ==> crate::crypto::is_part(
                    p.part_sig->Some_0@,
                    secrets[i],
                    nonces[i],
                    self.nonce_sum()->Ok_0,
                    self.key_sum()->Ok_0,
                    self.message(),
                )
            }
    }

    /// Every participant has a partial signature.
    pub open spec fn all_complete(self) -> bool {
        forall|i: int|
            0 <= i < self.participant_data.len() ==> (
            #[trigger] self.participant_data[i]).part_sig is Some
    }

    /// Every participant has signed with the keys that were published.
    pub open spec fn fully_signed(self) -> bool {
        self.all_complete() && exists|secrets: Seq<Seq<u8>>, nonces: Seq<Seq<u8>>| #[trigger]
            self.signed_in_part(secrets, nonces)
    }

    /// All participants that are intended to take part have performed the first round.
    pub open spec fn all_joined(self) -> bool {
        self.num_participants <= self.participant_data.len()
    }

    /// `secret` is the secret key of participant `id`, where there is one.
    pub open spec fn key_belongs(self, secret: Seq<u8>, id: u64) -> bool {
        crate::crypto::public_key(secret) is Some && (place_of(self.participant_data, id) matches Some(
            i,
        ) ==> self.participant_data[i].public_blind_excess@ == crate::crypto::public_key(
            secret,
        )->Some_0)
    }

    /// The slate with a partial signature for participant `id`, where the
    /// participant is one of the intended number.
    pub open spec fn with_part_sig(self, id: u64, signature: Signature) -> SlateView {
        match place_of(self.participant_data, id) {
            Some(i) if i < self.num_participants => SlateView {
                participant_data: self.participant_data.update(
                    i,
                    ParticipantView {
                        part_sig: Some(signature),
                        ..self.participant_data[i]
                    },
                ),
                ..self
            },
            _ => self,
        }
    }
}

/// The message of `new`, where there is one, is signed with `secret`. Where
/// `fixed` is set the signature is the one with the fixed nonce.
pub open spec fn message_signed(new: ParticipantView, secret: Seq<u8>, fixed: bool) -> bool {
    match new.message {
        None => new.message_sig is None,
        Some(text) => {
            &&& new.message_sig is Some
            &&& crate::crypto::single_signature_valid(
                new.message_sig->Some_0@,
                crate::messages::text_hash(text),
                new.public_blind_excess@,
            )
            &&& fixed ==> crate::crypto::single_signature(
                crate::messages::text_hash(text),
                secret,
                test_nonce(),
                new.public_blind_excess@,
            ) == Some(new.message_sig->Some_0@)
        },
    }
}

/// `new` is the data of participant `id` with these keys, this partial signature
/// and this message.
pub open spec fn is_participant(
    new: ParticipantView,
    secret: Seq<u8>,
    nonce: Seq<u8>,
    id: u64,
    part_sig: Option<Signature>,
    message: Option<Seq<char>>,
    fixed: bool,
) -> bool {
    &&& new.id == id
    &&& crate::crypto::public_key(secret) == Some(new.public_blind_excess@)
    &&& crate::crypto::public_key(nonce) == Some(new.public_nonce@)
    &&& new.part_sig == part_sig
    &&& new.message == message
    &&& message_signed(new, secret, fixed)
}

impl SlateView {
    /// This slate with the data of a participant.
    pub open spec fn with_participant(self, new: ParticipantView) -> SlateView {
        SlateView { participant_data: recorded(self.participant_data, new), ..self }
    }

    /// What comes of adding a participant to this slate: it fails exactly where a key is no
    /// key, and then nothing changes.
    pub open spec fn join_outcome(
        self,
        after: SlateView,
        result: Result<(), SlateErrorView>,
        secret: Seq<u8>,
        nonce: Seq<u8>,
        id: u64,
        part_sig: Option<Signature>,
        message: Option<Seq<char>>,
        fixed: bool,
    ) -> bool {
        if crate::crypto::is_secret_key(secret) && crate::crypto::is_secret_key(nonce) {
            result is Ok && exists|new: ParticipantView| #[trigger]
                is_participant(new, secret, nonce, id, part_sig, message, fixed) && after
                    == self.with_participant(new)
        } else {
            result == Err::<(), SlateErrorView>(SlateErrorView::Secp) && after == self
        }
    }
}

/// What comes of the first round where `offset` is split off the key: the split has
/// to leave a key, and with what is left the participant joins.
pub open spec fn round_1_with_offset(
    before: SlateView,
    after: SlateView,
    key_before: SecretKey,
    key_after: SecretKey,
    offset: BlindingFactor,
    result: Result<(), SlateErrorView>,
    nonce: Seq<u8>,
    id: u64,
    message: Option<Seq<char>>,
    fixed: bool,
) -> bool {
    if crate::offset::split_number(key_before@, offset@) == 0 {
        crate::offset::split_outcome(before, after, key_before, key_after, offset, result)
    } else {
        crate::crypto::number(key_after@) == crate::offset::split_number(key_before@, offset@)
            && before.with_tx_offset(offset).join_outcome(
            after,
            result,
            key_after@,
            nonce,
            id,
            None,
            message,
            fixed,
        )
    }
}

impl Slate {
    /// The participant with the given id, or none; the first where there are several.
    pub fn participant_with_id(&self, id: usize) -> (r: Option<ParticipantData>)
        ensures
            match first_place(self@.participant_data, |p: ParticipantView| p.id as usize == id) {
                Some(i) => r is Some && r->Some_0@ == self@.participant_data[i],
                None => r is None,
            },
    {
        let ghost wanted = |p: ParticipantView| p.id as usize == id;
        let mut i: usize = 0;
        while i < self.participant_data.len()
            invariant
                i <= self.participant_data@.len(),
                wanted == (|p: ParticipantView| p.id as usize == id),
                forall|j: int| 0 <= j < i ==> !wanted(#[trigger] self@.participant_data[j]),
            decreases self.participant_data@.len() - i,
        {
            assert(self@.participant_data[i as int] == self.participant_data@[i as int]@);
            if self.participant_data[i].id as usize == id {
                proof {
                    lemma_first_place(self@.participant_data, wanted, i as int);
                }
                return Some(self.participant_data[i].clone());
            }
            i = i + 1;
        }
        None
    }

    /// The place of the participant with the given id.
    fn find_participant(&self, id: u64) -> (r: Option<usize>)
        ensures
            match place_of(self@.participant_data, id) {
                Some(i) => r is Some && r->Some_0 == i && i < self.participant_data@.len(),
                None => r is None,
            },
    {
        let ghost wanted = |p: ParticipantView| p.id == id;
        let mut i: usize = 0;
        while i < self.participant_data.len()
            invariant
                i <= self.participant_data@.len(),
                wanted == (|p: ParticipantView| p.id == id),
                forall|j: int| 0 <= j < i ==> !wanted(#[trigger] self@.participant_data[j]),
            decreases self.participant_data@.len() - i,
        {
            assert(self@.participant_data[i as int] == self.participant_data@[i as int]@);
            if self.participant_data[i].id == id {
                proof {
                    lemma_first_place(self@.participant_data, wanted, i as int);
                }
                return Some(i);
            }
            i = i + 1;
        }
        None
    }

    /// Records the data of a participant: updates the one with the same id, or adds
    /// a further one. As long as the keys stay, a partial signature that is not given
    /// anew stays, and so does the signature of a message that stays.
    pub fn record_participant(&mut self, participant: ParticipantData)
        ensures
            final(self)@ == (SlateView {
                participant_data: recorded(old(self)@.participant_data, participant@),
                ..old(self)@
            }),
    {
        let ghost before = self.participant_data@;
        match self.find_participant(participant.id) {
            Some(i) => {
                let mut updated = participant;
                let current: &ParticipantData = &self.participant_data[i];
                if same_bytes(&current.public_blind_excess, &updated.public_blind_excess)
                    && same_bytes(&current.public_nonce, &updated.public_nonce) {
                    if updated.part_sig.is_none() {
                        updated.part_sig = current.part_sig;
                    }
                    if same_optional_text(&current.message, &updated.message)
                        && updated.message_sig.is_none() {
                        updated.message_sig = current.message_sig;
                    }
                }
                assert(updated@ == before[i as int]@.updated(participant@));
                self.participant_data.set(i, updated);
                assert(self@.participant_data =~= old(self)@.participant_data.update(
                    i as int,
                    updated@,
                ));
            },
            None => {
                self.participant_data.push(participant);
                assert(self@.participant_data =~= old(self)@.participant_data.push(participant@));
            },
        }
    }

    /// The sum of the public nonces.
    pub fn pub_nonce_sum(&self) -> (r: Result<PublicKey, SlateError>)
        ensures
            crate::error::outcome(r) == self@.nonce_sum(),
            r is Ok ==> crate::crypto::is_key_sum(r->Ok_0@),
            forall|secrets: Seq<Seq<u8>>| #[trigger]
                crate::crypto::are_public_keys(nonces(self@.participant_data), secrets)
                    && secrets.len() > 0 ==> {
                    let sum = crate::crypto::factor_sum(secrets) % crate::crypto::curve_order();
                    &&& r is Ok <==> sum != 0
                    &&& r is Ok ==> crate::crypto::is_public_key_of(r->Ok_0@, sum)
                },
    {
        let mut all: Vec<PublicKey> = Vec::new();
        let mut i: usize = 0;
        while i < self.participant_data.len()
            invariant
                i <= self.participant_data@.len(),
                all@.len() == i,
                forall|j: int|
                    0 <= j < i ==> #[trigger] all@[j] == self.participant_data@[j].public_nonce,
            decreases self.participant_data@.len() - i,
        {
            all.push(self.participant_data[i].public_nonce);
            i = i + 1;
        }
        assert(crate::crypto::byte_strings(all@) =~= nonces(self@.participant_data));
        proof {
            crate::crypto::byte_strings(all@).to_multiset_ensures();
        }
        if all.len() == 0 {
            return Err(SlateError::GenericError("Participant nonces cannot be empty".to_string()));
        }
        match combine_keys(&all) {
            Ok(k) => Ok(k),
            Err(e) => Err(SlateError::Secp(e)),
        }
    }

    /// The sum of the public keys.
    pub fn pub_blind_sum(&self) -> (r: Result<PublicKey, SlateError>)
        ensures
            crate::error::outcome(r) == self@.key_sum(),
            r is Ok ==> crate::crypto::is_key_sum(r->Ok_0@),
            forall|secrets: Seq<Seq<u8>>| #[trigger]
                crate::crypto::are_public_keys(keys(self@.participant_data), secrets)
                    && secrets.len() > 0 ==> {
                    let sum = crate::crypto::factor_sum(secrets) % crate::crypto::curve_order();
                    &&& r is Ok <==> sum != 0
                    &&& r is Ok ==> crate::crypto::is_public_key_of(r->Ok_0@, sum)
                },
    {
        let mut all: Vec<PublicKey> = Vec::new();
        let mut i: usize = 0;
        while i < self.participant_data.len()
            invariant
                i <= self.participant_data@.len(),
                all@.len() == i,
                forall|j: int|
                    0 <= j < i ==> #[trigger] all@[j]
                        == self.participant_data@[j].public_blind_excess,
            decreases self.participant_data@.len() - i,
        {
            all.push(self.participant_data[i].public_blind_excess);
            i = i + 1;
        }
        assert(crate::crypto::byte_strings(all@) =~= keys(self@.participant_data));
        proof {
            crate::crypto::byte_strings(all@).to_multiset_ensures();
        }
        if all.len() == 0 {
            return Err(
                SlateError::GenericError("Participant Blind sums cannot be empty".to_string()),
            );
        }
        match combine_keys(&all) {
            Ok(k) => Ok(k),
            Err(e) => Err(SlateError::Secp(e)),
        }
    }

    /// The message that the participants sign: that of the kernel of this slate.
    pub fn msg_to_sign(&self) -> (r: Result<Message, SlateError>)
        ensures
            crate::error::outcome(r) == Ok::<Seq<u8>, SlateErrorView>(self@.message()),
    {
        match kernel_sig_msg(&self.kernel_features()) {
            Ok(m) => Ok(m),
            Err(e) => Err(SlateError::Transaction(e)),
        }
    }

    /// Verifies that all partial signatures that are there are valid.
    pub fn verify_part_sigs(&self) -> (r: Result<(), SlateError>)
        ensures
            crate::error::outcome(r) == self@.part_sigs_check(),
    {
        let mut i: usize = 0;
        while i < self.participant_data.len()
            invariant
                i <= self.participant_data@.len(),
                forall|j: int|
                    0 <= j < i && (#[trigger] self@.participant_data[j]).part_sig is Some
                        ==> self@.nonce_sum() is Ok && self@.key_sum() is Ok
                        && !self@.part_sig_wrong(
                        j,
                        self@.nonce_sum()->Ok_0,
                        self@.key_sum()->Ok_0,
                    ),
            decreases self.participant_data@.len() - i,
        {
            let p: &ParticipantData = &self.participant_data[i];
            assert(self@.participant_data[i as int] == p@);
            if let Some(part_sig) = &p.part_sig {
                assert(self@.has_part_sig());
                let nonce_sum: PublicKey = match self.pub_nonce_sum() {
                    Ok(k) => k,
                    Err(e) => return Err(e),
                };
                let key_sum: PublicKey = match self.pub_blind_sum() {
                    Ok(k) => k,
                    Err(e) => return Err(e),
                };
                let message: Message = match self.msg_to_sign() {
                    Ok(m) => m,
                    Err(e) => return Err(e),
                };
                match verify_partial(
                    part_sig,
                    &nonce_sum,
                    &p.public_blind_excess,
                    &key_sum,
                    &message,
                ) {
                    Ok(_) => {},
                    Err(e) => {
                        assert(self@.part_sig_wrong(i as int, nonce_sum@, key_sum@));
                        assert(self@.some_part_sig_wrong(nonce_sum@, key_sum@));
                        return Err(SlateError::LibTx(e));
                    },
                }
            }
            i = i + 1;
        }
        assert(!self@.has_part_sig() || self@.nonce_sum() is Ok && self@.key_sum() is Ok);
        assert forall|j: int|
            0 <= j < self@.participant_data.len() && self@.nonce_sum() is Ok
                && self@.key_sum() is Ok implies !#[trigger] self@.part_sig_wrong(
            j,
            self@.nonce_sum()->Ok_0,
            self@.key_sum()->Ok_0,
        ) by {
            let p = self@.participant_data[j];
        }
        Ok(())
    }

    /// The caller's part of the joint signature, once the parts that are there have
    /// been verified.
    pub fn round_2_signature(&self, sec_key: &SecretKey, sec_nonce: &SecretKey) -> (r: Result<
        Signature,
        SlateError,
    >)
        ensures
            crate::error::outcome(r) == self@.round_2_signature(sec_key@, sec_nonce@),
            crate::crypto::is_secret_key(sec_key@) && self@.part_sigs_check() is Ok
                && self@.nonce_sum() is Ok && self@.key_sum() is Ok ==> r is Ok,
            r is Ok && crate::crypto::public_key(sec_nonce@) is Some && crate::crypto::public_key(
                sec_key@,
            ) is Some ==> crate::crypto::partial_signature_valid(
                r->Ok_0@,
                self@.nonce_sum()->Ok_0,
                crate::crypto::public_key(sec_key@)->Some_0,
                self@.key_sum()->Ok_0,
                self@.message(),
            ),
    {
        match self.verify_part_sigs() {
            Ok(_) => {},
            Err(e) => return Err(e),
        }
        let nonce_sum: PublicKey = match self.pub_nonce_sum() {
            Ok(k) => k,
            Err(e) => return Err(e),
        };
        let key_sum: PublicKey = match self.pub_blind_sum() {
            Ok(k) => k,
            Err(e) => return Err(e),
        };
        let message: Message = match self.msg_to_sign() {
            Ok(m) => m,
            Err(e) => return Err(e),
        };
        match sign_partial(sec_key, sec_nonce, &nonce_sum, &key_sum, &message) {
            Ok(s) => Ok(s),
            Err(e) => Err(SlateError::LibTx(e)),
        }
    }

    /// Sets the partial signature of a participant, where the participant is one of the
    /// intended number. This is refused as long as not all participants have performed
    /// round 1.
    pub fn set_part_sig(&mut self, participant_id: usize, signature: Signature) -> (r: Result<
        (),
        SlateError,
    >)
        ensures
            if old(self)@.all_joined() {
                r is Ok && final(self)@ == old(self)@.with_part_sig(
                    participant_id as u64,
                    signature,
                )
            } else {
                crate::error::outcome(r) == Err::<(), SlateErrorView>(too_early()) && final(self)@
                    == old(self)@
            },
    {
        if self.participant_data.len() < self.num_participants {
            return Err(
                SlateError::GenericError(
                    "Round 2 can only be completed after all participants have performed round 1".to_string(),
                ),
            );
        }
        if let Some(i) = self.find_participant(participant_id as u64) {
            if i < self.num_participants {
                let mut signed: ParticipantData = self.participant_data[i].clone();
                signed.part_sig = Some(signature);
                let ghost view = signed@;
                self.participant_data.set(i, signed);
                assert(self@.participant_data =~= old(self)@.participant_data.update(
                    i as int,
                    view,
                ));
            }
        }
        Ok(())
    }

    /// Completes the caller's part of round 2: the partial signatures that are there are
    /// verified, and that of the caller is added. This is refused as long as not all
    /// participants have performed round 1.
    pub fn fill_round_2(
        &mut self,
        sec_key: &SecretKey,
        sec_nonce: &SecretKey,
        participant_id: usize,
    ) -> (r: Result<(), SlateError>)
        ensures
            match old(self)@.round_2_signature(sec_key@, sec_nonce@) {
                Err(e) => crate::error::outcome(r) == Err::<(), SlateErrorView>(e) && final(self)@
                    == old(self)@,
                Ok(bytes) => if !old(self)@.all_joined() {
                    crate::error::outcome(r) == Err::<(), SlateErrorView>(too_early())
                        && final(self)@ == old(self)@
                } else {
                    r is Ok && exists|signature: Signature|
                        signature@ == bytes && final(self)@ == #[trigger] old(self)@.with_part_sig(
                            participant_id as u64,
                            signature,
                        )
                },
            },
            // A secret key signs, and one that belongs to the participant signs validly.
            crate::crypto::is_secret_key(sec_key@) && old(self)@.part_sigs_check() is Ok && old(
                self,
            )@.nonce_sum() is Ok && old(self)@.key_sum() is Ok && old(self)@.all_joined()
                ==> r is Ok,
            r is Ok && crate::crypto::public_key(sec_nonce@) is Some && old(self)@.key_belongs(
                sec_key@,
                participant_id as u64,
            ) ==> final(self)@.part_sigs_check() is Ok,
    {
        let sig_part: Signature = match self.round_2_signature(sec_key, sec_nonce) {
            Ok(s) => s,
            Err(e) => return Err(e),
        };
        match self.set_part_sig(participant_id, sig_part) {
            Ok(_) => {},
            Err(e) => return Err(e),
        }
        proof {
            if crate::crypto::public_key(sec_nonce@) is Some && old(self)@.key_belongs(
                sec_key@,
                participant_id as u64,
            ) {
                crate::laws::law_valid_part_sig(old(self)@, participant_id as u64, sig_part);
            }
        }
        Ok(())
    }

    /// Adds a participant with the public keys of `sec_key` and `sec_nonce`, or updates
    /// the one with this id. A message is signed with `sec_key`; with `use_test_rng` the
    /// nonce of that signature is always the same.
    pub fn add_participant_info(
        &mut self,
        sec_key: &SecretKey,
        sec_nonce: &SecretKey,
        id: usize,
        part_sig: Option<Signature>,
        message: Option<String>,
        use_test_rng: bool,
    ) -> (r: Result<(), SlateError>)
        ensures
            old(self)@.join_outcome(
                final(self)@,
                crate::error::outcome(r),
                sec_key@,
                sec_nonce@,
                id as u64,
                part_sig,
                crate::bytes::text_view(message),
                use_test_rng,
            ),
    {
        let pub_key: PublicKey = match public_key_of(sec_key) {
            Ok(k) => k,
            Err(e) => return Err(SlateError::Secp(e)),
        };
        let pub_nonce: PublicKey = match public_key_of(sec_nonce) {
            Ok(k) => k,
            Err(e) => return Err(SlateError::Secp(e)),
        };
        let message_sig: Option<Signature> = match &message {
            Some(m) => {
                let hashed: Message = hash_message(m.as_str().as_bytes());
                proof {
                    lemma_test_nonce();
                }
                match sign_single(&hashed, sec_key, message_nonce(use_test_rng), &pub_key) {
                    Ok(s) => Some(s),
                    Err(e) => return Err(SlateError::LibTx(e)),
                }
            },
            None => None,
        };
        let new = ParticipantData {
            id: id as u64,
            public_blind_excess: pub_key,
            public_nonce: pub_nonce,
            part_sig,
            message,
            message_sig,
        };
        assert(is_participant(
            new@,
            sec_key@,
            sec_nonce@,
            id as u64,
            part_sig,
            crate::bytes::text_view(message),
            use_test_rng,
        ));
        self.record_participant(new);
        Ok(())
    }

    /// Completes the caller's part of round 1: the caller joins the slate. The first to do
    /// so in a slate that is not compact also splits the offset of the transaction off
    /// `sec_key`; the offset of the slate itself stays as it is.
    pub fn fill_round_1(
        &mut self,
        sec_key: &mut SecretKey,
        sec_nonce: &SecretKey,
        participant_id: usize,
        message: Option<String>,
        use_test_rng: bool,
    ) -> (r: Result<(), SlateError>)
        ensures
            !old(self)@.splits_key() ==> *final(sec_key) == *old(sec_key) && old(
                self,
            )@.join_outcome(
                final(self)@,
                crate::error::outcome(r),
                old(sec_key)@,
                sec_nonce@,
                participant_id as u64,
                None,
                crate::bytes::text_view(message),
                use_test_rng,
            ),
            old(self)@.splits_key() ==> exists|offset: BlindingFactor|
                #[trigger] crate::offset::is_fresh_offset(offset, use_test_rng)
                    && round_1_with_offset(
                    old(self)@,
                    final(self)@,
                    *old(sec_key),
                    *final(sec_key),
                    offset,
                    crate::error::outcome(r),
                    sec_nonce@,
                    participant_id as u64,
                    crate::bytes::text_view(message),
                    use_test_rng,
                ),
    {
        if !self.compact_slate {
            if same_bytes(&self.tx.offset, &zero_blind()) {
                match self.generate_legacy_offset(sec_key, use_test_rng) {
                    Ok(_) => {},
                    Err(e) => return Err(e),
                }
            }
        }
        self.add_participant_info(sec_key, sec_nonce, participant_id, None, message, use_test_rng)
    }
}

} // verus!
