//! The curve, hash and keychain operations that slates rest on.
//!
//! Keys, signatures and commitments are plain byte arrays. Every function here
//! hands them to the crate that does the work and hands the bytes of its
//! result back; the `uninterp` functions name those results.
use crate::transaction::KernelFeatures;
use grin_keychain::Keychain as _;
use grin_util::{secp, static_secp_instance, ToHex};
use vstd::multiset::Multiset;
use vstd::prelude::*;

verus! {

/// A public key in its compressed form.
pub type PublicKey = [u8; 33];

/// A signature as raw bytes.
pub type Signature = [u8; 64];

/// A secret key.
pub type SecretKey = [u8; 32];

/// A blinding factor; all zeros stands for "none".
pub type BlindingFactor = [u8; 32];

/// A message to sign: always a hash.
pub type Message = [u8; 32];

/// A Pedersen commitment.
pub type Commitment = [u8; 33];

/// The identifier of a key in a keychain: its depth, then four path elements.
pub type Identifier = [u8; 17];

/// A transaction id.
pub type Uuid = [u8; 16];

/// The public key of a secret key, where the bytes are a secret key.
pub uninterp spec fn public_key(secret: Seq<u8>) -> Option<Seq<u8>>;

/// The sum of public keys, where all are public keys and they do not cancel out. It does
/// not depend on their order.
pub uninterp spec fn combined_key(keys: Multiset<Seq<u8>>) -> Option<Seq<u8>>;

/// The 32-byte BLAKE2b hash of `data`, without a key.
pub uninterp spec fn blake2b_hash(data: Seq<u8>) -> Seq<u8>;

/// The signature that one signer makes over `message` with a given nonce.
pub uninterp spec fn single_signature(
    message: Seq<u8>,
    secret: Seq<u8>,
    nonce: Seq<u8>,
    key: Seq<u8>,
) -> Option<Seq<u8>>;

/// `signature` is one signer's signature over `message` under `key`.
pub uninterp spec fn single_signature_valid(
    signature: Seq<u8>,
    message: Seq<u8>,
    key: Seq<u8>,
) -> bool;

/// One participant's part of the joint signature over `message`.
pub uninterp spec fn partial_signature(
    secret: Seq<u8>,
    nonce: Seq<u8>,
    nonce_sum: Seq<u8>,
    key_sum: Seq<u8>,
    message: Seq<u8>,
) -> Option<Seq<u8>>;

/// `signature` is the part of the joint signature that belongs to `key`.
pub uninterp spec fn partial_signature_valid(
    signature: Seq<u8>,
    nonce_sum: Seq<u8>,
    key: Seq<u8>,
    key_sum: Seq<u8>,
    message: Seq<u8>,
) -> bool;

/// The parts of a joint signature added up, under the sum of the nonces.
pub uninterp spec fn added_signatures(
    signatures: Seq<Seq<u8>>,
    nonce_sum: Seq<u8>,
) -> Option<Seq<u8>>;

/// `signature` is a joint signature over `message` under `key`, where `key_sum`
/// goes into the challenge.
pub uninterp spec fn completed_signature_valid(
    signature: Seq<u8>,
    key: Seq<u8>,
    key_sum: Seq<u8>,
    message: Seq<u8>,
) -> bool;

/// The message that the signature of a kernel signs.
pub uninterp spec fn kernel_message(kind: u8, fee: u64, height: u64) -> Seq<u8>;

/// The signature of a kernel is one over its message under its excess.
pub uninterp spec fn kernel_valid(
    kind: u8,
    fee: u64,
    height: u64,
    excess: Seq<u8>,
    signature: Seq<u8>,
) -> bool;

/// The key that the keychain of `seed` derives for an output of `amount`.
pub uninterp spec fn derived_key(
    seed: Seq<u8>,
    is_test: bool,
    amount: u64,
    id: Seq<u8>,
) -> Option<Seq<u8>>;

/// The commitment to `value` under a blinding factor.
pub uninterp spec fn value_commitment(value: u64, blind: Seq<u8>) -> Option<Seq<u8>>;

/// The sum of the positive commitments less that of the negative ones.
pub uninterp spec fn commitment_sum(
    positive: Seq<Seq<u8>>,
    negative: Seq<Seq<u8>>,
) -> Option<Seq<u8>>;

/// What the outputs and the overage commit to beyond the inputs.
pub uninterp spec fn transaction_sum(
    inputs: Seq<Seq<u8>>,
    outputs: Seq<Seq<u8>>,
    overage: i64,
) -> Option<Seq<u8>>;

/// A public key as a commitment to zero.
pub uninterp spec fn key_commitment(key: Seq<u8>) -> Option<Seq<u8>>;

/// An amount as text in whole coins.
pub uninterp spec fn amount_text(amount: u64, truncate: bool) -> Seq<char>;

/// The number of elements of the group that keys and commitments live in: keys
/// are numbers modulo this order.
pub open spec fn curve_order() -> int {
    0xFFFFFFFFFFFFFFFFFFFFFFFFFFFFFFFEBAAEDCE6AF48A03BBFD25E8CD0364141int
}

/// The number that bytes write, highest byte first.
pub open spec fn number(bytes: Seq<u8>) -> int
    decreases bytes.len(),
{
    if bytes.len() == 0 {
        0
    } else {
        number(bytes.drop_last()) * 256 + bytes.last()
    }
}

/// The bytes are a secret key: a number below the order that is not zero.
pub open spec fn is_secret_key(bytes: Seq<u8>) -> bool {
    0 < number(bytes) < curve_order()
}

/// The factors added up, without those that are not below the order.
pub open spec fn factor_sum(factors: Seq<Seq<u8>>) -> int
    decreases factors.len(),
{
    if factors.len() == 0 {
        0
    } else {
        factor_sum(factors.drop_last()) + (if number(factors.last()) < curve_order() {
            number(factors.last())
        } else {
            0
        })
    }
}

/// The positive factors less the negative ones, modulo the order.
pub open spec fn factor_difference(positive: Seq<Seq<u8>>, negative: Seq<Seq<u8>>) -> int {
    (factor_sum(positive) - factor_sum(negative)) % curve_order()
}

/// The values that openings of commitments have, added up. An opening is the value that a
/// commitment commits to, and the blinding factor.
pub open spec fn value_sum(openings: Seq<(u64, Seq<u8>)>) -> int
    decreases openings.len(),
{
    if openings.len() == 0 {
        0
    } else {
        value_sum(openings.drop_last()) + openings.last().0
    }
}

/// The blinding factors of openings, in order.
pub open spec fn blinds(openings: Seq<(u64, Seq<u8>)>) -> Seq<Seq<u8>> {
    openings.map_values(|opening: (u64, Seq<u8>)| opening.1)
}

/// `opening` opens `commitment`.
pub open spec fn opens(commitment: Seq<u8>, opening: (u64, Seq<u8>)) -> bool {
    opening.1.len() == 32 && value_commitment(opening.0, opening.1) == Some(commitment)
}

/// `openings` open `commitments`, in order.
pub open spec fn all_open(
    commitments: Seq<Seq<u8>>,
    openings: Seq<(u64, Seq<u8>)>,
) -> bool {
    &&& commitments.len() == openings.len()
    &&& forall|i: int|
        0 <= i < openings.len() ==> opens(#[trigger] commitments[i], #[trigger] openings[i])
}

/// `commitment` is that to zero under the key with the given number: the public key of it
/// as a commitment.
pub open spec fn commits_to_zero(commitment: Seq<u8>, key: int) -> bool {
    exists|blind: Seq<u8>|
        blind.len() == 32 && is_secret_key(blind) && number(blind) == key
            && #[trigger] value_commitment(0, blind) == Some(commitment) && public_key(
            blind,
        ) is Some && key_commitment(public_key(blind)->Some_0) == Some(commitment)
}

/// What commitments add up to whose values cancel out: where the blinding factors do so too,
/// there is no sum; else it is the commitment to zero under what is left of them.
pub open spec fn balanced_sum<const N: usize, E>(
    result: Result<[u8; N], E>,
    positive: Seq<(u64, Seq<u8>)>,
    negative: Seq<(u64, Seq<u8>)>,
) -> bool {
    let key = factor_difference(blinds(positive), blinds(negative));
    &&& key == 0 ==> result is Err
    &&& key != 0 ==> result is Ok && commits_to_zero(result->Ok_0@, key)
}

/// `keys` are the public keys of `secrets`, in order.
pub open spec fn are_public_keys(keys: Seq<Seq<u8>>, secrets: Seq<Seq<u8>>) -> bool {
    &&& keys.len() == secrets.len()
    &&& forall|i: int|
        0 <= i < keys.len() ==> (#[trigger] secrets[i]).len() == 32 && public_key(secrets[i])
            == Some(#[trigger] keys[i])
}

/// `key` is the public key of the secret key with the given number.
pub open spec fn is_public_key_of(key: Seq<u8>, secret: int) -> bool {
    exists|bytes: Seq<u8>|
        bytes.len() == 32 && number(bytes) == secret && #[trigger] public_key(bytes) == Some(key)
}

/// The byte strings of a sequence of arrays.
pub open spec fn byte_strings<const N: usize>(items: Seq<[u8; N]>) -> Seq<Seq<u8>> {
    items.map_values(|item: [u8; N]| item@)
}

/// A call that names its result agrees with the name: both give the same bytes,
/// or neither gives any.
pub open spec fn named<const N: usize, E>(
    result: Result<[u8; N], E>,
    name: Option<Seq<u8>>,
) -> bool {
    match result {
        Ok(bytes) => name == Some(bytes@),
        Err(_) => name is None,
    }
}

/// The bytes are a sum of public keys.
pub open spec fn is_key_sum(bytes: Seq<u8>) -> bool {
    exists|keys: Multiset<Seq<u8>>| keys.len() > 0 && #[trigger] combined_key(keys) == Some(bytes)
}

/// The public keys of secret keys, in order.
pub open spec fn public_keys(secrets: Seq<Seq<u8>>) -> Seq<Seq<u8>> {
    secrets.map_values(|secret: Seq<u8>| public_key(secret)->Some_0)
}

/// `signature` is the part of a joint signature that `secret` makes with `nonce`.
pub open spec fn is_part(
    signature: Seq<u8>,
    secret: Seq<u8>,
    nonce: Seq<u8>,
    nonce_sum: Seq<u8>,
    key_sum: Seq<u8>,
    message: Seq<u8>,
) -> bool {
    &&& public_key(secret) is Some
    &&& public_key(nonce) is Some
    &&& partial_signature(secret, nonce, nonce_sum, key_sum, message) == Some(signature)
}

/// `signatures` are the parts of a joint signature over `message`: one by each of
/// `secrets` with the nonce at the same place, where `key_sum` is the sum of all their
/// public keys and `nonce_sum` that of all public nonces.
pub open spec fn jointly_signed(
    signatures: Seq<Seq<u8>>,
    secrets: Seq<Seq<u8>>,
    nonces: Seq<Seq<u8>>,
    nonce_sum: Seq<u8>,
    key_sum: Seq<u8>,
    message: Seq<u8>,
) -> bool {
    &&& 0 < signatures.len() == secrets.len() == nonces.len()
    &&& combined_key(public_keys(secrets).to_multiset()) == Some(key_sum)
    &&& combined_key(public_keys(nonces).to_multiset()) == Some(nonce_sum)
    &&& forall|i: int|
        0 <= i < signatures.len() ==> #[trigger] is_part(
            signatures[i],
            secrets[i],
            nonces[i],
            nonce_sum,
            key_sum,
            message,
        )
}

/// `signature` is what the parts of a joint signature over `message` add up to.
pub open spec fn is_joint_signature(
    signature: Seq<u8>,
    key_sum: Seq<u8>,
    message: Seq<u8>,
) -> bool {
    exists|
        signatures: Seq<Seq<u8>>,
        secrets: Seq<Seq<u8>>,
        nonces: Seq<Seq<u8>>,
        nonce_sum: Seq<u8>,
    | #[trigger]
        jointly_signed(signatures, secrets, nonces, nonce_sum, key_sum, message)
            && added_signatures(signatures, nonce_sum) == Some(signature)
}

/// `signature` is a joint signature under the key that `excess` commits to.
pub open spec fn is_joint_kernel_signature(
    signature: Seq<u8>,
    excess: Seq<u8>,
    message: Seq<u8>,
) -> bool {
    exists|key_sum: Seq<u8>|
        key_commitment(key_sum) == Some(excess) && #[trigger] is_joint_signature(
            signature,
            key_sum,
            message,
        )
}

/// Byte `i` of the numbers `start`, `start + step`, `start + 2 * step`, ...
/// written one after the other, each as eight bytes, lowest byte first.
pub open spec fn stepped_byte(start: int, step: int, i: int) -> u8 {
    ((start + (i / 8) * step) / vstd::arithmetic::power::pow(256, (i % 8) as nat) % 256) as u8
}

/// The least of a number and the largest `u64`.
pub open spec fn saturated(n: int) -> u64 {
    if n > u64::MAX {
        u64::MAX
    } else {
        n as u64
    }
}

/// A number lies between what its first byte alone writes and what the next higher
/// first byte writes.
pub proof fn lemma_number_bounds(bytes: Seq<u8>)
    requires
        bytes.len() > 0,
    ensures
        bytes[0] * vstd::arithmetic::power::pow(256, (bytes.len() - 1) as nat) <= number(bytes)
            < (bytes[0] + 1) * vstd::arithmetic::power::pow(256, (bytes.len() - 1) as nat),
    decreases bytes.len(),
{
    let rest = bytes.drop_last();
    if rest.len() == 0 {
        let p = vstd::arithmetic::power::pow(256, rest.len());
        let b = bytes[0] as int;
        vstd::arithmetic::power::lemma_pow0(256);
        assert(number(rest) == 0);
        assert(b * p == b && (b + 1) * p == b + 1) by (nonlinear_arith)
            requires
                p == 1,
        ;
    } else {
        lemma_number_bounds(rest);
        let p = vstd::arithmetic::power::pow(256, (rest.len() - 1) as nat);
        let q = vstd::arithmetic::power::pow(256, rest.len());
        let b = bytes[0] as int;
        let n = number(rest);
        let last = bytes.last() as int;
        assert(q == 256 * p) by {
            reveal(vstd::arithmetic::power::pow);
        }
        assert(b * q <= n * 256 + last && n * 256 + last < (b + 1) * q) by (nonlinear_arith)
            requires
                q == 256 * p,
                b * p <= n < (b + 1) * p,
                0 <= last < 256,
        ;
    }
}

/// A first byte below the highest keeps 32 bytes below the order.
pub proof fn lemma_first_byte_bounds()
    ensures
        0xFF * vstd::arithmetic::power::pow(256, 31) < curve_order(),
        0 < vstd::arithmetic::power::pow(256, 31),
{
    reveal_with_fuel(vstd::arithmetic::power::pow, 32);
}

/// A fresh random id, by `uuid::Uuid::new_v4`. The version digit is 4 and the
/// variant bits are those of RFC 4122; the other bits are random.
#[verifier::external_body]
pub(crate) fn random_uuid() -> (r: Uuid)
    ensures
        r@[6] / 16 == 4,
        r@[8] / 64 == 2,
{
    *uuid::Uuid::new_v4().as_bytes()
}

/// The public key of `secret`, by `PublicKey::from_secret_key`, for bytes that
/// `SecretKey::from_slice` accepts: those of a number that is not zero and below
/// the order of the group.
#[verifier::external_body]
pub(crate) fn public_key_of(secret: &SecretKey) -> (r: Result<PublicKey, secp::Error>)
    ensures
        named(r, public_key(secret@)),
        r is Ok <==> is_secret_key(secret@),
{
    let secp = static_secp_instance();
    let secp = secp.lock();
    let secret = secp::key::SecretKey::from_slice(&secp, secret)?;
    let key = secp::key::PublicKey::from_secret_key(&secp, &secret)?;
    Ok(key.serialize_vec(&secp, true)[..].try_into().unwrap())
}

/// The sum of `keys`, by `PublicKey::from_combination`: their sum as points of the
/// curve, which is the same in whatever order they are added. The sum of the public keys of
/// secret keys is the public key of their sum modulo the order, and fails where that is zero.
#[verifier::external_body]
pub(crate) fn combine_keys(keys: &Vec<PublicKey>) -> (r: Result<PublicKey, secp::Error>)
    requires
        keys@.len() > 0,
    ensures
        named(r, combined_key(byte_strings(keys@).to_multiset())),
        forall|secrets: Seq<Seq<u8>>| #[trigger]
            are_public_keys(byte_strings(keys@), secrets) ==> {
                &&& r is Ok <==> factor_sum(secrets) % curve_order() != 0
                &&& r is Ok ==> is_public_key_of(r->Ok_0@, factor_sum(secrets) % curve_order())
            },
{
    let secp = static_secp_instance();
    let secp = secp.lock();
    let keys = keys
        .iter()
        .map(|key| secp::key::PublicKey::from_slice(&secp, key))
        .collect::<Result<Vec<_>, _>>()?;
    let sum = secp::key::PublicKey::from_combination(&secp, keys.iter().collect())?;
    Ok(sum.serialize_vec(&secp, true)[..].try_into().unwrap())
}

/// The hash of `data`, by `blake2b` with a 32-byte result and no key.
#[verifier::external_body]
pub(crate) fn hash_message(data: &[u8]) -> (r: Message)
    ensures
        r@ == blake2b_hash(data@),
{
    blake2_rfc::blake2b::blake2b(32, &[], data).as_bytes().try_into().unwrap()
}

/// A signature by `secret` over `message`, by `aggsig::sign_single`. With a nonce
/// the result is determined; without one the nonce is random. Secret keys always
/// sign, and `aggsig::verify_single` accepts the signature under the public key of
/// `secret`, where that is the key that went into the challenge.
#[verifier::external_body]
pub(crate) fn sign_single(
    message: &Message,
    secret: &SecretKey,
    nonce: Option<SecretKey>,
    key: &PublicKey,
) -> (r: Result<Signature, grin_core::libtx::Error>)
    ensures
        nonce matches Some(n) ==> named(r, single_signature(message@, secret@, n@, key@)),
        is_secret_key(secret@) && public_key(secret@) == Some(key@) && (nonce is Some
            ==> is_secret_key(nonce->Some_0@)) ==> r is Ok,
        r is Ok && public_key(secret@) == Some(key@) ==> single_signature_valid(
            r->Ok_0@,
            message@,
            key@,
        ),
{
    let secp = static_secp_instance();
    let secp = secp.lock();
    let message = secp::Message::from_slice(message)?;
    let secret = secp::key::SecretKey::from_slice(&secp, secret)?;
    let decode = |n: SecretKey| secp::key::SecretKey::from_slice(&secp, &n);
    let nonce = nonce.map(decode).transpose()?;
    let key = secp::key::PublicKey::from_slice(&secp, key)?;
    let sig =
        grin_core::libtx::aggsig::sign_single(&secp, &message, &secret, nonce.as_ref(), Some(&key))?;
    Ok(sig.to_raw_data())
}

/// Whether `signature` is one over `message` under `key`, by
/// `aggsig::verify_single` on a complete signature; false where the key or the
/// message cannot be decoded.
#[verifier::external_body]
pub(crate) fn verify_single(signature: &Signature, message: &Message, key: &PublicKey) -> (r: bool)
    ensures
        r == single_signature_valid(signature@, message@, key@),
{
    let secp = static_secp_instance();
    let secp = secp.lock();
    match (
        secp::Signature::from_raw_data(signature),
        secp::Message::from_slice(message),
        secp::key::PublicKey::from_slice(&secp, key),
    ) {
        (Ok(s), Ok(m), Ok(k)) => {
            grin_core::libtx::aggsig::verify_single(&secp, &s, &m, None, &k, Some(&k), false)
        },
        _ => false,
    }
}

/// A participant's part of the joint signature, by
/// `aggsig::calculate_partial_sig`. A secret key always signs where the sums are sums
/// of public keys. With a nonce that is a secret key, `aggsig::verify_partial_sig`
/// accepts the part under the public key of `secret`.
#[verifier::external_body]
pub(crate) fn sign_partial(
    secret: &SecretKey,
    nonce: &SecretKey,
    nonce_sum: &PublicKey,
    key_sum: &PublicKey,
    message: &Message,
) -> (r: Result<Signature, grin_core::libtx::Error>)
    ensures
        named(r, partial_signature(secret@, nonce@, nonce_sum@, key_sum@, message@)),
        is_secret_key(secret@) && is_key_sum(nonce_sum@) && is_key_sum(key_sum@) ==> r is Ok,
        r is Ok && public_key(nonce@) is Some && public_key(secret@) is Some
            ==> partial_signature_valid(
            r->Ok_0@,
            nonce_sum@,
            public_key(secret@)->Some_0,
            key_sum@,
            message@,
        ),
{
    let secp = static_secp_instance();
    let secp = secp.lock();
    let secret = secp::key::SecretKey(*secret);
    let nonce = secp::key::SecretKey(*nonce);
    let nonce_sum = secp::key::PublicKey::from_slice(&secp, nonce_sum)?;
    let key_sum = secp::key::PublicKey::from_slice(&secp, key_sum)?;
    let message = secp::Message::from_slice(message)?;
    let sig = grin_core::libtx::aggsig::calculate_partial_sig(
        &secp, &secret, &nonce, &nonce_sum, Some(&key_sum), &message,
    )?;
    Ok(sig.to_raw_data())
}

/// Whether `signature` is the part of the joint signature that belongs to `key`,
/// by `aggsig::verify_partial_sig`; an error where it is not.
#[verifier::external_body]
pub(crate) fn verify_partial(
    signature: &Signature,
    nonce_sum: &PublicKey,
    key: &PublicKey,
    key_sum: &PublicKey,
    message: &Message,
) -> (r: Result<(), grin_core::libtx::Error>)
    ensures
        r is Ok <==> partial_signature_valid(signature@, nonce_sum@, key@, key_sum@, message@),
{
    let secp = static_secp_instance();
    let secp = secp.lock();
    let signature = secp::Signature::from_raw_data(signature)?;
    let nonce_sum = secp::key::PublicKey::from_slice(&secp, nonce_sum)?;
    let key = secp::key::PublicKey::from_slice(&secp, key)?;
    let sum = secp::key::PublicKey::from_slice(&secp, key_sum)?;
    let message = secp::Message::from_slice(message)?;
    grin_core::libtx::aggsig::verify_partial_sig(
        &secp, &signature, &nonce_sum, &key, Some(&sum), &message,
    )
}

/// The parts of a joint signature added up, by `aggsig::add_signatures`. Parts that
/// `aggsig::calculate_partial_sig` made can be added.
#[verifier::external_body]
pub(crate) fn add_signatures(signatures: &Vec<Signature>, nonce_sum: &PublicKey) -> (r: Result<
    Signature,
    grin_core::libtx::Error,
>)
    ensures
        named(r, added_signatures(byte_strings(signatures@), nonce_sum@)),
        forall|secrets: Seq<Seq<u8>>, nonces: Seq<Seq<u8>>, key_sum: Seq<u8>, message: Seq<u8>|
            #[trigger]
            jointly_signed(
                byte_strings(signatures@),
                secrets,
                nonces,
                nonce_sum@,
                key_sum,
                message,
            ) ==> r is Ok,
{
    let secp = static_secp_instance();
    let secp = secp.lock();
    let signatures = signatures
        .iter()
        .map(|s| secp::Signature::from_raw_data(s))
        .collect::<Result<Vec<_>, _>>()?;
    let nonce_sum = secp::key::PublicKey::from_slice(&secp, nonce_sum)?;
    let parts = signatures.iter().collect();
    let sum = grin_core::libtx::aggsig::add_signatures(&secp, parts, &nonce_sum)?;
    Ok(sum.to_raw_data())
}

/// Whether `signature` is a joint signature under `key`, by
/// `aggsig::verify_completed_sig`; an error where it is not. What the parts of all
/// signers add up to is one.
#[verifier::external_body]
pub(crate) fn verify_completed(
    signature: &Signature,
    key: &PublicKey,
    key_sum: &PublicKey,
    message: &Message,
) -> (r: Result<(), grin_core::libtx::Error>)
    ensures
        r is Ok <==> completed_signature_valid(signature@, key@, key_sum@, message@),
        key@ == key_sum@ && is_joint_signature(signature@, key_sum@, message@) ==> r is Ok,
{
    let secp = static_secp_instance();
    let secp = secp.lock();
    let signature = secp::Signature::from_raw_data(signature)?;
    let key = secp::key::PublicKey::from_slice(&secp, key)?;
    let key_sum = secp::key::PublicKey::from_slice(&secp, key_sum)?;
    let message = secp::Message::from_slice(message)?;
    grin_core::libtx::aggsig::verify_completed_sig(
        &secp, &signature, &key, Some(&key_sum), &message,
    )
}

/// The message that a kernel with these features signs, by
/// `KernelFeatures::kernel_sig_msg`: a hash of the features. There is one for
/// all features but a relative height that no kernel can have.
#[verifier::external_body]
pub(crate) fn kernel_sig_msg(features: &KernelFeatures) -> (r: Result<
    Message,
    grin_core::core::transaction::Error,
>)
    ensures
        r is Ok <==> features.valid(),
        r matches Ok(m) ==> m@ == kernel_message(
            features.kind(),
            features.fee_field(),
            features.height_field(),
        ),
{
    let fee = |f: u64| grin_core::ser::deserialize_default(&mut &f.to_be_bytes()[..]).unwrap();
    let features = match *features {
        KernelFeatures::Plain { fee: f } => grin_core::core::KernelFeatures::Plain { fee: fee(f) },
        KernelFeatures::Coinbase => grin_core::core::KernelFeatures::Coinbase,
        KernelFeatures::HeightLocked { fee: f, lock_height } => {
            grin_core::core::KernelFeatures::HeightLocked { fee: fee(f), lock_height }
        },
        KernelFeatures::NoRecentDuplicate { fee: f, relative_height: h } => {
            let relative_height = grin_core::core::NRDRelativeHeight::new(h as u64)?;
            grin_core::core::KernelFeatures::NoRecentDuplicate { fee: fee(f), relative_height }
        },
    };
    Ok(features.kernel_sig_msg()?[..].try_into().unwrap())
}

/// Checks the signature of a kernel against its features and its excess, by
/// `TxKernel::verify`; an error where the check fails or a part of the kernel
/// cannot be decoded. What the parts of all signers add up to verifies where the excess
/// commits to the sum of their keys.
#[verifier::external_body]
pub(crate) fn verify_kernel(
    features: &KernelFeatures,
    excess: &Commitment,
    signature: &Signature,
) -> (r: Result<(), grin_core::core::transaction::Error>)
    ensures
        r is Ok <==> kernel_valid(
            features.kind(),
            features.fee_field(),
            features.height_field(),
            excess@,
            signature@,
        ),
        features.valid() && is_joint_kernel_signature(
            signature@,
            excess@,
            kernel_message(features.kind(), features.fee_field(), features.height_field()),
        ) ==> r is Ok,
{
    let fee = |f: u64| grin_core::ser::deserialize_default(&mut &f.to_be_bytes()[..]).unwrap();
    let features = match *features {
        KernelFeatures::Plain { fee: f } => grin_core::core::KernelFeatures::Plain { fee: fee(f) },
        KernelFeatures::Coinbase => grin_core::core::KernelFeatures::Coinbase,
        KernelFeatures::HeightLocked { fee: f, lock_height } => {
            grin_core::core::KernelFeatures::HeightLocked { fee: fee(f), lock_height }
        },
        KernelFeatures::NoRecentDuplicate { fee: f, relative_height: h } => {
            let relative_height = grin_core::core::NRDRelativeHeight::new(h as u64)?;
            grin_core::core::KernelFeatures::NoRecentDuplicate { fee: fee(f), relative_height }
        },
    };
    let excess_sig = secp::Signature::from_raw_data(signature)?;
    let excess = secp::pedersen::Commitment(*excess);
    grin_core::core::TxKernel { features, excess, excess_sig }.verify()
}

/// The positive factors less the negative ones, by `Keychain::blind_sum` of some
/// keychain. Over bare blinding factors it reads nothing of the keychain's own keys, leaves out
/// factors that `BlindingFactor::secret_key` refuses, and computes modulo the order
/// of the group. Zero is no secret key, so it fails where the difference is zero.
#[verifier::external_body]
pub(crate) fn sum_blinds(positive: &Vec<BlindingFactor>, negative: &Vec<BlindingFactor>) -> (r: Result<
    BlindingFactor,
    grin_keychain::Error,
>)
    ensures
        r is Ok <==> factor_difference(byte_strings(positive@), byte_strings(negative@)) != 0,
        r matches Ok(sum) ==> number(sum@) == factor_difference(
            byte_strings(positive@),
            byte_strings(negative@),
        ),
{
    let factor = |b: &BlindingFactor| grin_keychain::BlindingFactor::from_slice(b);
    let chain = grin_keychain::ExtKeychain::from_seed(&[0; 32], false)?;
    let sum = chain.blind_sum(&grin_keychain::BlindSum {
        positive_key_ids: vec![],
        negative_key_ids: vec![],
        positive_blinding_factors: positive.iter().map(factor).collect(),
        negative_blinding_factors: negative.iter().map(factor).collect(),
    })?;
    Ok(sum.as_ref().try_into().unwrap())
}

/// A blinding factor as a secret key, by `BlindingFactor::secret_key`: the same
/// bytes, where they are a secret key or zero.
#[verifier::external_body]
pub(crate) fn blind_secret_key(factor: &BlindingFactor) -> (r: Result<SecretKey, grin_keychain::Error>)
    ensures
        r is Ok <==> number(factor@) < curve_order(),
        r matches Ok(key) ==> key == *factor,
{
    let secp = static_secp_instance();
    let secp = secp.lock();
    Ok(grin_keychain::BlindingFactor::from_slice(factor).secret_key(&secp)?.0)
}

/// The key of output `id` of `amount` in the keychain of `seed`, by
/// `Keychain::derive_key` with the regular switch commitment. A path has at most
/// four elements. It panics on a key for which the switch commitment hashes to no
/// scalar; none is known.
#[verifier::external_body]
pub(crate) fn derive_key(seed: &[u8], is_test: bool, amount: u64, id: &Identifier) -> (r: Result<
    SecretKey,
    grin_keychain::Error,
>)
    requires
        id@[0] <= 4,
    ensures
        named(r, derived_key(seed@, is_test, amount, id@)),
{
    let chain = grin_keychain::ExtKeychain::from_seed(seed, is_test)?;
    let id = grin_keychain::Identifier::from_bytes(id);
    Ok(chain.derive_key(amount, &id, grin_keychain::SwitchCommitmentType::Regular)?.0)
}

/// The commitment to `value` under `blind`, by `Secp256k1::commit`. To zero there is one
/// exactly under a secret key.
#[verifier::external_body]
pub(crate) fn commit(value: u64, blind: &SecretKey) -> (r: Result<Commitment, secp::Error>)
    ensures
        named(r, value_commitment(value, blind@)),
        value == 0 ==> (r is Ok <==> is_secret_key(blind@)),
{
    let secp = static_secp_instance();
    let secp = secp.lock();
    Ok(secp.commit(value, secp::key::SecretKey(*blind))?.0)
}

/// The positive commitments less the negative ones, by `Secp256k1::commit_sum`: their sum as
/// points of the curve, which fails where it is infinity. A commitment to a value under a
/// blinding factor is the sum of a multiple of one generator by the value and of one of
/// another by the factor, so values and factors add up; under the second generator alone it
/// is the public key of the factor.
#[verifier::external_body]
pub(crate) fn sum_commits(positive: &Vec<Commitment>, negative: &Vec<Commitment>) -> (r: Result<
    Commitment,
    secp::Error,
>)
    ensures
        named(r, commitment_sum(byte_strings(positive@), byte_strings(negative@))),
        forall|added: Seq<(u64, Seq<u8>)>, taken: Seq<(u64, Seq<u8>)>|
            #[trigger] all_open(byte_strings(positive@), added) && #[trigger] all_open(
                byte_strings(negative@),
                taken,
            ) && value_sum(added) == value_sum(taken) ==> balanced_sum(r, added, taken),
{
    let secp = static_secp_instance();
    let secp = secp.lock();
    let commitment = |c: &Commitment| secp::pedersen::Commitment(*c);
    let positive = positive.iter().map(commitment).collect();
    let negative = negative.iter().map(commitment).collect();
    Ok(secp.commit_sum(positive, negative)?.0)
}

/// What outputs and overage commit to beyond the inputs, by
/// `Committed::sum_commitments` on a transaction body. It reads nothing of the
/// body but the commitments of its inputs and outputs. A commitment to the overage with no
/// blinding factor is counted with the outputs, or with the inputs where it is negative, and
/// the sum is that of `sum_commits`. The lowest `i64` is refused.
#[verifier::external_body]
pub(crate) fn sum_transaction(
    inputs: &Vec<Commitment>,
    outputs: &Vec<Commitment>,
    overage: i64,
) -> (r: Result<Commitment, grin_core::core::committed::Error>)
    ensures
        named(r, transaction_sum(byte_strings(inputs@), byte_strings(outputs@), overage)),
        forall|spent: Seq<(u64, Seq<u8>)>, created: Seq<(u64, Seq<u8>)>|
            #[trigger] all_open(byte_strings(inputs@), spent) && #[trigger] all_open(
                byte_strings(outputs@),
                created,
            ) && overage > i64::MIN && value_sum(created) + overage == value_sum(spent)
                ==> balanced_sum(r, created, spent),
{
    let body = grin_core::core::TransactionBody {
        inputs: grin_core::core::Inputs::CommitOnly(
            inputs.iter().map(|c| secp::pedersen::Commitment(*c).into()).collect(),
        ),
        outputs: outputs.iter().map(|c| grin_core::core::Output::new(
            grin_core::core::OutputFeatures::Plain,
            secp::pedersen::Commitment(*c),
            secp::pedersen::RangeProof::zero(),
        )).collect(),
        kernels: vec![],
    };
    Ok(grin_core::core::Committed::sum_commitments(&body, overage)?.0)
}

/// A public key as a commitment, by `Commitment::from_pubkey`. Every sum of public keys
/// is one.
#[verifier::external_body]
pub(crate) fn commit_to_key(key: &PublicKey) -> (r: Result<Commitment, secp::Error>)
    ensures
        named(r, key_commitment(key@)),
        is_key_sum(key@) ==> r is Ok,
{
    let secp = static_secp_instance();
    let secp = secp.lock();
    let key = secp::key::PublicKey::from_slice(&secp, key)?;
    Ok(secp::pedersen::Commitment::from_pubkey(&secp, &key)?.0)
}

/// A fresh random key, by `SecretKey::new` with the generator of this thread.
/// Which one is left to chance, but it is a secret key.
#[verifier::external_body]
pub(crate) fn random_secret_key() -> (r: SecretKey)
    ensures
        is_secret_key(r@),
{
    let secp = static_secp_instance();
    let secp = secp.lock();
    secp::key::SecretKey::new(&secp, &mut rand::thread_rng()).0
}

/// The key that `SecretKey::new` draws from `StepRng::new(start, step)`: the
/// numbers of the generator one after the other. The first byte rules out that
/// the bytes are no key and have to be drawn again.
#[verifier::external_body]
pub(crate) fn stepped_secret_key(start: u64, step: u64) -> (r: SecretKey)
    requires
        0 < start % 256 < 255,
        start + 3 * step <= u64::MAX,
    ensures
        r@ == Seq::new(32, |i: int| stepped_byte(start as int, step as int, i)),
{
    let secp = static_secp_instance();
    let secp = secp.lock();
    secp::key::SecretKey::new(&secp, &mut rand::rngs::mock::StepRng::new(start, step)).0
}

/// The weight of a transaction with so many inputs, outputs and kernels, by
/// `Transaction::weight_by_iok`: a weight of 1, 21 and 3 for each, where sums
/// and products stop at the largest `u64`.
#[verifier::external_body]
pub(crate) fn transaction_weight(inputs: u64, outputs: u64, kernels: u64) -> (r: u64)
    ensures
        r == saturated(inputs + 21 * outputs + 3 * kernels),
{
    grin_core::core::Transaction::weight_by_iok(inputs, outputs, kernels)
}

/// The fee that this process asks for one unit of weight, by
/// `global::get_accept_fee_base`: a setting, so nothing is said of its value.
#[verifier::external_body]
pub(crate) fn accept_fee_base() -> u64 {
    grin_core::global::get_accept_fee_base()
}

/// An amount as text in whole coins, by `amount_to_hr_string`.
#[verifier::external_body]
pub(crate) fn amount_to_text(amount: u64, truncate: bool) -> (r: String)
    ensures
        r@ == amount_text(amount, truncate),
{
    grin_core::core::amount_to_hr_string(amount, truncate)
}

/// `bytes` in hexadecimal, by `ToHex::to_hex`.
#[verifier::external_body]
pub(crate) fn hex_text(bytes: &[u8]) -> (r: String)
    ensures
        r@ == crate::text::hexadecimal(bytes@),
{
    bytes.to_hex()
}

} // verus!
