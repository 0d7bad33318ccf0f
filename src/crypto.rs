//! The cryptographic primitives this library relies on, each behind a small
//! trusted item whose contract restates what the providing crate does.

use tiny_keccak::Hasher;
use vstd::prelude::*;

verus! {

#[verifier::external_type_specification]
#[verifier::external_body]
pub struct ExKeccak(tiny_keccak::Keccak);

/// The Keccak-256 digest (Ethereum's pre-standard variant) of a byte string.
pub uninterp spec fn keccak256_of(data: Seq<u8>) -> Seq<u8>;

/// The bytes absorbed so far by a Keccak hasher.
pub uninterp spec fn keccak_absorbed(h: tiny_keccak::Keccak) -> Seq<u8>;

/// The output size in bits that a Keccak hasher was built for.
pub uninterp spec fn keccak_bits(h: tiny_keccak::Keccak) -> nat;

/// Relies on tiny_keccak::Keccak::v256: a fresh Keccak-256 hasher has absorbed nothing.
#[verifier::external_body]
pub(crate) fn keccak_v256() -> (r: tiny_keccak::Keccak)
    ensures
        keccak_absorbed(r) == Seq::<u8>::empty(),
        keccak_bits(r) == 256,
{
    tiny_keccak::Keccak::v256()
}

/// Relies on tiny_keccak's Hasher::update for Keccak: the input is appended to
/// what the hasher has absorbed.
#[verifier::external_body]
pub(crate) fn keccak_update(h: &mut tiny_keccak::Keccak, data: &[u8])
    ensures
        keccak_absorbed(*final(h)) == keccak_absorbed(*old(h)) + data@,
        keccak_bits(*final(h)) == keccak_bits(*old(h)),
{
    h.update(data)
}

/// Relies on tiny_keccak's Hasher::finalize on a hasher built by
/// Keccak::v256: it writes the 32-byte Keccak-256 digest of everything absorbed.
#[verifier::external_body]
pub(crate) fn keccak_finalize(h: tiny_keccak::Keccak) -> (r: [u8; 32])
    requires
        keccak_bits(h) == 256,
    ensures
        r@ == keccak256_of(keccak_absorbed(h)),
{
    let mut output = [0u8; 32];
    h.finalize(&mut output);
    output
}

/// The Keccak-256 digest of `bytes`.
pub fn keccak256(bytes: &[u8]) -> (r: [u8; 32])
    ensures
        r@ == keccak256_of(bytes@),
{
    let mut hasher = keccak_v256();
    keccak_update(&mut hasher, bytes);
    proof {
        assert(Seq::<u8>::empty() + bytes@ =~= bytes@);
    }
    keccak_finalize(hasher)
}


#[verifier::external_type_specification]
#[verifier::external_body]
pub struct ExMnemonic(bip39::Mnemonic);

#[verifier::external_type_specification]
#[verifier::external_body]
pub struct ExAnyhowError(anyhow::Error);

/// The mnemonic that BIP39 parsing of a phrase over the English word list
/// yields, or `None` where the words or the checksum are not valid.
pub uninterp spec fn english_mnemonic_of(phrase: Seq<char>) -> Option<bip39::Mnemonic>;

/// The 64-byte BIP39 seed of a mnemonic under a passphrase.
pub uninterp spec fn bip39_seed_of(m: bip39::Mnemonic, passphrase: Seq<char>) -> Seq<u8>;

/// Relies on bip39::Mnemonic::from_phrase with the English word list: it
/// validates the words and checksum of the phrase and depends on it alone.
#[verifier::external_body]
pub(crate) fn parse_english_mnemonic(phrase: &str) -> (r: Result<bip39::Mnemonic, anyhow::Error>)
    ensures
        match r {
            Ok(m) => english_mnemonic_of(phrase@) == Some(m),
            Err(_) => english_mnemonic_of(phrase@) is None,
        },
{
    bip39::Mnemonic::from_phrase(phrase, bip39::Language::English)
}

/// Relies on bip39::Seed::new and Seed::as_bytes: PBKDF2-HMAC-SHA512 of the
/// mnemonic's phrase, 64 bytes.
#[verifier::external_body]
pub(crate) fn bip39_seed(m: &bip39::Mnemonic, passphrase: &str) -> (r: Vec<u8>)
    ensures
        r@ == bip39_seed_of(*m, passphrase@),
        r@.len() == 64,
{
    bip39::Seed::new(m, passphrase).as_bytes().to_vec()
}

#[verifier::external_type_specification]
#[verifier::external_body]
pub struct ExExtendedPrivKey(tiny_hderive::bip32::ExtendedPrivKey);

#[verifier::external_type_specification]
#[verifier::external_body]
pub struct ExHdError(tiny_hderive::Error);

/// The BIP32 extended private key reached from a seed along a derivation
/// path, or `None` where the path is malformed or a derived scalar is invalid.
pub uninterp spec fn bip32_derive_of(seed: Seq<u8>, path: Seq<char>) -> Option<
    tiny_hderive::bip32::ExtendedPrivKey,
>;

/// The 32-byte secret scalar of an extended private key, big-endian.
pub uninterp spec fn extended_secret_of(k: tiny_hderive::bip32::ExtendedPrivKey) -> Seq<u8>;

/// Relies on tiny_hderive::bip32::ExtendedPrivKey::derive: a function of the
/// seed and the path alone.
#[verifier::external_body]
pub(crate) fn bip32_derive(seed: &[u8], path: &str) -> (r: Result<
    tiny_hderive::bip32::ExtendedPrivKey,
    tiny_hderive::Error,
>)
    ensures
        match r {
            Ok(k) => bip32_derive_of(seed@, path@) == Some(k),
            Err(_) => bip32_derive_of(seed@, path@) is None,
        },
{
    tiny_hderive::bip32::ExtendedPrivKey::derive(seed, path)
}

/// Relies on tiny_hderive::bip32::ExtendedPrivKey::secret: the key's 32 bytes.
/// The key is a libsecp256k1 SecretKey, which every constructor checks to be
/// non-zero and below the group order.
#[verifier::external_body]
pub(crate) fn extended_secret(k: &tiny_hderive::bip32::ExtendedPrivKey) -> (r: [u8; 32])
    ensures
        r@ == extended_secret_of(*k),
        is_secret_scalar(r@),
{
    k.secret()
}

#[verifier::external_type_specification]
#[verifier::external_body]
pub struct ExSecretKey(secp256k1::SecretKey);

#[verifier::external_type_specification]
#[verifier::external_body]
pub struct ExPublicKey(secp256k1::PublicKey);

#[verifier::external_type_specification]
#[verifier::external_body]
pub struct ExMessage(secp256k1::Message);

#[verifier::external_type_specification]
#[verifier::external_body]
pub struct ExRecoverableSignature(secp256k1::recovery::RecoverableSignature);

#[verifier::external_type_specification]
#[verifier::external_body]
pub struct ExRecoveryId(secp256k1::recovery::RecoveryId);

#[verifier::external_type_specification]
#[verifier::external_body]
pub struct ExSecpError(secp256k1::Error);

/// The order n of the secp256k1 group.
pub open spec fn curve_order() -> nat {
    0xFFFFFFFFFFFFFFFFFFFFFFFFFFFFFFFEBAAEDCE6AF48A03BBFD25E8CD0364141nat
}

/// A byte string read as a big-endian unsigned integer.
pub open spec fn be_value(b: Seq<u8>) -> nat
    decreases b.len(),
{
    if b.len() == 0 {
        0
    } else {
        be_value(b.drop_last()) * 256 + b.last() as nat
    }
}

/// 32 bytes that encode a valid secp256k1 secret key: big-endian in (0, n).
pub open spec fn is_secret_scalar(b: Seq<u8>) -> bool {
    b.len() == 32 && 0 < be_value(b) < curve_order()
}

/// A compact signature r ‖ s whose s lies in the lower half of the group
/// order.
pub open spec fn is_low_s(rs: Seq<u8>) -> bool {
    rs.len() == 64 && be_value(rs.subrange(32, 64)) <= curve_order() / 2
}

/// The secp256k1 secret key held in 32 bytes.
pub uninterp spec fn secret_key_of(b: Seq<u8>) -> secp256k1::SecretKey;

/// Relies on secp256k1::SecretKey::from_slice: accepts exactly 32 bytes whose
/// big-endian value lies in (0, n).
#[verifier::external_body]
pub(crate) fn secret_key_from_slice(b: &[u8]) -> (r: Result<secp256k1::SecretKey, secp256k1::Error>)
    ensures
        r is Ok <==> is_secret_scalar(b@),
        r matches Ok(k) ==> k == secret_key_of(b@),
{
    secp256k1::SecretKey::from_slice(b)
}

/// The secp256k1 public key of a secret key: the generator times the scalar.
pub uninterp spec fn public_key_of(k: secp256k1::SecretKey) -> secp256k1::PublicKey;

/// The 65-byte uncompressed serialization of a public key.
pub uninterp spec fn uncompressed_of(p: secp256k1::PublicKey) -> Seq<u8>;

/// Relies on secp256k1::PublicKey::from_secret_key: the generator multiplied
/// by the secret scalar. The context that Secp256k1::new makes for the call
/// holds precomputed tables only and does not change the result.
#[verifier::external_body]
pub(crate) fn public_key_from_secret(k: &secp256k1::SecretKey) -> (r: secp256k1::PublicKey)
    ensures
        r == public_key_of(*k),
{
    secp256k1::PublicKey::from_secret_key(&secp256k1::Secp256k1::new(), k)
}

/// Relies on secp256k1::PublicKey::serialize_uncompressed: 65 bytes, the
/// first of which is the format byte 0x04.
#[verifier::external_body]
pub(crate) fn serialize_uncompressed(p: &secp256k1::PublicKey) -> (r: [u8; 65])
    ensures
        r@ == uncompressed_of(*p),
{
    p.serialize_uncompressed()
}

/// The message object that holds a 32-byte digest.
pub uninterp spec fn message_of(digest: Seq<u8>) -> secp256k1::Message;

/// Relies on secp256k1::Message::from_slice: accepts exactly 32 bytes.
#[verifier::external_body]
pub(crate) fn message_from_slice(b: &[u8]) -> (r: Result<secp256k1::Message, secp256k1::Error>)
    ensures
        r is Ok <==> b@.len() == 32,
        r matches Ok(m) ==> m == message_of(b@),
{
    secp256k1::Message::from_slice(b)
}

/// The recoverable ECDSA signature (RFC 6979 nonce, low-s) of a message
/// under a secret key.
pub uninterp spec fn recoverable_signature_of(
    m: secp256k1::Message,
    k: secp256k1::SecretKey,
) -> secp256k1::recovery::RecoverableSignature;

/// Relies on secp256k1's Secp256k1::sign_recoverable: deterministic (RFC 6979)
/// in the message and the key, and in lower-S form, as libsecp256k1 documents
/// of every signature it creates. The context that Secp256k1::new makes for
/// the call holds precomputed tables only and does not change the result.
#[verifier::external_body]
pub(crate) fn sign_recoverable(m: &secp256k1::Message, k: &secp256k1::SecretKey) -> (r:
    secp256k1::recovery::RecoverableSignature)
    ensures
        r == recoverable_signature_of(*m, *k),
        is_low_s(compact_of(r).1),
{
    secp256k1::Secp256k1::new().sign_recoverable(m, k)
}

/// The compact form of a recoverable signature: its recovery id and r ‖ s.
pub uninterp spec fn compact_of(s: secp256k1::recovery::RecoverableSignature) -> (
    secp256k1::recovery::RecoveryId,
    Seq<u8>,
);

/// Relies on secp256k1's RecoverableSignature::serialize_compact: the recovery
/// id and the 64 bytes r ‖ s.
#[verifier::external_body]
pub(crate) fn serialize_compact(s: &secp256k1::recovery::RecoverableSignature) -> (r: (
    secp256k1::recovery::RecoveryId,
    [u8; 64],
))
    ensures
        r.0 == compact_of(*s).0,
        r.1@ == compact_of(*s).1,
{
    s.serialize_compact()
}

/// The integer value of a recovery id.
pub uninterp spec fn recovery_id_value(id: secp256k1::recovery::RecoveryId) -> i32;

/// Relies on secp256k1's RecoveryId::to_i32: the id, which lies in 0..=3.
#[verifier::external_body]
pub(crate) fn recovery_id_to_i32(id: secp256k1::recovery::RecoveryId) -> (r: i32)
    ensures
        r == recovery_id_value(id),
        0 <= r <= 3,
{
    id.to_i32()
}

} // verus!
