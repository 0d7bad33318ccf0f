//! The per-request pipeline: mnemonic, seed, BIP32 key for the account,
//! address, and a recoverable signature over the `personal_sign` pre-image.

use crate::crypto::{
    bip32_derive, bip32_derive_of, bip39_seed, bip39_seed_of, compact_of, english_mnemonic_of,
    extended_secret, extended_secret_of, is_low_s, is_secret_scalar, keccak256, keccak256_of,
    message_from_slice, message_of, parse_english_mnemonic, public_key_from_secret,
    public_key_of, recoverable_signature_of, recovery_id_to_i32, recovery_id_value,
    secret_key_from_slice, secret_key_of, serialize_compact, serialize_uncompressed,
    sign_recoverable, uncompressed_of,
};
use crate::encoding::{
    decimal_chars, hex_encode, hex_lower, lemma_hex_lower_len, personal_message, personal_preimage, push_decimal_str,
};
use vstd::prelude::*;
use vstd::string::StringExecFns;
use vstd::utf8::encode_utf8;

verus! {

/// What can go wrong while serving a signing request.
#[derive(Clone, Copy, Debug, PartialEq, Eq, Structural)]
pub enum SignError {
    /// The master secret is not a valid English BIP39 mnemonic.
    InvalidMnemonic,
    /// The derivation path is malformed, or a derived scalar is degenerate.
    DerivationError,
}

impl SignError {
    /// A short human-readable description of the error.
    pub fn describe(&self) -> (r: String)
        ensures
            r@ == match self {
                SignError::InvalidMnemonic => "invalid mnemonic"@,
                SignError::DerivationError => "Failed to derive key"@,
            },
    {
        match self {
            SignError::InvalidMnemonic => String::from_str("invalid mnemonic"),
            SignError::DerivationError => String::from_str("Failed to derive key"),
        }
    }
}

/// A request to sign `message` with the key of account `account_id`.
#[derive(Debug)]
pub struct SignRequest {
    pub account_id: u16,
    pub message: String,
}

/// The signer's address, the message as received, and the signature, the
/// first and last as `0x`-prefixed lowercase hex.
#[derive(Debug)]
pub struct SignResponse {
    pub owner: String,
    pub message: String,
    pub signature: String,
}

/// The derivation path of an account: `m/44'/60'/0'/0/{account_id}`.
pub open spec fn account_path(account_id: u16) -> Seq<char> {
    "m/44'/60'/0'/0/"@ + decimal_chars(account_id as nat)
}

/// The 32 secret bytes that BIP32 derives along `path` from the seed of
/// `phrase` with an empty passphrase.
pub open spec fn derived_secret(phrase: Seq<char>, path: Seq<char>) -> Result<Seq<u8>, SignError> {
    match english_mnemonic_of(phrase) {
        None => Err(SignError::InvalidMnemonic),
        Some(m) => match bip32_derive_of(bip39_seed_of(m, Seq::empty()), path) {
            None => Err(SignError::DerivationError),
            Some(k) => Ok(extended_secret_of(k)),
        },
    }
}

/// The Ethereum address of an uncompressed public key: the last 20 bytes of
/// the Keccak-256 digest of the key without its format byte.
pub open spec fn eth_address_of(uncompressed: Seq<u8>) -> Seq<u8> {
    keccak256_of(uncompressed.subrange(1, 65)).subrange(12, 32)
}

/// The address owned by a secret key given as 32 bytes.
pub open spec fn owner_of(secret: Seq<u8>) -> Seq<u8> {
    eth_address_of(uncompressed_of(public_key_of(secret_key_of(secret))))
}

/// The 65-byte signature r ‖ s ‖ v of `message` under `secret`, with v the
/// recovery id plus 27.
pub open spec fn signature_of(secret: Seq<u8>, message: Seq<u8>) -> Seq<u8> {
    let sig = recoverable_signature_of(
        message_of(keccak256_of(personal_preimage(message))),
        secret_key_of(secret),
    );
    compact_of(sig).1.push((recovery_id_value(compact_of(sig).0) + 27) as u8)
}

/// What signing `message` for `account_id` under the mnemonic `phrase`
/// gives: the owner address and the signature, as bytes.
pub open spec fn sign_outcome(phrase: Seq<char>, account_id: u16, message: Seq<u8>) -> Result<
    (Seq<u8>, Seq<u8>),
    SignError,
> {
    match derived_secret(phrase, account_path(account_id)) {
        Err(e) => Err(e),
        Ok(secret) => Ok((owner_of(secret), signature_of(secret, message))),
    }
}

/// `0x` followed by the lowercase hex of `b`.
pub open spec fn prefixed_hex(b: Seq<u8>) -> Seq<char> {
    "0x"@ + hex_lower(b)
}

/// Formats `0x` followed by the lowercase hex of `b`.
fn to_prefixed_hex(b: &[u8]) -> (r: String)
    ensures
        r@ == prefixed_hex(b@),
{
    let mut s = String::from_str("0x");
    let digits = hex_encode(b);
    s.append(digits.as_str());
    s
}

/// Builds the derivation path of an account.
pub fn account_path_of(account_id: u16) -> (r: String)
    ensures
        r@ == account_path(account_id),
{
    let mut s = String::from_str("m/44'/60'/0'/0/");
    push_decimal_str(&mut s, account_id as usize);
    s
}

/// Checks that `phrase` is a valid English BIP39 mnemonic.
pub fn check_master_secret(phrase: &str) -> (r: Result<(), SignError>)
    ensures
        r is Ok <==> english_mnemonic_of(phrase@) is Some,
        r is Err ==> r == Err::<(), SignError>(SignError::InvalidMnemonic),
{
    match parse_english_mnemonic(phrase) {
        Ok(_) => Ok(()),
        Err(_) => Err(SignError::InvalidMnemonic),
    }
}

/// Derives the 32 secret bytes at `path` from the mnemonic `phrase`.
pub fn derive_secret_from_phrase(phrase: &str, path: &str) -> (r: Result<[u8; 32], SignError>)
    ensures
        match r {
            Ok(k) => derived_secret(phrase@, path@) == Ok::<Seq<u8>, SignError>(k@),
            Err(e) => derived_secret(phrase@, path@) == Err::<Seq<u8>, SignError>(e),
        },
        r matches Ok(k) ==> is_secret_scalar(k@),
{
    let mnemonic = match parse_english_mnemonic(phrase) {
        Ok(m) => m,
        Err(_) => return Err(SignError::InvalidMnemonic),
    };
    proof {
        reveal_strlit("");
        assert(""@ =~= Seq::<char>::empty());
    }
    let seed = bip39_seed(&mnemonic, "");
    match bip32_derive(seed.as_slice(), path) {
        Ok(k) => Ok(extended_secret(&k)),
        Err(_) => Err(SignError::DerivationError),
    }
}

/// The Ethereum address of a public key.
pub fn compute_eth_address(public_key: &secp256k1::PublicKey) -> (r: [u8; 20])
    ensures
        r@ == eth_address_of(uncompressed_of(*public_key)),
{
    let ser = serialize_uncompressed(public_key);
    let mut body: Vec<u8> = Vec::new();
    let mut i: usize = 1;
    while i < 65
        invariant
            1 <= i <= 65,
            ser@.len() == 65,
            body@ == ser@.subrange(1, i as int),
        decreases 65 - i,
    {
        body.push(ser[i]);
        i += 1;
        proof {
            assert(body@ =~= ser@.subrange(1, i as int));
        }
    }
    let hash = keccak256(body.as_slice());
    let mut out = [0u8; 20];
    let mut j: usize = 0;
    while j < 20
        invariant
            j <= 20,
            hash@.len() == 32,
            out@.len() == 20,
            forall|t: int| 0 <= t < j ==> out@[t] == hash@[t + 12],
        decreases 20 - j,
    {
        out[j] = hash[j + 12];
        j += 1;
    }
    proof {
        assert(out@ =~= hash@.subrange(12, 32));
    }
    out
}

/// Signs the request's message with the key of its account under the
/// mnemonic `secret`, and returns the owner address, the message as received
/// and the signature.
pub fn post_sign(secret: &str, req: SignRequest) -> (r: Result<SignResponse, SignError>)
    ensures
        match sign_outcome(secret@, req.account_id, encode_utf8(req.message@)) {
            Ok((owner, signature)) => r matches Ok(resp) && resp.owner@ == prefixed_hex(owner)
                && resp.message@ == req.message@ && resp.signature@ == prefixed_hex(signature)
                && resp.owner@.len() == 42 && resp.signature@.len() == 132 && is_low_s(
                signature.subrange(0, 64),
            ),
            Err(e) => r == Err::<SignResponse, SignError>(e),
        },
{
    let path = account_path_of(req.account_id);
    let secret_bytes = derive_secret_from_phrase(secret, path.as_str())?;
    // BIP32 yields a scalar in (0, n), so the key is accepted.
    let secret_key = secret_key_from_slice(&secret_bytes).unwrap();
    let public_key = public_key_from_secret(&secret_key);

    let eth_data = personal_message(req.message.as_str().as_bytes());
    let hash = keccak256(eth_data.as_slice());
    // A Keccak-256 digest is 32 bytes, so the message is accepted.
    let message = message_from_slice(&hash).unwrap();
    let signature = sign_recoverable(&message, &secret_key);
    let (id, compact) = serialize_compact(&signature);

    let mut ex_sign: Vec<u8> = Vec::new();
    let mut i: usize = 0;
    while i < 64
        invariant
            i <= 64,
            compact@.len() == 64,
            ex_sign@ == compact@.subrange(0, i as int),
        decreases 64 - i,
    {
        ex_sign.push(compact[i]);
        i += 1;
        proof {
            assert(ex_sign@ =~= compact@.subrange(0, i as int));
        }
    }
    let v = recovery_id_to_i32(id);
    ex_sign.push(v as u8 + 27);
    proof {
        assert(compact@.subrange(0, 64) =~= compact@);
    }

    let address = compute_eth_address(&public_key);
    proof {
        reveal_strlit("0x");
        lemma_hex_lower_len(address@);
        lemma_hex_lower_len(ex_sign@);
        assert(ex_sign@.len() == 65);
        assert(prefixed_hex(address@).len() == 42);
        assert(prefixed_hex(ex_sign@).len() == 132);
        assert(ex_sign@.subrange(0, 64) =~= compact@);
    }

    Ok(SignResponse {
        owner: to_prefixed_hex(&address),
        message: req.message,
        signature: to_prefixed_hex(ex_sign.as_slice()),
    })
}

/// The owner address depends on the mnemonic and the account alone: signing
/// two messages for one account either fails for both or names one owner.
pub proof fn lemma_owner_independent_of_message(
    phrase: Seq<char>,
    account_id: u16,
    m1: Seq<u8>,
    m2: Seq<u8>,
)
    ensures
        sign_outcome(phrase, account_id, m1) is Ok <==> sign_outcome(phrase, account_id, m2) is Ok,
        sign_outcome(phrase, account_id, m1) is Ok ==> sign_outcome(phrase, account_id, m1)->Ok_0.0
            == sign_outcome(phrase, account_id, m2)->Ok_0.0,
{
}

/// A master secret that is not a valid mnemonic refuses every request.
pub proof fn lemma_invalid_mnemonic_refuses_all(phrase: Seq<char>, account_id: u16, message: Seq<u8>)
    requires
        english_mnemonic_of(phrase) is None,
    ensures
        sign_outcome(phrase, account_id, message) == Err::<(Seq<u8>, Seq<u8>), SignError>(
            SignError::InvalidMnemonic,
        ),
{
}

} // verus!
