use eth_signer::crypto::keccak256;
use eth_signer::encoding::personal_message;
use eth_signer::signer::{
    account_path_of, check_master_secret, compute_eth_address, derive_secret_from_phrase,
    post_sign, SignError, SignRequest,
};
use secp256k1::recovery::{RecoverableSignature, RecoveryId};

const TEST_MNEMONIC: &str = "test test test test test test test test test test test junk";

fn request(account_id: u16, message: &str) -> SignRequest {
    SignRequest { account_id, message: message.to_string() }
}

fn recover_owner(message: &str, signature_hex: &str) -> String {
    let sig = hex::decode(&signature_hex[2..]).unwrap();
    assert_eq!(sig.len(), 65);
    let id = RecoveryId::from_i32(sig[64] as i32 - 27).unwrap();
    let recoverable = RecoverableSignature::from_compact(&sig[..64], id).unwrap();
    let digest = keccak256(&personal_message(message.as_bytes()));
    let msg = secp256k1::Message::from_slice(&digest).unwrap();
    let public_key = secp256k1::Secp256k1::new().recover(&msg, &recoverable).unwrap();
    format!("0x{}", hex::encode(compute_eth_address(&public_key)))
}

#[test]
fn keccak256_known_vectors() {
    assert_eq!(
        hex::encode(keccak256(b"")),
        "c5d2460186f7233c927e7db2dcc703c0e500b653ca82273b7bfad8045d85a470"
    );
    assert_eq!(
        hex::encode(keccak256(b"hello")),
        "1c8aff950685c2ed4bc3174f3472287b56d9517b9c948127319a09a7a36deac8"
    );
}

#[test]
fn personal_message_embeds_byte_length() {
    let pre = personal_message("hello".as_bytes());
    assert_eq!(pre, b"\x19Ethereum Signed Message:\n5hello".to_vec());
    let empty = personal_message(b"");
    assert_eq!(empty, b"\x19Ethereum Signed Message:\n0".to_vec());
}

#[test]
fn personal_message_counts_bytes_not_chars() {
    let message = "é";
    assert_eq!(message.chars().count(), 1);
    let pre = personal_message(message.as_bytes());
    let mut expected = b"\x19Ethereum Signed Message:\n2".to_vec();
    expected.extend_from_slice(message.as_bytes());
    assert_eq!(pre, expected);
    let long = "x".repeat(1234);
    let pre = personal_message(long.as_bytes());
    assert_eq!(&pre[26..30], b"1234");
    assert_eq!(pre.len(), 30 + 1234);
}

#[test]
fn account_paths() {
    assert_eq!(account_path_of(0), "m/44'/60'/0'/0/0");
    assert_eq!(account_path_of(42), "m/44'/60'/0'/0/42");
    assert_eq!(account_path_of(65535), "m/44'/60'/0'/0/65535");
}

#[test]
fn derives_known_secret_key() {
    let key = derive_secret_from_phrase(TEST_MNEMONIC, "m/44'/60'/0'/0/0").unwrap();
    assert_eq!(
        hex::encode(key),
        "ac0974bec39a17e36ba4a6b4d238ff944bacb478cbed5efcae784d7bf4f2ff80"
    );
}

#[test]
fn malformed_path_is_a_derivation_error() {
    assert_eq!(
        derive_secret_from_phrase(TEST_MNEMONIC, "not a path"),
        Err(SignError::DerivationError)
    );
}

#[test]
fn invalid_mnemonic_is_rejected() {
    let bad = "test test test test test test test test test test test test";
    assert_eq!(check_master_secret(bad), Err(SignError::InvalidMnemonic));
    assert_eq!(check_master_secret("not a mnemonic"), Err(SignError::InvalidMnemonic));
    assert_eq!(check_master_secret(TEST_MNEMONIC), Ok(()));
    for id in [0u16, 1, 65535] {
        let r = post_sign(bad, request(id, "hello"));
        assert_eq!(r.unwrap_err(), SignError::InvalidMnemonic);
    }
    assert_eq!(
        derive_secret_from_phrase(bad, "m/44'/60'/0'/0/0"),
        Err(SignError::InvalidMnemonic)
    );
}

#[test]
fn known_vector_hello() {
    let resp = post_sign(TEST_MNEMONIC, request(0, "hello")).unwrap();
    assert_eq!(resp.owner, "0xf39fd6e51aad88f6f4ce6ab8827279cfffb92266");
    assert_eq!(resp.message, "hello");
    assert!(resp.signature.starts_with("0x"));
    assert_eq!(resp.signature.len(), 2 + 130);
    assert_eq!(resp.signature, resp.signature.to_lowercase());
    assert_eq!(recover_owner("hello", &resp.signature), resp.owner);
    assert_eq!(
        resp.signature,
        "0xf16ea9a3478698f695fd1401bfe27e9e4a7e8e3da94aa72b021125e31fa899cc\
         573c48ea3fe1d4ab61a9db10c19032026e3ed2dbccba5a178235ac27f94504311c"
    );
}

#[test]
fn known_addresses_of_accounts() {
    let owner = |id| post_sign(TEST_MNEMONIC, request(id, "")).unwrap().owner;
    assert_eq!(owner(1), "0x70997970c51812dc3a010c7d01b50e0d17dc79c8");
    assert_eq!(owner(2), "0x3c44cdddb6a900fa2b585dd299e03d12fa4293bc");
}

#[test]
fn deterministic_owner_and_signature() {
    let a = post_sign(TEST_MNEMONIC, request(7, "same message")).unwrap();
    let b = post_sign(TEST_MNEMONIC, request(7, "same message")).unwrap();
    let c = post_sign(TEST_MNEMONIC, request(7, "another message")).unwrap();
    assert_eq!(a.owner, b.owner);
    assert_eq!(a.signature, b.signature);
    assert_eq!(a.owner, c.owner);
    assert_ne!(a.signature, c.signature);
}

#[test]
fn distinct_accounts_have_distinct_owners() {
    let mut owners: Vec<String> = Vec::new();
    for id in 0u16..20 {
        owners.push(post_sign(TEST_MNEMONIC, request(id, "m")).unwrap().owner);
    }
    owners.push(post_sign(TEST_MNEMONIC, request(65535, "m")).unwrap().owner);
    let mut sorted = owners.clone();
    sorted.sort();
    sorted.dedup();
    assert_eq!(sorted.len(), owners.len());
}

#[test]
fn signatures_recover_to_owner() {
    for (id, message) in [(0u16, ""), (3, "hello"), (9, "héllo wörld ✓"), (65535, "a\nb")] {
        let resp = post_sign(TEST_MNEMONIC, request(id, message)).unwrap();
        assert_eq!(recover_owner(message, &resp.signature), resp.owner);
    }
}

#[test]
fn signatures_are_low_s() {
    let half_order =
        hex::decode("7fffffffffffffffffffffffffffffff5d576e7357a4501ddfe92f46681b20a0").unwrap();
    for id in 0u16..16 {
        let message = format!("message number {}", id);
        let resp = post_sign(TEST_MNEMONIC, request(id, &message)).unwrap();
        let sig = hex::decode(&resp.signature[2..]).unwrap();
        assert!(sig[32..64].to_vec() <= half_order);
        assert!(sig[64] == 27 || sig[64] == 28);
    }
}

#[test]
fn message_is_echoed() {
    for message in ["", "plain", "ünïcödé ✓ 😀", "\u{0}\u{19}"] {
        let resp = post_sign(TEST_MNEMONIC, request(5, message)).unwrap();
        assert_eq!(resp.message, message);
        assert_eq!(resp.message.as_bytes(), message.as_bytes());
    }
}

#[test]
fn error_descriptions() {
    assert_eq!(SignError::DerivationError.describe(), "Failed to derive key");
    assert!(!SignError::InvalidMnemonic.describe().is_empty());
}
