//! A signing oracle: derives an Ethereum key pair per account index from one
//! BIP39 mnemonic and signs text messages in the `personal_sign` format.

pub mod crypto;
pub mod encoding;
pub mod signer;
