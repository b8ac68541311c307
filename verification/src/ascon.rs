use vstd::prelude::*;

use ascon_aead::aead::{Aead, KeyInit};
use ascon_aead::{Ascon128, Key, Nonce};

use crate::constants::LEN_ASCON_AEAD_OVERHEAD;

verus! {

/// The error types that can be encountered during decryption.
#[derive(Debug)]
pub enum DecryptError {
    InvalidCiphertext,
}

/// What Ascon-128 decryption returns for a key and a nonce-prefixed
/// ciphertext: the plaintext if the tag verifies, nothing otherwise. The
/// result is a pure function of the key and the ciphertext bytes.
pub uninterp spec fn aead_open(key: Seq<u8>, blob: Seq<u8>) -> Option<Seq<u8>>;

/// Decrypt the given Ascon-encrypted data (a 16-byte nonce followed by the
/// authenticated ciphertext) using an Ascon key.
///
/// Relies on ascon_aead's Ascon128 decryption: it is deterministic in key
/// and input, fails exactly when the tag does not verify, and on success
/// returns a plaintext shorter than the input by the nonce and tag lengths.
#[verifier::external_body]
pub fn decrypt_ascon(ascon_data: &Vec<u8>, key: &Vec<u8>) -> (r: Result<Vec<u8>, DecryptError>)
    requires
        key@.len() == 16,
        ascon_data@.len() >= LEN_ASCON_AEAD_OVERHEAD,
    ensures
        match r {
            Ok(p) => {
                &&& aead_open(key@, ascon_data@) == Some(p@)
                &&& p@.len() + LEN_ASCON_AEAD_OVERHEAD == ascon_data@.len()
            },
            Err(_) => aead_open(key@, ascon_data@) is None,
        },
{
    let k = Key::<Ascon128>::from_slice(key.as_slice());
    let nonce = Nonce::<Ascon128>::from_slice(&ascon_data[..16]);
    let cipher = Ascon128::new(k);
    match cipher.decrypt(nonce, &ascon_data[16..]) {
        Ok(plaintext) => Ok(plaintext),
        Err(_) => Err(DecryptError::InvalidCiphertext),
    }
}

/// Relies on rand's thread-local generator: a fresh 16-byte nonce.
#[verifier::external_body]
fn random_nonce() -> (r: Vec<u8>)
    ensures
        r@.len() == 16,
{
    rand::random::<[u8; 16]>().to_vec()
}

/// Relies on ascon_aead's Ascon128 encryption: the output is the ciphertext
/// with tag, one nonce and one tag longer than the message, and decrypting
/// it under the same key (with the nonce prefixed) yields the message again.
#[verifier::external_body]
fn aead_seal(key: &Vec<u8>, nonce: &Vec<u8>, msg: &Vec<u8>) -> (r: Vec<u8>)
    requires
        key@.len() == 16,
        nonce@.len() == 16,
    ensures
        r@.len() == msg@.len() + LEN_ASCON_AEAD_OVERHEAD,
        aead_open(key@, r@) == Some(msg@),
{
    let k = Key::<Ascon128>::from_slice(key.as_slice());
    let n = Nonce::<Ascon128>::from_slice(nonce.as_slice());
    let cipher = Ascon128::new(k);
    let ciphertext = cipher.encrypt(n, msg.as_slice()).expect("Encryption failure!");
    let mut output = Vec::new();
    output.extend_from_slice(nonce.as_slice());
    output.extend_from_slice(&ciphertext);
    output
}

/// Returns encrypted data with a randomly generated nonce prepended to it.
pub fn encrypt_ascon(data: &Vec<u8>, key: &Vec<u8>) -> (r: Vec<u8>)
    requires
        key@.len() == 16,
    ensures
        r@.len() == data@.len() + LEN_ASCON_AEAD_OVERHEAD,
        aead_open(key@, r@) == Some(data@),
{
    let nonce = random_nonce();
    aead_seal(key, &nonce, data)
}

} // verus!
