//! Trusted boundary around the cryptographic primitives.
//!
//! Everything the library assumes of the outside cryptography is collected
//! here: the key-derivation digest, the authenticated cipher in seal and open
//! mode, and the random nonce source.  Each wrapper's contract states what the
//! primitive's own source shows; the digest and the cipher results are named
//! by uninterpreted spec functions, since their values depend on the arguments
//! alone but cannot be stated in a few lines.

use vstd::prelude::*;

use crypto::aead::AeadDecryptor;
use crypto::aead::AeadEncryptor;
use crypto::chacha20poly1305::ChaCha20Poly1305;
use crypto::digest::Digest;
use crypto::sha2::Sha256;
use rand::RngCore;

verus! {

/// Number of random nonce bytes at the front of a sealed message.
pub const NONCE_LEN: usize = 8;

/// Number of authentication-tag bytes at the back of a sealed message.
pub const TAG_LEN: usize = 16;

/// Number of bytes of a derived key.
pub const KEY_LEN: usize = 32;

/// The SHA-256 digest of a byte sequence; it serves as the key-derivation
/// function, turning key material of any length into a 32-byte key.
pub uninterp spec fn sha256_of(material: Seq<u8>) -> Seq<u8>;

/// What the authenticated cipher produces for a plaintext under a key and a
/// nonce: the ciphertext (of the plaintext's length) followed by the 16-byte
/// authentication tag.
pub uninterp spec fn sealed_body(key: Seq<u8>, nonce: Seq<u8>, plaintext: Seq<u8>) -> Seq<u8>;

/// A whole sealed message: the nonce in clear, then ciphertext and tag.
pub open spec fn seal_bytes(key: Seq<u8>, nonce: Seq<u8>, plaintext: Seq<u8>) -> Seq<u8> {
    nonce + sealed_body(key, nonce, plaintext)
}

/// Relies on crypto::sha2::Sha256 through crypto::digest::Digest:
/// `result` writes the 32-byte SHA-256 digest of everything fed to `input`,
/// a deterministic function of that data alone.
#[verifier::external_body]
pub(crate) fn sha256_digest(material: &[u8]) -> (r: Vec<u8>)
    ensures
        r@ == sha256_of(material@),
        r@.len() == KEY_LEN,
{
    let mut hasher = Sha256::new();
    hasher.input(material);
    let mut out = vec![0u8; 32];
    hasher.result(&mut out);
    out
}

/// Relies on rand::rngs::OsRng through rand::RngCore::fill_bytes: the buffer
/// is filled from the operating system's random source.  Nothing is assumed
/// of the bytes beyond their count.
#[verifier::external_body]
pub(crate) fn fresh_nonce() -> (r: Vec<u8>)
    ensures
        r@.len() == NONCE_LEN,
{
    let mut buf = [0u8; 8];
    rand::rngs::OsRng.fill_bytes(&mut buf);
    buf.to_vec()
}

/// Relies on crypto::chacha20poly1305::ChaCha20Poly1305::new and
/// crypto::aead::AeadEncryptor::encrypt: the ciphertext is the plaintext
/// combined with the key stream for (key, nonce), so it has the plaintext's
/// length, and the 16-byte tag is computed over the ciphertext; both are
/// functions of key, nonce and plaintext alone.
#[verifier::external_body]
pub(crate) fn aead_seal(key: &[u8], nonce: &[u8], plaintext: &[u8]) -> (r: Vec<u8>)
    requires
        key@.len() == KEY_LEN,
        nonce@.len() == NONCE_LEN,
    ensures
        r@ == sealed_body(key@, nonce@, plaintext@),
        r@.len() == plaintext@.len() + TAG_LEN,
{
    let mut cipher = ChaCha20Poly1305::new(key, nonce, &[]);
    let mut out = vec![0u8; plaintext.len()];
    let mut tag = [0u8; 16];
    cipher.encrypt(plaintext, &mut out, &mut tag);
    out.extend_from_slice(&tag);
    out
}

/// Relies on crypto::chacha20poly1305::ChaCha20Poly1305::new and
/// crypto::aead::AeadDecryptor::decrypt: `decrypt` recomputes the tag over
/// the ciphertext and compares in constant time, releasing the plaintext only
/// on a match.  Since the cipher combines the plaintext with the key stream
/// byte for byte, opening succeeds exactly on the ciphertext-and-tag that
/// sealing under the same key and nonce produces, and then returns the
/// original plaintext.
#[verifier::external_body]
pub(crate) fn aead_open(key: &[u8], nonce: &[u8], ciphertext: &[u8], tag: &[u8]) -> (r: Option<Vec<u8>>)
    requires
        key@.len() == KEY_LEN,
        nonce@.len() == NONCE_LEN,
        tag@.len() == TAG_LEN,
    ensures
        r matches Some(m) ==> ciphertext@ + tag@ == sealed_body(key@, nonce@, m@) && m@.len() == ciphertext@.len(),
        r matches Some(m) ==> forall|pt: Seq<u8>| ciphertext@ + tag@ == sealed_body(key@, nonce@, pt) ==> pt == m@,
        r is None ==> forall|pt: Seq<u8>| ciphertext@ + tag@ != sealed_body(key@, nonce@, pt),
{
    let mut cipher = ChaCha20Poly1305::new(key, nonce, &[]);
    let mut out = vec![0u8; ciphertext.len()];
    if cipher.decrypt(ciphertext, &mut out, tag) {
        Some(out)
    } else {
        None
    }
}

} // verus!
