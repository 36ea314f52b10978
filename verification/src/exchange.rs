//! The secure-exchange component: key derivation at construction, then
//! `protect` and `unseal` as independent, stateless transformations under the
//! derived key.

use vstd::prelude::*;

use crate::cipher::aead_open;
use crate::cipher::aead_seal;
use crate::cipher::fresh_nonce;
use crate::cipher::seal_bytes;
use crate::cipher::sha256_digest;
use crate::cipher::sha256_of;
use crate::cipher::sealed_body;
use crate::cipher::KEY_LEN;
use crate::cipher::NONCE_LEN;
use crate::cipher::TAG_LEN;
use vstd::slice::slice_subrange;
use vstd::utf8::decode_utf8;
use vstd::utf8::valid_utf8;

verus! {

/// The failures the component can report.  Every failure is returned as a
/// typed result; verified code never panics.
#[derive(Clone, Copy, Debug, PartialEq, Eq, Structural)]
pub enum ExchangeError {
    /// Construction was given empty key material.
    InvalidKey,
    /// A sealed message is too short to hold the nonce and the tag.
    MalformedInput,
    /// The authentication tag does not verify: wrong key, tampered bytes, or
    /// truncation.  No plaintext is released.
    AuthenticationFailed,
    /// The opened plaintext is not valid UTF-8; only the text-interpreting
    /// operation reports this.
    InvalidEncoding,
}

/// A secure exchange instance: one immutable derived key, shared by every
/// `protect` and `unseal` call made through it.
pub struct ThreatExchange {
    key: Vec<u8>,
}

impl ThreatExchange {
    /// The derived 256-bit key this instance seals and opens with.
    pub closed spec fn derived(self) -> Seq<u8> {
        self.key@
    }

    /// Well-formedness: the derived key has its fixed length.
    pub open spec fn wf(self) -> bool {
        self.derived().len() == KEY_LEN
    }

    /// `sealed` is, byte for byte, a message this instance's key seals `pt`
    /// into: long enough for the framing, and equal to the nonce it carries
    /// followed by the ciphertext and tag for `pt` under that nonce.
    pub open spec fn seals_to(self, sealed: Seq<u8>, pt: Seq<u8>) -> bool {
        &&& sealed.len() >= NONCE_LEN + TAG_LEN
        &&& sealed == seal_bytes(self.derived(), sealed.subrange(0, NONCE_LEN as int), pt)
    }

    /// Builds an instance from raw key material, deriving the fixed-length
    /// key at once; empty key material is rejected.
    pub fn new(key_material: Vec<u8>) -> (r: Result<ThreatExchange, ExchangeError>)
        ensures
            key_material@.len() == 0 <==> r is Err,
            r matches Err(e) ==> e == ExchangeError::InvalidKey,
            r matches Ok(ex) ==> ex.wf() && ex.derived() == sha256_of(key_material@),
    {
        if key_material.len() == 0 {
            Err(ExchangeError::InvalidKey)
        } else {
            Ok(ThreatExchange { key: sha256_digest(key_material.as_slice()) })
        }
    }

    /// Seals a plaintext for transmission: a fresh random nonce, then the
    /// ciphertext, then the authentication tag, as one self-contained byte
    /// sequence.  The nonce stands in clear at the front of the result, so
    /// the result is exactly what `seal_bytes` says for that nonce.
    pub fn protect(&self, plaintext: &[u8]) -> (r: Vec<u8>)
        requires
            self.wf(),
        ensures
            r@.len() == plaintext@.len() + NONCE_LEN + TAG_LEN,
            self.seals_to(r@, plaintext@),
    {
        let nonce = fresh_nonce();
        let ghost n: Seq<u8> = nonce@;
        let mut body = aead_seal(self.key.as_slice(), nonce.as_slice(), plaintext);
        let ghost b: Seq<u8> = body@;
        let mut sealed = nonce;
        sealed.append(&mut body);
        proof {
            assert(sealed@ == n + b);
            assert(sealed@.subrange(0, NONCE_LEN as int) =~= n);
        }
        sealed
    }

    /// Opens a sealed message under this instance's key.  Success means the
    /// input is, byte for byte, a message sealed under the same key with the
    /// nonce it carries, and the returned plaintext is the one that was
    /// sealed; everything else fails closed with a typed error and no
    /// plaintext is released.
    pub fn unseal(&self, sealed: &[u8]) -> (r: Result<Vec<u8>, ExchangeError>)
        requires
            self.wf(),
        ensures
            (sealed@.len() < NONCE_LEN + TAG_LEN) <==> r == Err::<Vec<u8>, ExchangeError>(
                ExchangeError::MalformedInput,
            ),
            r matches Ok(p) ==> self.seals_to(sealed@, p@) && p@.len() + NONCE_LEN + TAG_LEN
                == sealed@.len(),
            forall|pt: Seq<u8>| self.seals_to(sealed@, pt) ==> (r matches Ok(p) && p@ == pt),
            r == Err::<Vec<u8>, ExchangeError>(ExchangeError::AuthenticationFailed) <==> (sealed@.len()
                >= NONCE_LEN + TAG_LEN && !(exists|pt: Seq<u8>| self.seals_to(sealed@, pt))),
            r is Err ==> r == Err::<Vec<u8>, ExchangeError>(ExchangeError::MalformedInput) || r
                == Err::<Vec<u8>, ExchangeError>(ExchangeError::AuthenticationFailed),
    {
        let n = sealed.len();
        if n < NONCE_LEN + TAG_LEN {
            return Err(ExchangeError::MalformedInput);
        }
        let nonce = slice_subrange(sealed, 0, NONCE_LEN);
        let ciphertext = slice_subrange(sealed, NONCE_LEN, n - TAG_LEN);
        let tag = slice_subrange(sealed, n - TAG_LEN, n);
        let opened = aead_open(self.key.as_slice(), nonce, ciphertext, tag);
        let ghost og = opened;
        let r: Result<Vec<u8>, ExchangeError> = match opened {
            Some(p) => Ok(p),
            None => Err(ExchangeError::AuthenticationFailed),
        };
        proof {
            let k = self.derived();
            let sr = sealed@.subrange(0, NONCE_LEN as int);
            assert(nonce@ == sr);
            assert(ciphertext@ + tag@ =~= sealed@.subrange(NONCE_LEN as int, n as int));
            assert forall|pt: Seq<u8>| self.seals_to(sealed@, pt) implies ciphertext@ + tag@
                == sealed_body(k, nonce@, pt) by {
                assert(sealed@ == nonce@ + sealed_body(k, nonce@, pt));
                assert(sealed@.subrange(NONCE_LEN as int, n as int) =~= sealed_body(
                    k,
                    nonce@,
                    pt,
                ));
            }
            if og is Some {
                let m = og->Some_0;
                assert(sealed@ =~= nonce@ + (ciphertext@ + tag@));
                assert(sealed@ == seal_bytes(k, sr, m@));
                assert(self.seals_to(sealed@, m@));
            }
        }
        r
    }

    /// Opens a sealed message and interprets the plaintext as UTF-8 text.
    /// The failure taxonomy extends `unseal`'s by one case: bytes that open
    /// correctly but do not encode text are reported as `InvalidEncoding`,
    /// kept distinct from any authentication failure.
    pub fn decrypt(&self, encrypted_data: Vec<u8>) -> (r: Result<String, ExchangeError>)
        requires
            self.wf(),
        ensures
            (encrypted_data@.len() < NONCE_LEN + TAG_LEN) <==> r == Err::<String, ExchangeError>(
                ExchangeError::MalformedInput,
            ),
            r matches Ok(s) ==> exists|pt: Seq<u8>|
                self.seals_to(encrypted_data@, pt) && valid_utf8(pt) && s@ == decode_utf8(pt),
            forall|pt: Seq<u8>|
                self.seals_to(encrypted_data@, pt) ==> if valid_utf8(pt) {
                    r matches Ok(s) && s@ == decode_utf8(pt)
                } else {
                    r == Err::<String, ExchangeError>(ExchangeError::InvalidEncoding)
                },
            r == Err::<String, ExchangeError>(ExchangeError::AuthenticationFailed) <==> (
            encrypted_data@.len() >= NONCE_LEN + TAG_LEN && !(exists|pt: Seq<u8>|
                self.seals_to(encrypted_data@, pt))),
            r == Err::<String, ExchangeError>(ExchangeError::InvalidEncoding) <==> (exists|
                pt: Seq<u8>,
            |
                self.seals_to(encrypted_data@, pt) && !valid_utf8(pt)),
            r is Err ==> r != Err::<String, ExchangeError>(ExchangeError::InvalidKey),
    {
        let ghost ed = encrypted_data@;
        let plain = match self.unseal(encrypted_data.as_slice()) {
            Ok(p) => p,
            Err(e) => {
                return Err(e);
            },
        };
        let ghost pv = plain@;
        let r: Result<String, ExchangeError> = match bytes_to_string(plain) {
            Some(s) => Ok(s),
            None => Err(ExchangeError::InvalidEncoding),
        };
        proof {
            assert(self.seals_to(ed, pv));
        }
        r
    }

    /// Round trip: sealing a plaintext with `protect` and opening the result
    /// with `unseal` under the same key returns exactly the original
    /// plaintext, for every plaintext and every well-formed instance.
    pub fn round_trip(&self, plaintext: &[u8]) -> (r: Vec<u8>)
        requires
            self.wf(),
        ensures
            r@ == plaintext@,
    {
        let sealed = self.protect(plaintext);
        proof {
            assert(self.seals_to(sealed@, plaintext@));
        }
        self.unseal(sealed.as_slice()).unwrap()
    }
}

/// Relies on std's String::from_utf8: it succeeds exactly on valid UTF-8 and
/// returns the text those bytes encode.
#[verifier::external_body]
fn bytes_to_string(bytes: Vec<u8>) -> (r: Option<String>)
    ensures
        r is Some <==> valid_utf8(bytes@),
        r matches Some(s) ==> s@ == decode_utf8(bytes@),
{
    String::from_utf8(bytes).ok()
}

} // verus!
