//! Passphrase-to-key derivation and the authenticated codec that turns byte
//! payloads into self-contained base64 envelopes and back.
//!
//! An envelope is `base64(nonce ‖ ciphertext ‖ tag)` with a 12-byte nonce,
//! produced under AES-256-GCM with no associated data.

use crate::error::Error;
use aes_gcm::aead::{Aead, AeadCore, KeyInit, OsRng};
use aes_gcm::{Aes256Gcm, Nonce};
use base64::engine::general_purpose;
use base64::Engine;
use vstd::prelude::*;
use vstd::slice::slice_subrange;
use vstd::string::StringSliceAdditionalSpecFns;

verus! {

/// The ciphertext-and-tag that AES-256-GCM produces for a key, a nonce and a
/// plaintext; a pure function of the three.
pub uninterp spec fn gcm_seal(key: Seq<u8>, nonce: Seq<u8>, plaintext: Seq<u8>) -> Seq<u8>;

/// What AES-256-GCM decryption returns for a key, a nonce and a
/// ciphertext-and-tag: the plaintext when the tag verifies, nothing
/// otherwise; a pure function of the three.
pub uninterp spec fn gcm_open(key: Seq<u8>, nonce: Seq<u8>, data: Seq<u8>) -> Option<Seq<u8>>;

/// The standard-alphabet base64 rendering of a byte sequence.
pub uninterp spec fn b64_encoding(bytes: Seq<u8>) -> Seq<char>;

/// What standard-alphabet base64 decoding returns for a text: the decoded
/// bytes, or nothing when the text is not valid base64.
pub uninterp spec fn b64_decoding(text: Seq<char>) -> Option<Seq<u8>>;

/// Relies on aes_gcm::Aes256Gcm: `new_from_slice` accepts every 32-byte key,
/// `generate_nonce` draws a fresh 12-byte nonce from the operating system's
/// randomness, and `encrypt` returns the ciphertext with the 16-byte tag
/// appended, which `decrypt` under the same key and nonce inverts.
#[verifier::external_body]
fn aead_seal(key: &[u8], plaintext: &[u8]) -> (r: Option<(Vec<u8>, Vec<u8>)>)
    requires
        key@.len() == 32,
    ensures
        r matches Some(pair) ==> {
            &&& pair.0@.len() == 12
            &&& pair.1@ == gcm_seal(key@, pair.0@, plaintext@)
            &&& gcm_open(key@, pair.0@, gcm_seal(key@, pair.0@, plaintext@)) == Some(plaintext@)
        },
{
    let cipher = match Aes256Gcm::new_from_slice(key) {
        Ok(cipher) => cipher,
        Err(_) => return None,
    };
    let nonce = Aes256Gcm::generate_nonce(&mut OsRng);
    match cipher.encrypt(&nonce, plaintext) {
        Ok(ciphertext) => Some((nonce.to_vec(), ciphertext)),
        Err(_) => None,
    }
}

/// Relies on aes_gcm::Aes256Gcm: `new_from_slice` accepts every 32-byte key,
/// and `decrypt` returns the plaintext exactly when the tag verifies for this
/// key, nonce and ciphertext-and-tag.
#[verifier::external_body]
fn aead_open(key: &[u8], nonce: &[u8], data: &[u8]) -> (r: Option<Vec<u8>>)
    requires
        key@.len() == 32,
        nonce@.len() == 12,
    ensures
        match r {
            Some(plaintext) => gcm_open(key@, nonce@, data@) == Some(plaintext@),
            None => gcm_open(key@, nonce@, data@) is None,
        },
{
    let cipher = match Aes256Gcm::new_from_slice(key) {
        Ok(cipher) => cipher,
        Err(_) => return None,
    };
    match cipher.decrypt(Nonce::from_slice(nonce), data) {
        Ok(plaintext) => Some(plaintext),
        Err(_) => None,
    }
}

/// Relies on base64's STANDARD engine: `encode` renders any bytes, and
/// `decode` inverts it.
#[verifier::external_body]
fn b64_encode(data: &[u8]) -> (r: String)
    ensures
        r@ == b64_encoding(data@),
        b64_decoding(r@) == Some(data@),
{
    general_purpose::STANDARD.encode(data)
}

/// Relies on base64's STANDARD engine: `decode` returns the decoded bytes, or
/// an error exactly when the text is not valid padded base64.
#[verifier::external_body]
fn b64_decode(text: &str) -> (r: Option<Vec<u8>>)
    ensures
        match r {
            Some(data) => b64_decoding(text@) == Some(data@),
            None => b64_decoding(text@) is None,
        },
{
    match general_purpose::STANDARD.decode(text) {
        Ok(data) => Some(data),
        Err(_) => None,
    }
}

/// What `decrypt` returns for a key and an envelope text: the authenticated
/// plaintext, or the error that classifies the failure.
pub open spec fn spec_decrypt(key: Seq<u8>, envelope: Seq<char>) -> Result<Seq<u8>, Error> {
    if key.len() != 32 {
        Err(Error::InvalidKey)
    } else {
        match b64_decoding(envelope) {
            Option::None => Err(Error::Format),
            Option::Some(data) => {
                if data.len() < 12 {
                    Err(Error::Format)
                } else {
                    match gcm_open(key, data.take(12), data.skip(12)) {
                        Option::Some(plaintext) => Ok(plaintext),
                        Option::None => Err(Error::Authentication),
                    }
                }
            },
        }
    }
}

/// Encrypts a byte payload under a 32-byte key into a fresh envelope:
/// `base64(nonce ‖ ciphertext ‖ tag)` with a nonce drawn anew on every call.
///
/// Any envelope this returns decrypts under the same key back to exactly the
/// plaintext. A key of any other length is rejected as `InvalidKey`; `Format`
/// reports a failure inside the cipher backend itself, which aes_gcm raises
/// only on plaintexts beyond the AES-GCM length limit.
pub fn encrypt(key: &[u8], plaintext: &[u8]) -> (r: Result<String, Error>)
    ensures
        key@.len() != 32 <==> r == Err::<String, Error>(Error::InvalidKey),
        r matches Ok(envelope) ==> spec_decrypt(key@, envelope@) == Ok::<Seq<u8>, Error>(
            plaintext@,
        ),
        r matches Err(e) ==> e == Error::InvalidKey || e == Error::Format,
{
    if key.len() != 32 {
        return Err(Error::InvalidKey);
    }
    let (nonce, mut ciphertext) = match aead_seal(key, plaintext) {
        Some(pair) => pair,
        None => return Err(Error::Format),
    };
    let ghost nonce_seq = nonce@;
    let ghost ciphertext_seq = ciphertext@;
    let mut data = nonce;
    data.append(&mut ciphertext);
    let envelope = b64_encode(data.as_slice());
    proof {
        assert(data@.take(12) =~= nonce_seq);
        assert(data@.skip(12) =~= ciphertext_seq);
        assert(spec_decrypt(key@, envelope@) == Ok::<Seq<u8>, Error>(plaintext@));
    }
    Ok(envelope)
}

/// Decrypts an envelope under a 32-byte key, returning exactly what
/// `spec_decrypt` says: the authenticated plaintext, `InvalidKey` for a key
/// of the wrong length, `Format` for a malformed envelope, `Authentication`
/// when the tag check fails — never silently garbage.
pub fn decrypt(key: &[u8], encrypted_base64: &str) -> (r: Result<Vec<u8>, Error>)
    ensures
        match r {
            Ok(plaintext) => spec_decrypt(key@, encrypted_base64@) == Ok::<Seq<u8>, Error>(
                plaintext@,
            ),
            Err(e) => spec_decrypt(key@, encrypted_base64@) == Err::<Seq<u8>, Error>(e),
        },
{
    if key.len() != 32 {
        return Err(Error::InvalidKey);
    }
    let data = match b64_decode(encrypted_base64) {
        Some(data) => data,
        None => return Err(Error::Format),
    };
    if data.len() < 12 {
        return Err(Error::Format);
    }
    let nonce = slice_subrange(data.as_slice(), 0, 12);
    let ciphertext = slice_subrange(data.as_slice(), 12, data.len());
    proof {
        assert(nonce@ =~= data@.take(12));
        assert(ciphertext@ =~= data@.skip(12));
    }
    match aead_open(key, nonce, ciphertext) {
        Some(plaintext) => Ok(plaintext),
        None => Err(Error::Authentication),
    }
}

/// Round-trip law of the envelope format: for every 32-byte key, 12-byte
/// nonce and message on which the cipher and the encoding invert (which is
/// what the codec's trusted layer guarantees for what `encrypt` emits),
/// decrypting the envelope `base64(nonce ‖ gcm_seal(key, nonce, m))` under
/// the same key yields exactly `m`.
pub proof fn lemma_envelope_round_trip(key: Seq<u8>, nonce: Seq<u8>, m: Seq<u8>)
    requires
        key.len() == 32,
        nonce.len() == 12,
        b64_decoding(b64_encoding(nonce + gcm_seal(key, nonce, m))) == Some(
            nonce + gcm_seal(key, nonce, m),
        ),
        gcm_open(key, nonce, gcm_seal(key, nonce, m)) == Some(m),
    ensures
        spec_decrypt(key, b64_encoding(nonce + gcm_seal(key, nonce, m))) == Ok::<Seq<u8>, Error>(
            m,
        ),
{
    let data = nonce + gcm_seal(key, nonce, m);
    assert(data.take(12) =~= nonce);
    assert(data.skip(12) =~= gcm_seal(key, nonce, m));
}

/// The 32-byte key that the library derives from a passphrase's UTF-8 bytes:
/// byte `i` of the key is byte `i mod len` of the passphrase, so a passphrase
/// of 32 bytes or more is truncated, a shorter one is repeated cyclically,
/// and an empty one yields an all-zero key.
pub open spec fn spec_derived_key(bytes: Seq<u8>) -> Seq<u8> {
    Seq::new(32, |i: int| if bytes.len() == 0 {
        0u8
    } else {
        bytes[i % (bytes.len() as int)]
    })
}

/// Key derivation is total and deterministic: every passphrase, the empty
/// one included, determines exactly one key, and that key is 32 bytes long.
pub proof fn lemma_derived_key_total(bytes: Seq<u8>)
    ensures
        spec_derived_key(bytes).len() == 32,
{
}

/// Derives the fixed 32-byte symmetric key for a group from a user-supplied
/// passphrase, deterministically.
///
/// This is a convenience scheme, not a slow password hash: it offers no
/// resistance to brute force, and callers are expected to reject empty
/// passphrases upstream (an empty passphrase yields the all-zero key).
pub fn derive_key(key_str: &str) -> (key: Vec<u8>)
    ensures
        key@ == spec_derived_key(key_str.spec_bytes()),
        key@.len() == 32,
{
    let bytes: &[u8] = key_str.as_bytes();
    let n = bytes.len();
    let mut key: Vec<u8> = Vec::new();
    for i in 0..32usize
        invariant
            key@.len() == i,
            n == bytes@.len(),
            bytes@ == key_str.spec_bytes(),
            forall|j: int| 0 <= j < i ==> key@[j] == spec_derived_key(bytes@)[j],
    {
        if n == 0 {
            key.push(0u8);
        } else {
            key.push(bytes[i % n]);
        }
    }
    proof {
        assert(key@ =~= spec_derived_key(key_str.spec_bytes()));
    }
    key
}

} // verus!
