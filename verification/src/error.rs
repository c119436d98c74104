//! The library's error taxonomy, shared by the codec and both stores.

use vstd::prelude::*;

verus! {

/// Everything that can go wrong in the codec, the remote client and the
/// local store.
///
/// Codec failures never return garbage plaintext: a malformed envelope is
/// `Format`, a failed tag check is `Authentication` (wrong key or tampered
/// data, deliberately not distinguished further).
#[derive(Clone, Debug, PartialEq, Eq)]
pub enum Error {
    /// A key of a length other than 32 bytes reached the codec.
    InvalidKey,
    /// A malformed envelope: base64 decoding failed, fewer than 12 decoded
    /// bytes, or a decrypted field that is not UTF-8.
    Format,
    /// The authentication tag did not verify.
    Authentication,
    /// Encryption was requested on a client with no key configured.
    MissingKey,
    /// The remote collaborator failed: a transport error or a non-success
    /// status, with the server-reported message when available.
    Request { message: String },
    /// A store operation named an unknown group or item id.
    NotFound,
}

impl Error {
    /// A short text for each variant, for callers that render errors.
    pub fn describe(&self) -> (r: String)
        ensures
            self matches Error::Request { message } ==> r@ == message@,
    {
        match self {
            Error::InvalidKey => "key must be 32 bytes long".to_owned(),
            Error::Format => "malformed envelope".to_owned(),
            Error::Authentication => "authentication failed".to_owned(),
            Error::MissingKey => "no encryption key is configured".to_owned(),
            Error::Request { message } => message.clone(),
            Error::NotFound => "no such id".to_owned(),
        }
    }
}

} // verus!
