//! The remote store's policy client: it decides, per write and per field,
//! whether a payload is encrypted, and turns stored field values back into
//! the text a caller displays.
//!
//! The HTTP transport itself (connections, the JSON envelope) is a black-box
//! collaborator outside this crate; this client prepares exactly the field
//! values that cross the wire and interprets exactly the values that return.

use crate::crypto::{decrypt, encrypt, derive_key, spec_decrypt, spec_derived_key};
use crate::error::Error;
use crate::models::ErrorResponse;
use vstd::prelude::*;
use vstd::string::StringSliceAdditionalSpecFns;
use vstd::utf8::{decode_utf8, encode_utf8, valid_utf8};
use vstd::utf8::{encode_utf8_decode_utf8, encode_utf8_valid_utf8};

verus! {

/// What a write sends for one field: the plaintext itself when encryption is
/// off, otherwise an envelope that decrypts under the client's key back to
/// the field's UTF-8 bytes.
pub open spec fn spec_field_prepared(
    key: Option<Seq<u8>>,
    plain: Seq<char>,
    use_encryption: bool,
    wire: Seq<char>,
) -> bool {
    if use_encryption {
        &&& key is Some
        &&& spec_decrypt(key->0, wire) == Ok::<Seq<u8>, Error>(encode_utf8(plain))
    } else {
        wire == plain
    }
}

/// What a read renders for one stored field: with no key configured the value
/// is already plaintext and returned unchanged; with a key, the envelope is
/// decrypted and decoded, and every failure is classified, never garbage.
pub open spec fn spec_decrypt_field(key: Option<Seq<u8>>, stored: Seq<char>) -> Result<
    Seq<char>,
    Error,
> {
    match key {
        Option::None => Ok(stored),
        Option::Some(k) => match spec_decrypt(k, stored) {
            Ok(bytes) => if valid_utf8(bytes) {
                Ok(decode_utf8(bytes))
            } else {
                Err(Error::Format)
            },
            Err(e) => Err(e),
        },
    }
}

/// The visible placeholder rendered where a stored field cannot be decrypted.
pub open spec fn placeholder_text() -> Seq<char> {
    "decryption failed"@
}

/// The text a caller sees for one stored field: the decrypted plaintext
/// where the policy yields one, the fixed placeholder otherwise.
pub open spec fn display_of(key: Option<Seq<u8>>, stored: Seq<char>) -> Seq<char> {
    match spec_decrypt_field(key, stored) {
        Ok(text) => text,
        Err(_) => placeholder_text(),
    }
}

/// A field prepared for the wire is displayed back as exactly the plaintext:
/// an unencrypted field is stored verbatim and read back by a keyless client,
/// and an encrypted one decrypts and decodes to the text it was made from.
/// Both storage paths therefore hand callers the same decrypted shape.
pub proof fn lemma_prepared_field_displays_plain(
    key: Option<Seq<u8>>,
    plain: Seq<char>,
    use_encryption: bool,
    wire: Seq<char>,
)
    requires
        spec_field_prepared(key, plain, use_encryption, wire),
        !use_encryption ==> key is None,
    ensures
        spec_decrypt_field(key, wire) == Ok::<Seq<char>, Error>(plain),
{
    if use_encryption {
        encode_utf8_valid_utf8(plain);
        encode_utf8_decode_utf8(plain);
    }
}

/// Router dispatch law: one logical write shows callers the same record
/// through either path. A local group stores the plaintext and a keyless
/// read returns it verbatim, while a remote group with encryption stores an
/// envelope that the same key displays back to the plaintext: externally
/// the two result shapes are identical.
pub proof fn lemma_router_paths_agree(key: Seq<u8>, plain: Seq<char>, wire: Seq<char>)
    requires
        spec_field_prepared(Some(key), plain, true, wire),
    ensures
        spec_decrypt_field(Some(key), wire) == Ok::<Seq<char>, Error>(plain),
        spec_decrypt_field(None, plain) == Ok::<Seq<char>, Error>(plain),
        display_of(Some(key), wire) == display_of(None, plain),
{
    lemma_prepared_field_displays_plain(Some(key), plain, true, wire);
}

/// The policy client for one remote endpoint: the configured base URL and the
/// optional key derived from the group's passphrase. It holds no other state,
/// and never sends or receives itself.
pub struct ApiClient {
    base_url: String,
    secret_key: Option<Vec<u8>>,
}

/// The mathematical value of a client: its base URL and derived key.
#[verifier::ext_equal]
pub ghost struct ClientView {
    pub base: Seq<char>,
    pub key: Option<Seq<u8>>,
}

impl View for ApiClient {
    type V = ClientView;

    closed spec fn view(&self) -> ClientView {
        ClientView {
            base: self.base_url@,
            key: match self.secret_key {
                Option::Some(k) => Some(k@),
                Option::None => None,
            },
        }
    }
}

impl ApiClient {
    /// The derived key this client encrypts and decrypts with, if any.
    pub open spec fn key(&self) -> Option<Seq<u8>> {
        self@.key
    }

    /// The configured base URL.
    pub open spec fn base(&self) -> Seq<char> {
        self@.base
    }

    /// A configured key is always exactly 32 bytes.
    pub open spec fn wf(&self) -> bool {
        self@.key matches Some(k) ==> k.len() == 32
    }

    /// Builds a client for `base_url`; when a passphrase is supplied, the
    /// client's key is derived from it once, here.
    pub fn new(base_url: String, secret_key: Option<String>) -> (client: ApiClient)
        ensures
            client.wf(),
            client.base() == base_url@,
            match secret_key {
                Some(passphrase) => client.key() == Some(
                    spec_derived_key(encode_utf8(passphrase@)),
                ),
                None => client.key() is None,
            },
    {
        let key = match secret_key {
            Some(passphrase) => Some(derive_key(passphrase.as_str())),
            None => None,
        };
        ApiClient { base_url, secret_key: key }
    }

    /// Whether this client has a key configured.
    pub fn has_key(&self) -> (r: bool)
        ensures
            r == (self.key() is Some),
    {
        self.secret_key.is_some()
    }

    /// Prepares one field for a write: encrypts it under the client's key
    /// when `use_encryption` is set, passes it through verbatim otherwise,
    /// and refuses with `MissingKey` rather than silently sending plaintext
    /// when encryption is requested without a configured key.
    pub fn encrypt_field(&self, field: &str, use_encryption: bool) -> (r: Result<String, Error>)
        requires
            self.wf(),
        ensures
            !use_encryption ==> (r matches Ok(wire) && wire@ == field@),
            use_encryption && self.key() is None ==> r == Err::<String, Error>(Error::MissingKey),
            r matches Ok(wire) ==> spec_field_prepared(self.key(), field@, use_encryption, wire@),
            r matches Err(e) ==> use_encryption && (e == Error::MissingKey || e == Error::Format),
            use_encryption && self.key() is Some ==> (r matches Err(e) ==> e == Error::Format),
    {
        if use_encryption {
            match &self.secret_key {
                Some(key) => encrypt(key.as_slice(), field.as_bytes()),
                None => Err(Error::MissingKey),
            }
        } else {
            Ok(field.to_owned())
        }
    }

    /// Prepares a record's three text fields for a write, each independently
    /// run through the same per-field policy; fails with `MissingKey`, and
    /// writes nothing, when encryption is requested without a key.
    pub fn prepare_item_fields(
        &self,
        title: &str,
        describe: &str,
        text: &str,
        use_encryption: bool,
    ) -> (r: Result<(String, String, String), Error>)
        requires
            self.wf(),
        ensures
            r matches Ok(fields) ==> {
                &&& spec_field_prepared(self.key(), title@, use_encryption, fields.0@)
                &&& spec_field_prepared(self.key(), describe@, use_encryption, fields.1@)
                &&& spec_field_prepared(self.key(), text@, use_encryption, fields.2@)
            },
            !use_encryption ==> (r matches Ok(fields) && fields.0@ == title@ && fields.1@
                == describe@ && fields.2@ == text@),
            use_encryption && self.key() is None ==> r == Err::<
                (String, String, String),
                Error,
            >(Error::MissingKey),
            r matches Err(e) ==> use_encryption && (e == Error::MissingKey || e == Error::Format),
            use_encryption && self.key() is Some ==> (r matches Err(e) ==> e == Error::Format),
    {
        let wire_title = match self.encrypt_field(title, use_encryption) {
            Ok(wire) => wire,
            Err(e) => return Err(e),
        };
        let wire_describe = match self.encrypt_field(describe, use_encryption) {
            Ok(wire) => wire,
            Err(e) => return Err(e),
        };
        let wire_text = match self.encrypt_field(text, use_encryption) {
            Ok(wire) => wire,
            Err(e) => return Err(e),
        };
        Ok((wire_title, wire_describe, wire_text))
    }

    /// Renders a stored group name: unchanged when no key is configured,
    /// otherwise decrypted and decoded, with every failure classified.
    pub fn decrypt_group_name(&self, encrypted_name: &str) -> (r: Result<String, Error>)
        requires
            self.wf(),
        ensures
            match r {
                Ok(s) => spec_decrypt_field(self.key(), encrypted_name@) == Ok::<
                    Seq<char>,
                    Error,
                >(s@),
                Err(e) => spec_decrypt_field(self.key(), encrypted_name@) == Err::<
                    Seq<char>,
                    Error,
                >(e),
            },
    {
        self.decrypt_stored(encrypted_name)
    }

    /// Renders a stored item field, by the same policy as a group name.
    pub fn decrypt_item_field(&self, encrypted_field: &str) -> (r: Result<String, Error>)
        requires
            self.wf(),
        ensures
            match r {
                Ok(s) => spec_decrypt_field(self.key(), encrypted_field@) == Ok::<
                    Seq<char>,
                    Error,
                >(s@),
                Err(e) => spec_decrypt_field(self.key(), encrypted_field@) == Err::<
                    Seq<char>,
                    Error,
                >(e),
            },
    {
        self.decrypt_stored(encrypted_field)
    }

    /// Renders a stored field for display: the decrypted text where the
    /// policy yields one, and the fixed placeholder otherwise, so that a
    /// single undecryptable field can never abort a list render.
    pub fn display_field(&self, stored: &str) -> (r: String)
        requires
            self.wf(),
        ensures
            r@ == display_of(self.key(), stored@),
    {
        match self.decrypt_stored(stored) {
            Ok(s) => s,
            Err(_) => "decryption failed".to_owned(),
        }
    }

    fn decrypt_stored(&self, stored: &str) -> (r: Result<String, Error>)
        requires
            self.wf(),
        ensures
            match r {
                Ok(s) => spec_decrypt_field(self.key(), stored@) == Ok::<Seq<char>, Error>(s@),
                Err(e) => spec_decrypt_field(self.key(), stored@) == Err::<Seq<char>, Error>(e),
            },
    {
        match &self.secret_key {
            Some(key) => match decrypt(key.as_slice(), stored) {
                Ok(bytes) => match bytes_to_string(bytes) {
                    Some(s) => Ok(s),
                    None => Err(Error::Format),
                },
                Err(e) => Err(e),
            },
            None => Ok(stored.to_owned()),
        }
    }
}

/// Relies on String::from_utf8: it succeeds exactly on valid UTF-8 input and
/// returns the string those bytes encode.
#[verifier::external_body]
fn bytes_to_string(bytes: Vec<u8>) -> (r: Option<String>)
    ensures
        match r {
            Some(s) => valid_utf8(bytes@) && s@ == decode_utf8(bytes@),
            None => !valid_utf8(bytes@),
        },
{
    match String::from_utf8(bytes) {
        Ok(s) => Some(s),
        Err(_) => None,
    }
}

/// Whether a response status reports success.
pub open spec fn is_success_status(status: u16) -> bool {
    200 <= status < 300
}

/// Maps a response to the outcome the caller sees: a success status
/// succeeds; any other surfaces the server-reported message when one was
/// parsed, else the caller's fallback text.
pub fn interpret_response(status: u16, error: Option<ErrorResponse>, fallback: String) -> (r:
    Result<(), Error>)
    ensures
        r is Ok <==> is_success_status(status),
        !is_success_status(status) ==> (r matches Err(e) && e matches Error::Request { message }
            && message@ == (match error {
            Some(body) => body.error@,
            None => fallback@,
        })),
{
    if 200 <= status && status < 300 {
        Ok(())
    } else {
        match error {
            Some(body) => Err(Error::Request { message: body.error }),
            None => Err(Error::Request { message: fallback }),
        }
    }
}

} // verus!
