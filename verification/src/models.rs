//! The entity shapes shared by both stores and by the remote collaborator's
//! JSON bodies.

use vstd::prelude::*;

verus! {

/// A top-level container of items, local or remote.
///
/// `name` is plaintext for a local group, and an authenticated-codec envelope
/// for a remote group whose writes used encryption. The endpoint and key
/// fields are only ever carried by remote groups.
#[derive(Debug)]
pub struct Group {
    pub id: String,
    pub name: String,
    /// True for a group backed by the in-memory store, which never touches
    /// the network and never encrypts.
    pub is_local: bool,
    /// Remote API host, for remote groups only.
    pub api_host: Option<String>,
    /// Remote API port, for remote groups only.
    pub api_port: Option<String>,
    /// The passphrase a remote group's key is derived from; set once at
    /// creation and immutable for the group's lifetime.
    pub api_secret_key: Option<String>,
}

/// The mathematical value of a `Group`.
#[verifier::ext_equal]
pub ghost struct GroupView {
    pub id: Seq<char>,
    pub name: Seq<char>,
    pub is_local: bool,
    pub api_host: Option<Seq<char>>,
    pub api_port: Option<Seq<char>>,
    pub api_secret_key: Option<Seq<char>>,
}

impl GroupView {
    /// A local group never carries an endpoint or key material.
    pub open spec fn wf(&self) -> bool {
        self.is_local ==> {
            &&& self.api_host is None
            &&& self.api_port is None
            &&& self.api_secret_key is None
        }
    }
}

impl View for Group {
    type V = GroupView;

    open spec fn view(&self) -> GroupView {
        GroupView {
            id: self.id@,
            name: self.name@,
            is_local: self.is_local,
            api_host: match self.api_host {
                Option::Some(h) => Some(h@),
                Option::None => None,
            },
            api_port: match self.api_port {
                Option::Some(p) => Some(p@),
                Option::None => None,
            },
            api_secret_key: match self.api_secret_key {
                Option::Some(k) => Some(k@),
                Option::None => None,
            },
        }
    }
}

/// One title/description/body record, as the wire carries it: each text field
/// is independently plaintext or an envelope, matching the owning group's
/// policy when the field was last written.
#[derive(Debug)]
pub struct Item {
    pub id: String,
    pub title: String,
    pub describe: String,
    pub text: String,
}

/// The mathematical value of an `Item`.
#[verifier::ext_equal]
pub ghost struct ItemView {
    pub id: Seq<char>,
    pub title: Seq<char>,
    pub describe: Seq<char>,
    pub text: Seq<char>,
}

impl View for Item {
    type V = ItemView;

    open spec fn view(&self) -> ItemView {
        ItemView { id: self.id@, title: self.title@, describe: self.describe@, text: self.text@ }
    }
}

/// The error body a remote collaborator reports on failure.
#[derive(Debug)]
pub struct ErrorResponse {
    pub error: String,
}

/// The message body a remote collaborator reports on success of an update or
/// delete.
#[derive(Debug)]
pub struct MessageResponse {
    pub message: String,
}

} // verus!
