//! A terminal client's core for managing groups of items whose text fields may
//! be protected by authenticated encryption before they leave the client.
//!
//! The crate verifies the encrypted field pipeline (passphrase-to-key
//! derivation and the authenticated encrypt/decrypt codec with its base64
//! envelope format) together with the dual-mode data-access layer: a local
//! in-memory store, the policy client that encrypts and decrypts fields bound
//! for a remote store, and the session router that dispatches operations to
//! the right path and drives the group-creation wizard.

mod api;
mod app;
mod crypto;
mod error;
mod local;
mod models;
mod types;
mod wizard;

pub use api::{display_of, placeholder_text, spec_decrypt_field, spec_field_prepared};
pub use api::{interpret_response, is_success_status};
pub use api::{lemma_prepared_field_displays_plain, lemma_router_paths_agree};
pub use api::{ApiClient, ClientView};
pub use app::lemma_dispatch_paths_agree;
pub use app::{cyclic_next, cyclic_previous, displayed_item, sel_after_remove, spec_edited};
pub use app::{App, AppView, GroupCreationOutcome, RemoteItemRef, RemoteItemWrite};
pub use crypto::{b64_decoding, b64_encoding, gcm_open, gcm_seal};
pub use crypto::{decrypt, derive_key, encrypt};
pub use crypto::{lemma_derived_key_total, lemma_envelope_round_trip};
pub use crypto::{spec_decrypt, spec_derived_key};
pub use error::Error;
pub use local::{first_group_index, first_index, first_item_index, lemma_first_index};
pub use local::{group_id_pred, in_group_pred, item_key_pred};
pub use local::{LocalStore, LocalStoreView};
pub use models::{ErrorResponse, Group, GroupView, Item, ItemView, MessageResponse};
pub use types::{AppState, DetailItem, DetailItemView, DetailSelection};
pub use types::{GroupCreationMode, InputEvent};
pub use wizard::{digits_value, is_digit, parse_port, spec_parse_port};
pub use wizard::{GroupCreationWizard, WizardEffect, WizardInput, WizardView};
