//! The session around the stores: the policy layer that holds the group
//! list, the active selection, the decrypted item view, and the
//! group-creation wizard, and that dispatches every operation to the local
//! path or the remote path.
//!
//! Everything that touches the outside world — the terminal, the network,
//! the clock that mints fresh ids — lives with the caller: the methods here
//! take plain values in, decide, and hand plain values (or a prepared remote
//! write) back.

use crate::api::{display_of, spec_field_prepared, ApiClient, ClientView};
use crate::crypto::spec_derived_key;
use crate::error::Error;
use crate::models::{Group, GroupView, Item, ItemView};
use crate::types::{DetailItem, DetailItemView, DetailSelection, GroupCreationMode};
use crate::wizard::{pop_char, push_char};
use crate::wizard::{GroupCreationWizard, WizardEffect, WizardInput, WizardView};
use crate::wizard::spec_parse_port;
use vstd::prelude::*;
use vstd::utf8::encode_utf8;

verus! {

/// One prepared remote item write: the ids it addresses, and the three
/// field values exactly as they must cross the wire.
#[derive(Debug)]
pub struct RemoteItemWrite {
    pub group_id: String,
    pub item_id: String,
    pub title: String,
    pub describe: String,
    pub text: String,
}

/// A reference to one remote record, for deletes.
#[derive(Debug)]
pub struct RemoteItemRef {
    pub group_id: String,
    pub item_id: String,
}

/// What one group-creation step asks the surroundings to do.
#[derive(Debug)]
pub enum GroupCreationOutcome {
    /// Still inside the wizard.
    Pending,
    /// The wizard was cancelled; no group was added.
    Cancelled,
    /// A local group was added to the list; nothing to send.
    CreatedLocal,
    /// A remote group was registered; the caller should announce it to the
    /// group's endpoint with the prepared name value.
    CreatedRemote { host: String, port: u16, wire_name: String },
    /// Preparing the group's name for the wire failed; no group was added.
    Failed { error: Error },
}

/// The selection after moving one step down a list of `len` entries,
/// wrapping at the end; an empty list leaves the selection untouched.
pub open spec fn cyclic_next(sel: Option<int>, len: int) -> Option<int> {
    if len == 0 {
        sel
    } else {
        match sel {
            Option::Some(i) => if i >= len - 1 {
                Some(0)
            } else {
                Some(i + 1)
            },
            Option::None => Some(0),
        }
    }
}

/// The selection after moving one step up a list of `len` entries, wrapping
/// at the start; an empty list leaves the selection untouched.
pub open spec fn cyclic_previous(sel: Option<int>, len: int) -> Option<int> {
    if len == 0 {
        sel
    } else {
        match sel {
            Option::Some(i) => if i == 0 {
                Some(len - 1)
            } else {
                Some(i - 1)
            },
            Option::None => Some(0),
        }
    }
}

/// One stored item turned into what the session shows: each field run
/// through the display policy for `key`, under the current group.
pub open spec fn displayed_item(
    key: Option<Seq<u8>>,
    group_id: Seq<char>,
    it: ItemView,
) -> DetailItemView {
    DetailItemView {
        title: display_of(key, it.title),
        describe: display_of(key, it.describe),
        text: display_of(key, it.text),
        id: it.id,
        group_id: group_id,
    }
}

/// Router dispatch law at record level: a record written through the
/// encrypting remote path and read back through the display policy is
/// field for field the record that the local path stores directly — the
/// two paths hand callers identical decrypted shapes.
pub proof fn lemma_dispatch_paths_agree(
    key: Seq<u8>,
    group_id: Seq<char>,
    id: Seq<char>,
    title: Seq<char>,
    describe: Seq<char>,
    text: Seq<char>,
    wire_title: Seq<char>,
    wire_describe: Seq<char>,
    wire_text: Seq<char>,
)
    requires
        spec_field_prepared(Some(key), title, true, wire_title),
        spec_field_prepared(Some(key), describe, true, wire_describe),
        spec_field_prepared(Some(key), text, true, wire_text),
    ensures
        displayed_item(
            Some(key),
            group_id,
            (ItemView { id: id, title: wire_title, describe: wire_describe, text: wire_text }),
        ) == (DetailItemView {
            title: title,
            describe: describe,
            text: text,
            id: id,
            group_id: group_id,
        }),
{
    crate::api::lemma_prepared_field_displays_plain(Some(key), title, true, wire_title);
    crate::api::lemma_prepared_field_displays_plain(Some(key), describe, true, wire_describe);
    crate::api::lemma_prepared_field_displays_plain(Some(key), text, true, wire_text);
}

/// The selection after removing the entry at `sel` from a list that now has
/// `new_len` entries: gone when the list emptied, clamped to the end when it
/// fell off, unchanged otherwise.
pub open spec fn sel_after_remove(sel: int, new_len: int) -> Option<int> {
    if new_len == 0 {
        None
    } else if sel >= new_len {
        Some(new_len - 1)
    } else {
        Some(sel)
    }
}

/// The record after an edit of one field: the selected field is replaced by
/// the edit buffer, the other fields and the ids stay.
pub open spec fn spec_edited(
    it: DetailItemView,
    sel: DetailSelection,
    buffer: Seq<char>,
) -> DetailItemView {
    match sel {
        DetailSelection::Title => DetailItemView { title: buffer, ..it },
        DetailSelection::Describe => DetailItemView { describe: buffer, ..it },
        DetailSelection::Text => DetailItemView { text: buffer, ..it },
    }
}

/// The mathematical value of the session.
#[verifier::ext_equal]
pub ghost struct AppView {
    pub groups: Seq<GroupView>,
    pub selected: Option<int>,
    pub is_pinned: bool,
    pub detail_items: Seq<DetailItemView>,
    pub in_detail_view: bool,
    pub in_detail_page: bool,
    pub detail_selected: Option<int>,
    pub current_detail_index: int,
    pub current_detail_selection: DetailSelection,
    pub in_edit_mode: bool,
    pub in_save_mode: bool,
    pub edit_buffer: Seq<char>,
    pub client: Option<ClientView>,
    pub current_group_id: Option<Seq<char>>,
    pub in_group_creation: bool,
    pub wizard: WizardView,
}

impl AppView {
    /// Selections stay inside their lists, and a configured key is always
    /// 32 bytes.
    pub open spec fn wf(self) -> bool {
        &&& (self.client matches Some(c) ==> (c.key matches Some(k) ==> k.len() == 32))
        &&& (self.selected matches Some(i) ==> 0 <= i < self.groups.len())
        &&& (self.detail_selected matches Some(i) ==> 0 <= i < self.detail_items.len())
    }

}

/// The interactive session's state.
pub struct App {
    pub groups: Vec<Group>,
    pub selected: Option<usize>,
    pub is_pinned: bool,
    pub detail_items: Vec<DetailItem>,
    pub in_detail_view: bool,
    pub in_detail_page: bool,
    pub detail_selected: Option<usize>,
    pub current_detail_index: usize,
    pub current_detail_selection: DetailSelection,
    pub in_edit_mode: bool,
    pub in_save_mode: bool,
    pub edit_buffer: String,
    pub api_client: Option<ApiClient>,
    pub current_group_id: Option<String>,
    pub in_group_creation: bool,
    pub wizard: GroupCreationWizard,
}

impl View for App {
    type V = AppView;

    open spec fn view(&self) -> AppView {
        AppView {
            groups: self.groups@.map_values(|g: Group| g@),
            selected: match self.selected {
                Option::Some(i) => Some(i as int),
                Option::None => None,
            },
            is_pinned: self.is_pinned,
            detail_items: self.detail_items@.map_values(|it: DetailItem| it@),
            in_detail_view: self.in_detail_view,
            in_detail_page: self.in_detail_page,
            detail_selected: match self.detail_selected {
                Option::Some(i) => Some(i as int),
                Option::None => None,
            },
            current_detail_index: self.current_detail_index as int,
            current_detail_selection: self.current_detail_selection,
            in_edit_mode: self.in_edit_mode,
            in_save_mode: self.in_save_mode,
            edit_buffer: self.edit_buffer@,
            client: match self.api_client {
                Option::Some(c) => Some(c@),
                Option::None => None,
            },
            current_group_id: match self.current_group_id {
                Option::Some(g) => Some(g@),
                Option::None => None,
            },
            in_group_creation: self.in_group_creation,
            wizard: self.wizard@,
        }
    }
}

impl App {
    /// A fresh session, optionally around a configured remote client; the
    /// caller loads the group list afterwards.
    pub fn new(api_client: Option<ApiClient>) -> (app: App)
        requires
            api_client matches Some(c) ==> c.wf(),
        ensures
            app@ == (AppView {
                groups: Seq::empty(),
                selected: None,
                is_pinned: false,
                detail_items: Seq::empty(),
                in_detail_view: false,
                in_detail_page: false,
                detail_selected: None,
                current_detail_index: 0,
                current_detail_selection: DetailSelection::Title,
                in_edit_mode: false,
                in_save_mode: false,
                edit_buffer: Seq::empty(),
                client: match api_client {
                    Option::Some(c) => Some(c@),
                    Option::None => None,
                },
                current_group_id: None,
                in_group_creation: false,
                wizard: WizardView::initial(),
            }),
            app@.wf(),
    {
        let app = App {
            groups: Vec::new(),
            selected: None,
            is_pinned: false,
            detail_items: Vec::new(),
            in_detail_view: false,
            in_detail_page: false,
            detail_selected: None,
            current_detail_index: 0,
            current_detail_selection: DetailSelection::Title,
            in_edit_mode: false,
            in_save_mode: false,
            edit_buffer: String::new(),
            api_client,
            current_group_id: None,
            in_group_creation: false,
            wizard: GroupCreationWizard::new(),
        };
        proof {
            assert(app@.groups =~= Seq::<GroupView>::empty());
            assert(app@.detail_items =~= Seq::<DetailItemView>::empty());
            assert(app@ =~= (AppView {
                groups: Seq::empty(),
                selected: None,
                is_pinned: false,
                detail_items: Seq::empty(),
                in_detail_view: false,
                in_detail_page: false,
                detail_selected: None,
                current_detail_index: 0,
                current_detail_selection: DetailSelection::Title,
                in_edit_mode: false,
                in_save_mode: false,
                edit_buffer: Seq::empty(),
                client: match api_client {
                    Option::Some(c) => Some(c@),
                    Option::None => None,
                },
                current_group_id: None,
                in_group_creation: false,
                wizard: WizardView::initial(),
            }));
        }
        app
    }

    /// Installs a freshly loaded group list and selects its first entry,
    /// when there is one.
    pub fn set_groups(&mut self, groups: Vec<Group>)
        requires
            old(self)@.wf(),
        ensures
            final(self)@ == (AppView {
                groups: groups@.map_values(|g: Group| g@),
                selected: if groups@.len() > 0 {
                    Some(0int)
                } else {
                    None
                },
                ..old(self)@
            }),
            final(self)@.wf(),
    {
        let has_groups = groups.len() > 0;
        self.groups = groups;
        self.selected = if has_groups {
            Some(0)
        } else {
            None
        };
        proof {
            assert(self@ =~= (AppView {
                groups: self.groups@.map_values(|g: Group| g@),
                selected: if self.groups@.len() > 0 {
                    Some(0int)
                } else {
                    None
                },
                ..old(self)@
            }));
        }
    }

    /// Empties the group list, as the keyless path of a reload does.
    pub fn clear_groups(&mut self)
        requires
            old(self)@.wf(),
        ensures
            final(self)@ == (AppView { groups: Seq::empty(), selected: None, ..old(self)@ }),
            final(self)@.wf(),
    {
        self.groups = Vec::new();
        self.selected = None;
        proof {
            assert(self@.groups =~= Seq::<GroupView>::empty());
            assert(self@ =~= (AppView { groups: Seq::empty(), selected: None, ..old(self)@ }));
        }
    }

    /// Installs a freshly loaded item list for the current group, every
    /// field already run through the display policy (decrypted where it
    /// can be, the placeholder where it cannot), and selects the first
    /// entry when there is one.
    pub fn set_items(&mut self, items: Vec<Item>)
        requires
            old(self)@.wf(),
            old(self)@.client is Some,
            old(self)@.current_group_id is Some,
        ensures
            final(self)@ == (AppView {
                detail_items: items@.map_values(
                    |it: Item|
                        displayed_item(
                            old(self)@.client->0.key,
                            old(self)@.current_group_id->0,
                            it@,
                        ),
                ),
                detail_selected: if items@.len() > 0 {
                    Some(0int)
                } else {
                    None
                },
                ..old(self)@
            }),
            final(self)@.wf(),
    {
        let ghost key = old(self)@.client->0.key;
        let ghost gid = old(self)@.current_group_id->0;
        let client = match &self.api_client {
            Some(c) => c,
            None => unreached(),
        };
        let group_id = match &self.current_group_id {
            Some(g) => g.clone(),
            None => unreached(),
        };
        let mut shown: Vec<DetailItem> = Vec::new();
        let n = items.len();
        for j in 0..n
            invariant
                n == items@.len(),
                client.wf(),
                client@.key == key,
                group_id@ == gid,
                shown@.map_values(|it: DetailItem| it@) =~= items@.take(j as int).map_values(
                    |it: Item| displayed_item(key, gid, it@),
                ),
        {
            let item = &items[j];
            let detail = DetailItem {
                title: client.display_field(item.title.as_str()),
                describe: client.display_field(item.describe.as_str()),
                text: client.display_field(item.text.as_str()),
                id: item.id.clone(),
                group_id: group_id.clone(),
            };
            let ghost shown_before = shown@;
            let ghost detail_view = detail@;
            shown.push(detail);
            proof {
                assert(detail_view =~= displayed_item(key, gid, items@[j as int]@));
                assert(shown@.map_values(|it: DetailItem| it@) =~= shown_before.map_values(
                    |it: DetailItem| it@,
                ).push(detail_view));
                assert(items@.take(j + 1).drop_last() =~= items@.take(j as int));
                assert(items@.take(j + 1).last() == items@[j as int]);
                assert(shown@.map_values(|it: DetailItem| it@) =~= items@.take(j + 1).map_values(
                    |it: Item| displayed_item(key, gid, it@),
                ));
            }
        }
        let has_items = shown.len() > 0;
        self.detail_items = shown;
        self.detail_selected = if has_items {
            Some(0)
        } else {
            None
        };
        proof {
            assert(items@.take(n as int) =~= items@);
            assert(self@ =~= (AppView {
                detail_items: items@.map_values(|it: Item| displayed_item(key, gid, it@)),
                detail_selected: if items@.len() > 0 {
                    Some(0int)
                } else {
                    None
                },
                ..old(self)@
            }));
        }
    }

    /// Empties the item list, as the keyless path of a reload does.
    pub fn clear_items(&mut self)
        requires
            old(self)@.wf(),
        ensures
            final(self)@ == (AppView {
                detail_items: Seq::empty(),
                detail_selected: None,
                ..old(self)@
            }),
            final(self)@.wf(),
    {
        self.detail_items = Vec::new();
        self.detail_selected = None;
        proof {
            assert(self@.detail_items =~= Seq::<DetailItemView>::empty());
            assert(self@ =~= (AppView {
                detail_items: Seq::empty(),
                detail_selected: None,
                ..old(self)@
            }));
        }
    }

    /// Moves the group selection one entry down, wrapping.
    pub fn next(&mut self)
        requires
            old(self)@.wf(),
        ensures
            final(self)@ == (AppView {
                selected: cyclic_next(old(self)@.selected, old(self)@.groups.len() as int),
                ..old(self)@
            }),
            final(self)@.wf(),
    {
        let len = self.groups.len();
        if len > 0 {
            let i = match self.selected {
                Some(i) => if i >= len - 1 {
                    0
                } else {
                    i + 1
                },
                None => 0,
            };
            self.selected = Some(i);
        }
        proof {
            assert(self@ =~= (AppView {
                selected: cyclic_next(old(self)@.selected, old(self)@.groups.len() as int),
                ..old(self)@
            }));
        }
    }

    /// Moves the group selection one entry up, wrapping.
    pub fn previous(&mut self)
        requires
            old(self)@.wf(),
        ensures
            final(self)@ == (AppView {
                selected: cyclic_previous(old(self)@.selected, old(self)@.groups.len() as int),
                ..old(self)@
            }),
            final(self)@.wf(),
    {
        let len = self.groups.len();
        if len > 0 {
            let i = match self.selected {
                Some(i) => if i == 0 {
                    len - 1
                } else {
                    i - 1
                },
                None => 0,
            };
            self.selected = Some(i);
        }
        proof {
            assert(self@ =~= (AppView {
                selected: cyclic_previous(old(self)@.selected, old(self)@.groups.len() as int),
                ..old(self)@
            }));
        }
    }

    /// Moves the item selection one entry down, wrapping.
    pub fn next_detail(&mut self)
        requires
            old(self)@.wf(),
        ensures
            final(self)@ == (AppView {
                detail_selected: cyclic_next(
                    old(self)@.detail_selected,
                    old(self)@.detail_items.len() as int,
                ),
                ..old(self)@
            }),
            final(self)@.wf(),
    {
        let len = self.detail_items.len();
        if len > 0 {
            let i = match self.detail_selected {
                Some(i) => if i >= len - 1 {
                    0
                } else {
                    i + 1
                },
                None => 0,
            };
            self.detail_selected = Some(i);
        }
        proof {
            assert(self@ =~= (AppView {
                detail_selected: cyclic_next(
                    old(self)@.detail_selected,
                    old(self)@.detail_items.len() as int,
                ),
                ..old(self)@
            }));
        }
    }

    /// Moves the item selection one entry up, wrapping.
    pub fn previous_detail(&mut self)
        requires
            old(self)@.wf(),
        ensures
            final(self)@ == (AppView {
                detail_selected: cyclic_previous(
                    old(self)@.detail_selected,
                    old(self)@.detail_items.len() as int,
                ),
                ..old(self)@
            }),
            final(self)@.wf(),
    {
        let len = self.detail_items.len();
        if len > 0 {
            let i = match self.detail_selected {
                Some(i) => if i == 0 {
                    len - 1
                } else {
                    i - 1
                },
                None => 0,
            };
            self.detail_selected = Some(i);
        }
        proof {
            assert(self@ =~= (AppView {
                detail_selected: cyclic_previous(
                    old(self)@.detail_selected,
                    old(self)@.detail_items.len() as int,
                ),
                ..old(self)@
            }));
        }
    }

    /// Flips the window-pinning flag and reports the new value; performing
    /// the actual pinning is the caller's platform-side task.
    pub fn toggle_pin(&mut self) -> (pinned: bool)
        requires
            old(self)@.wf(),
        ensures
            final(self)@ == (AppView { is_pinned: !old(self)@.is_pinned, ..old(self)@ }),
            pinned == final(self)@.is_pinned,
            final(self)@.wf(),
    {
        self.is_pinned = !self.is_pinned;
        proof {
            assert(self@ =~= (AppView { is_pinned: !old(self)@.is_pinned, ..old(self)@ }));
        }
        self.is_pinned
    }

    /// Opens the group-creation wizard, discarding whatever an earlier run
    /// left in its buffers.
    pub fn begin_group_creation(&mut self)
        requires
            old(self)@.wf(),
        ensures
            final(self)@ == (AppView {
                in_group_creation: true,
                wizard: WizardView::initial(),
                ..old(self)@
            }),
            final(self)@.wf(),
    {
        self.in_group_creation = true;
        self.wizard.reset();
        proof {
            assert(self@ =~= (AppView {
                in_group_creation: true,
                wizard: WizardView::initial(),
                ..old(self)@
            }));
        }
    }

    /// Feeds one input to the group-creation wizard and carries out what it
    /// decides. A cancellation adds no group and clears every buffer. A
    /// confirmed local choice appends a local group named `new_name` under
    /// `new_id` and selects it. A confirmed remote form appends a remote
    /// group carrying the validated endpoint and the passphrase, its stored
    /// name prepared by the per-field policy under the key derived from that
    /// passphrase; the caller then announces it to that endpoint.
    pub fn group_creation_event(
        &mut self,
        input: WizardInput,
        new_id: &str,
        new_name: &str,
        use_encryption: bool,
    ) -> (outcome: GroupCreationOutcome)
        requires
            old(self)@.wf(),
            old(self)@.in_group_creation,
        ensures
            final(self)@.wf(),
            input is Cancel <==> outcome is Cancelled,
            outcome is CreatedLocal <==> input is Advance && old(self)@.wizard.mode
                == GroupCreationMode::Local,
            (outcome is CreatedRemote || outcome is Failed) <==> (input is Advance
                && old(self)@.wizard.mode == GroupCreationMode::InputSecretKey
                && old(self)@.wizard.remote_ready()),
            outcome is Pending ==> final(self)@ == (AppView {
                wizard: old(self)@.wizard.step_state(input),
                ..old(self)@
            }),
            outcome is Cancelled ==> final(self)@ == (AppView {
                in_group_creation: false,
                wizard: WizardView::initial(),
                ..old(self)@
            }),
            outcome is CreatedLocal ==> final(self)@ == (AppView {
                groups: old(self)@.groups.push(
                    (GroupView {
                        id: new_id@,
                        name: new_name@,
                        is_local: true,
                        api_host: None,
                        api_port: None,
                        api_secret_key: None,
                    }),
                ),
                selected: Some(old(self)@.groups.len() as int),
                in_group_creation: false,
                wizard: WizardView::initial(),
                ..old(self)@
            }),
            outcome matches GroupCreationOutcome::CreatedRemote { host, port, wire_name } ==> {
                &&& host@ == old(self)@.wizard.host
                &&& Some(port) == spec_parse_port(encode_utf8(old(self)@.wizard.port))
                &&& spec_field_prepared(
                    Some(spec_derived_key(encode_utf8(old(self)@.wizard.secret_key))),
                    new_name@,
                    use_encryption,
                    wire_name@,
                )
                &&& final(self)@ == (AppView {
                    groups: old(self)@.groups.push(
                        (GroupView {
                            id: new_id@,
                            name: wire_name@,
                            is_local: false,
                            api_host: Some(old(self)@.wizard.host),
                            api_port: Some(old(self)@.wizard.port),
                            api_secret_key: Some(old(self)@.wizard.secret_key),
                        }),
                    ),
                    selected: Some(old(self)@.groups.len() as int),
                    in_group_creation: false,
                    wizard: WizardView::initial(),
                    ..old(self)@
                })
            },
            outcome matches GroupCreationOutcome::Failed { error } ==> error == Error::Format
                && final(self)@ == (AppView {
                in_group_creation: false,
                wizard: WizardView::initial(),
                ..old(self)@
            }),
    {
        let effect = self.wizard.step(input);
        match effect {
            WizardEffect::Pending => {
                proof {
                    assert(self@ =~= (AppView {
                        wizard: old(self)@.wizard.step_state(input),
                        ..old(self)@
                    }));
                }
                GroupCreationOutcome::Pending
            },
            WizardEffect::Cancelled => {
                self.in_group_creation = false;
                proof {
                    assert(self@ =~= (AppView {
                        in_group_creation: false,
                        wizard: WizardView::initial(),
                        ..old(self)@
                    }));
                }
                GroupCreationOutcome::Cancelled
            },
            WizardEffect::CreateLocal => {
                let group = Group {
                    id: new_id.to_owned(),
                    name: new_name.to_owned(),
                    is_local: true,
                    api_host: None,
                    api_port: None,
                    api_secret_key: None,
                };
                let ghost gv = group@;
                self.groups.push(group);
                self.selected = Some(self.groups.len() - 1);
                self.in_group_creation = false;
                proof {
                    assert(self@.groups =~= old(self)@.groups.push(gv));
                    assert(self@ =~= (AppView {
                        groups: old(self)@.groups.push(gv),
                        selected: Some(old(self)@.groups.len() as int),
                        in_group_creation: false,
                        wizard: WizardView::initial(),
                        ..old(self)@
                    }));
                }
                GroupCreationOutcome::CreatedLocal
            },
            WizardEffect::CreateRemote { host, port, port_text, secret_key } => {
                let client = ApiClient::new(host.clone(), Some(secret_key.clone()));
                match client.encrypt_field(new_name, use_encryption) {
                    Ok(wire_name) => {
                        let group = Group {
                            id: new_id.to_owned(),
                            name: wire_name.clone(),
                            is_local: false,
                            api_host: Some(host.clone()),
                            api_port: Some(port_text),
                            api_secret_key: Some(secret_key),
                        };
                        let ghost gv = group@;
                        self.groups.push(group);
                        self.selected = Some(self.groups.len() - 1);
                        self.in_group_creation = false;
                        proof {
                            assert(self@.groups =~= old(self)@.groups.push(gv));
                            assert(self@ =~= (AppView {
                                groups: old(self)@.groups.push(gv),
                                selected: Some(old(self)@.groups.len() as int),
                                in_group_creation: false,
                                wizard: WizardView::initial(),
                                ..old(self)@
                            }));
                        }
                        GroupCreationOutcome::CreatedRemote { host, port, wire_name }
                    },
                    Err(error) => {
                        self.in_group_creation = false;
                        proof {
                            assert(self@ =~= (AppView {
                                in_group_creation: false,
                                wizard: WizardView::initial(),
                                ..old(self)@
                            }));
                        }
                        GroupCreationOutcome::Failed { error }
                    },
                }
            },
        }
    }

    /// Creates an item in the current group, dispatching on the session's
    /// mode. With no group entered the operation is refused as `NotFound`.
    /// On the local path the item is stored plaintext and selected. On the
    /// remote path nothing changes here: the prepared write — every field
    /// run through the per-field policy — is returned for the caller to
    /// send; requesting encryption without a key is refused as `MissingKey`
    /// and no item comes into being.
    pub fn create_item(
        &mut self,
        item_id: &str,
        title: &str,
        describe: &str,
        text: &str,
        use_encryption: bool,
    ) -> (r: Result<Option<RemoteItemWrite>, Error>)
        requires
            old(self)@.wf(),
        ensures
            final(self)@.wf(),
            old(self)@.current_group_id is None ==> r == Err::<Option<RemoteItemWrite>, Error>(
                Error::NotFound,
            ) && final(self)@ == old(self)@,
            old(self)@.current_group_id matches Some(gid) ==> old(self)@.client matches Some(
                c,
            ) ==> (match r {
                Ok(plan) => {
                    &&& final(self)@ == old(self)@
                    &&& plan matches Some(w)
                    &&& w.group_id@ == gid
                    &&& w.item_id@ == item_id@
                    &&& spec_field_prepared(c.key, title@, use_encryption, w.title@)
                    &&& spec_field_prepared(c.key, describe@, use_encryption, w.describe@)
                    &&& spec_field_prepared(c.key, text@, use_encryption, w.text@)
                },
                Err(e) => {
                    &&& final(self)@ == old(self)@
                    &&& use_encryption
                    &&& (c.key is None ==> e == Error::MissingKey)
                    &&& (c.key is Some ==> e == Error::Format)
                },
            }),
            old(self)@.current_group_id matches Some(gid) ==> old(self)@.client is None ==> r
                == Ok::<Option<RemoteItemWrite>, Error>(None) && final(self)@ == (AppView {
                detail_items: old(self)@.detail_items.push(
                    (DetailItemView {
                        title: title@,
                        describe: describe@,
                        text: text@,
                        id: item_id@,
                        group_id: gid,
                    }),
                ),
                detail_selected: Some(old(self)@.detail_items.len() as int),
                ..old(self)@
            }),
    {
        let group_id = match &self.current_group_id {
            Some(g) => g.clone(),
            None => {
                return Err(Error::NotFound);
            },
        };
        match &self.api_client {
            Some(client) => {
                let fields = match client.prepare_item_fields(title, describe, text, use_encryption) {
                    Ok(fields) => fields,
                    Err(e) => {
                        return Err(e);
                    },
                };
                Ok(
                    Some(
                        RemoteItemWrite {
                            group_id,
                            item_id: item_id.to_owned(),
                            title: fields.0,
                            describe: fields.1,
                            text: fields.2,
                        },
                    ),
                )
            },
            None => {
                let item = DetailItem {
                    title: title.to_owned(),
                    describe: describe.to_owned(),
                    text: text.to_owned(),
                    id: item_id.to_owned(),
                    group_id,
                };
                let ghost iv = item@;
                self.detail_items.push(item);
                self.detail_selected = Some(self.detail_items.len() - 1);
                proof {
                    assert(self@.detail_items =~= old(self)@.detail_items.push(iv));
                    assert(self@ =~= (AppView {
                        detail_items: old(self)@.detail_items.push(iv),
                        detail_selected: Some(old(self)@.detail_items.len() as int),
                        ..old(self)@
                    }));
                }
                Ok(None)
            },
        }
    }

    /// Saves the field being edited into the current record, dispatching on
    /// the session's mode. The edit buffer replaces the selected field; the
    /// other fields and the ids stay. On the remote path the record is also
    /// updated in place here — already decrypted — and the prepared write is
    /// returned for the caller to send; a policy refusal changes nothing.
    /// With no record under the cursor, nothing happens.
    pub fn save_item_edit(&mut self, use_encryption: bool) -> (r: Result<
        Option<RemoteItemWrite>,
        Error,
    >)
        requires
            old(self)@.wf(),
        ensures
            final(self)@.wf(),
            old(self)@.current_detail_index >= old(self)@.detail_items.len() ==> r == Ok::<
                Option<RemoteItemWrite>,
                Error,
            >(None) && final(self)@ == old(self)@,
            old(self)@.current_detail_index < old(self)@.detail_items.len() ==> ({
                let idx = old(self)@.current_detail_index;
                let edited = spec_edited(
                    old(self)@.detail_items[idx],
                    old(self)@.current_detail_selection,
                    old(self)@.edit_buffer,
                );
                match r {
                    Ok(plan) => {
                        &&& final(self)@ == (AppView {
                            detail_items: old(self)@.detail_items.update(idx, edited),
                            ..old(self)@
                        })
                        &&& (old(self)@.client matches Some(c) ==> {
                            &&& plan matches Some(w)
                            &&& w.group_id@ == edited.group_id
                            &&& w.item_id@ == edited.id
                            &&& spec_field_prepared(c.key, edited.title, use_encryption, w.title@)
                            &&& spec_field_prepared(
                                c.key,
                                edited.describe,
                                use_encryption,
                                w.describe@,
                            )
                            &&& spec_field_prepared(c.key, edited.text, use_encryption, w.text@)
                        })
                        &&& (old(self)@.client is None ==> plan is None)
                    },
                    Err(e) => {
                        &&& final(self)@ == old(self)@
                        &&& use_encryption
                        &&& old(self)@.client matches Some(c) && (c.key is None ==> e
                            == Error::MissingKey) && (c.key is Some ==> e == Error::Format)
                    },
                }
            }),
    {
        let idx = self.current_detail_index;
        if idx >= self.detail_items.len() {
            return Ok(None);
        }
        let (new_title, new_describe, new_text) = {
            let it = &self.detail_items[idx];
            match self.current_detail_selection {
                DetailSelection::Title => (
                    self.edit_buffer.clone(),
                    it.describe.clone(),
                    it.text.clone(),
                ),
                DetailSelection::Describe => (
                    it.title.clone(),
                    self.edit_buffer.clone(),
                    it.text.clone(),
                ),
                DetailSelection::Text => (
                    it.title.clone(),
                    it.describe.clone(),
                    self.edit_buffer.clone(),
                ),
            }
        };
        let plan = match &self.api_client {
            Some(client) => {
                let fields = match client.prepare_item_fields(
                    new_title.as_str(),
                    new_describe.as_str(),
                    new_text.as_str(),
                    use_encryption,
                ) {
                    Ok(fields) => fields,
                    Err(e) => {
                        return Err(e);
                    },
                };
                Some(
                    RemoteItemWrite {
                        group_id: self.detail_items[idx].group_id.clone(),
                        item_id: self.detail_items[idx].id.clone(),
                        title: fields.0,
                        describe: fields.1,
                        text: fields.2,
                    },
                )
            },
            None => None,
        };
        let mut item = self.detail_items.remove(idx);
        item.title = new_title;
        item.describe = new_describe;
        item.text = new_text;
        let ghost iv = item@;
        self.detail_items.insert(idx, item);
        proof {
            assert(self@.detail_items =~= old(self)@.detail_items.update(idx as int, iv));
            assert(self@ =~= (AppView {
                detail_items: old(self)@.detail_items.update(idx as int, iv),
                ..old(self)@
            }));
        }
        Ok(plan)
    }

    /// Deletes the selected item, dispatching on the session's mode. On the
    /// local path the record is removed and the selection adjusted; on the
    /// remote path nothing changes here and the record's ids are returned
    /// for the caller to send the delete and reload. With no selection,
    /// nothing happens.
    pub fn delete_item(&mut self) -> (r: Option<RemoteItemRef>)
        requires
            old(self)@.wf(),
        ensures
            final(self)@.wf(),
            old(self)@.detail_selected is None ==> r is None && final(self)@ == old(self)@,
            old(self)@.detail_selected matches Some(sel) ==> old(self)@.client matches Some(
                c,
            ) ==> {
                &&& final(self)@ == old(self)@
                &&& r matches Some(rf)
                &&& rf.group_id@ == old(self)@.detail_items[sel].group_id
                &&& rf.item_id@ == old(self)@.detail_items[sel].id
            },
            old(self)@.detail_selected matches Some(sel) ==> old(self)@.client is None ==> r
                is None && final(self)@ == (AppView {
                detail_items: old(self)@.detail_items.remove(sel),
                detail_selected: sel_after_remove(sel, old(self)@.detail_items.len() - 1),
                ..old(self)@
            }),
    {
        let sel = match self.detail_selected {
            Some(sel) => sel,
            None => {
                return None;
            },
        };
        match &self.api_client {
            Some(_) => {
                let item = &self.detail_items[sel];
                Some(RemoteItemRef { group_id: item.group_id.clone(), item_id: item.id.clone() })
            },
            None => {
                self.detail_items.remove(sel);
                let len = self.detail_items.len();
                self.detail_selected = if len == 0 {
                    None
                } else if sel >= len {
                    Some(len - 1)
                } else {
                    Some(sel)
                };
                proof {
                    assert(self@.detail_items =~= old(self)@.detail_items.remove(sel as int));
                    assert(self@ =~= (AppView {
                        detail_items: old(self)@.detail_items.remove(sel as int),
                        detail_selected: sel_after_remove(
                            sel as int,
                            old(self)@.detail_items.len() - 1,
                        ),
                        ..old(self)@
                    }));
                }
                None
            },
        }
    }

    /// Deletes the selected group, dispatching on the session's mode. On
    /// the local path the group is removed, the selection adjusted, and the
    /// detail views left if they were showing it; on the remote path
    /// nothing changes here and the group's id is returned for the caller
    /// to send the delete, reload, and report back through
    /// `note_group_deleted`. With no selection, nothing happens.
    pub fn delete_group(&mut self) -> (r: Option<String>)
        requires
            old(self)@.wf(),
        ensures
            final(self)@.wf(),
            old(self)@.selected is None ==> r is None && final(self)@ == old(self)@,
            old(self)@.selected matches Some(sel) ==> old(self)@.client matches Some(c) ==> {
                &&& final(self)@ == old(self)@
                &&& r matches Some(gid)
                &&& gid@ == old(self)@.groups[sel].id
            },
            old(self)@.selected matches Some(sel) ==> old(self)@.client is None ==> r is None
                && ({
                let was_current = old(self)@.current_group_id == Some(
                    old(self)@.groups[sel].id,
                );
                final(self)@ == (AppView {
                    groups: old(self)@.groups.remove(sel),
                    selected: sel_after_remove(sel, old(self)@.groups.len() - 1),
                    in_detail_view: !was_current && old(self)@.in_detail_view,
                    in_detail_page: !was_current && old(self)@.in_detail_page,
                    current_group_id: if was_current {
                        None
                    } else {
                        old(self)@.current_group_id
                    },
                    ..old(self)@
                })
            }),
    {
        let sel = match self.selected {
            Some(sel) => sel,
            None => {
                return None;
            },
        };
        match &self.api_client {
            Some(_) => Some(self.groups[sel].id.clone()),
            None => {
                let removed = self.groups.remove(sel);
                let len = self.groups.len();
                self.selected = if len == 0 {
                    None
                } else if sel >= len {
                    Some(len - 1)
                } else {
                    Some(sel)
                };
                let was_current = match &self.current_group_id {
                    Some(current) => current.eq(&removed.id),
                    None => false,
                };
                if was_current {
                    self.in_detail_view = false;
                    self.in_detail_page = false;
                    self.current_group_id = None;
                }
                proof {
                    assert(self@.groups =~= old(self)@.groups.remove(sel as int));
                    if old(self)@.current_group_id == Some(old(self)@.groups[sel as int].id) {
                        assert(self@ =~= (AppView {
                            groups: old(self)@.groups.remove(sel as int),
                            selected: sel_after_remove(sel as int, old(self)@.groups.len() - 1),
                            in_detail_view: false,
                            in_detail_page: false,
                            current_group_id: None,
                            ..old(self)@
                        }));
                    } else {
                        assert(self@ =~= (AppView {
                            groups: old(self)@.groups.remove(sel as int),
                            selected: sel_after_remove(sel as int, old(self)@.groups.len() - 1),
                            ..old(self)@
                        }));
                    }
                }
                None
            },
        }
    }

    /// Reports that the group carrying `group_id` was deleted remotely: if
    /// the session was showing it, the detail views are left.
    pub fn note_group_deleted(&mut self, group_id: &str)
        requires
            old(self)@.wf(),
        ensures
            final(self)@.wf(),
            old(self)@.current_group_id == Some(group_id@) ==> final(self)@ == (AppView {
                in_detail_view: false,
                in_detail_page: false,
                current_group_id: None,
                ..old(self)@
            }),
            old(self)@.current_group_id != Some(group_id@) ==> final(self)@ == old(self)@,
    {
        let group_id_owned = group_id.to_owned();
        let was_current = match &self.current_group_id {
            Some(current) => current.eq(&group_id_owned),
            None => false,
        };
        if was_current {
            self.in_detail_view = false;
            self.in_detail_page = false;
            self.current_group_id = None;
            proof {
                assert(self@ =~= (AppView {
                    in_detail_view: false,
                    in_detail_page: false,
                    current_group_id: None,
                    ..old(self)@
                }));
            }
        }
    }

    /// Confirms the current selection: from the group list it enters the
    /// selected group (the caller then loads its items, as the returned
    /// flag says), and from the item list it opens the detail page on the
    /// selected record. Anywhere else it does nothing.
    pub fn enter(&mut self) -> (load_items: bool)
        requires
            old(self)@.wf(),
            !old(self)@.in_edit_mode,
        ensures
            final(self)@.wf(),
            !old(self)@.in_detail_view ==> (match old(self)@.selected {
                Option::Some(i) => load_items && final(self)@ == (AppView {
                    current_group_id: Some(old(self)@.groups[i].id),
                    in_detail_view: true,
                    ..old(self)@
                }),
                Option::None => !load_items && final(self)@ == old(self)@,
            }),
            old(self)@.in_detail_view && !old(self)@.in_detail_page ==> !load_items && (
            match old(self)@.detail_selected {
                Option::Some(sel) => final(self)@ == (AppView {
                    in_detail_page: true,
                    current_detail_index: sel,
                    ..old(self)@
                }),
                Option::None => final(self)@ == old(self)@,
            }),
            old(self)@.in_detail_view && old(self)@.in_detail_page ==> !load_items
                && final(self)@ == old(self)@,
    {
        if !self.in_detail_view {
            match self.selected {
                Some(i) => {
                    self.current_group_id = Some(self.groups[i].id.clone());
                    self.in_detail_view = true;
                    proof {
                        assert(self@ =~= (AppView {
                            current_group_id: Some(old(self)@.groups[i as int].id),
                            in_detail_view: true,
                            ..old(self)@
                        }));
                    }
                    true
                },
                None => false,
            }
        } else if !self.in_detail_page {
            match self.detail_selected {
                Some(sel) => {
                    self.in_detail_page = true;
                    self.current_detail_index = sel;
                    proof {
                        assert(self@ =~= (AppView {
                            in_detail_page: true,
                            current_detail_index: sel as int,
                            ..old(self)@
                        }));
                    }
                    false
                },
                None => false,
            }
        } else {
            false
        }
    }

    /// Steps one level back out: the save prompt is dismissed, then the
    /// detail page closed, then the group left; from the group list the
    /// session asks to quit. Editing itself is the caller's path, not this
    /// one's.
    pub fn back(&mut self) -> (quit: bool)
        requires
            old(self)@.wf(),
            !old(self)@.in_edit_mode,
        ensures
            final(self)@.wf(),
            old(self)@.in_save_mode ==> !quit && final(self)@ == (AppView {
                in_save_mode: false,
                in_edit_mode: false,
                edit_buffer: Seq::empty(),
                ..old(self)@
            }),
            !old(self)@.in_save_mode && old(self)@.in_detail_page ==> !quit && final(self)@
                == (AppView { in_detail_page: false, ..old(self)@ }),
            !old(self)@.in_save_mode && !old(self)@.in_detail_page && old(self)@.in_detail_view
                ==> !quit && final(self)@ == (AppView {
                in_detail_view: false,
                in_detail_page: false,
                current_group_id: None,
                ..old(self)@
            }),
            !old(self)@.in_save_mode && !old(self)@.in_detail_page && !old(self)@.in_detail_view ==> quit && final(self)@ == old(self)@,
    {
        if self.in_save_mode {
            self.in_save_mode = false;
            self.in_edit_mode = false;
            self.edit_buffer = String::new();
            proof {
                assert(self@ =~= (AppView {
                    in_save_mode: false,
                    in_edit_mode: false,
                    edit_buffer: Seq::empty(),
                    ..old(self)@
                }));
            }
            false
        } else if self.in_detail_page {
            self.in_detail_page = false;
            proof {
                assert(self@ =~= (AppView { in_detail_page: false, ..old(self)@ }));
            }
            false
        } else if self.in_detail_view {
            self.in_detail_view = false;
            self.in_detail_page = false;
            self.current_group_id = None;
            proof {
                assert(self@ =~= (AppView {
                    in_detail_view: false,
                    in_detail_page: false,
                    current_group_id: None,
                    ..old(self)@
                }));
            }
            false
        } else {
            true
        }
    }

    /// The escape key's path: it swaps between editing and the save prompt,
    /// and outside both it steps back like `back`, without ever quitting.
    pub fn escape(&mut self)
        requires
            old(self)@.wf(),
        ensures
            final(self)@.wf(),
            old(self)@.in_edit_mode ==> final(self)@ == (AppView {
                in_edit_mode: false,
                in_save_mode: true,
                ..old(self)@
            }),
            !old(self)@.in_edit_mode && old(self)@.in_save_mode ==> final(self)@ == (AppView {
                in_save_mode: false,
                in_edit_mode: true,
                ..old(self)@
            }),
            !old(self)@.in_edit_mode && !old(self)@.in_save_mode && old(self)@.in_detail_page
                ==> final(self)@ == (AppView { in_detail_page: false, ..old(self)@ }),
            !old(self)@.in_edit_mode && !old(self)@.in_save_mode && !old(self)@.in_detail_page
                && old(self)@.in_detail_view ==> final(self)@ == (AppView {
                in_detail_view: false,
                in_detail_page: false,
                current_group_id: None,
                ..old(self)@
            }),
            !old(self)@.in_edit_mode && !old(self)@.in_save_mode && !old(self)@.in_detail_page
                && !old(self)@.in_detail_view ==> final(self)@ == old(self)@,
    {
        if self.in_edit_mode {
            self.in_edit_mode = false;
            self.in_save_mode = true;
            proof {
                assert(self@ =~= (AppView {
                    in_edit_mode: false,
                    in_save_mode: true,
                    ..old(self)@
                }));
            }
        } else if self.in_save_mode {
            self.in_save_mode = false;
            self.in_edit_mode = true;
            proof {
                assert(self@ =~= (AppView {
                    in_save_mode: false,
                    in_edit_mode: true,
                    ..old(self)@
                }));
            }
        } else if self.in_detail_page {
            self.in_detail_page = false;
            proof {
                assert(self@ =~= (AppView { in_detail_page: false, ..old(self)@ }));
            }
        } else if self.in_detail_view {
            self.in_detail_view = false;
            self.in_detail_page = false;
            self.current_group_id = None;
            proof {
                assert(self@ =~= (AppView {
                    in_detail_view: false,
                    in_detail_page: false,
                    current_group_id: None,
                    ..old(self)@
                }));
            }
        }
    }

    /// Opens the editor on the selected field of the current record,
    /// seeding the buffer with that field's text; outside the detail page,
    /// while already editing or saving, or with no record under the cursor,
    /// nothing happens.
    pub fn begin_edit(&mut self)
        requires
            old(self)@.wf(),
        ensures
            final(self)@.wf(),
            ({
                let s = old(self)@;
                if s.in_detail_page && !s.in_edit_mode && !s.in_save_mode
                    && s.current_detail_index < s.detail_items.len() {
                    final(self)@ == (AppView {
                        edit_buffer: (match s.current_detail_selection {
                            DetailSelection::Title => s.detail_items[s.current_detail_index].title,
                            DetailSelection::Describe => s.detail_items[s.current_detail_index].describe,
                            DetailSelection::Text => s.detail_items[s.current_detail_index].text,
                        }),
                        in_edit_mode: true,
                        ..s
                    })
                } else {
                    final(self)@ == s
                }
            }),
    {
        if self.in_detail_page && !self.in_edit_mode && !self.in_save_mode
            && self.current_detail_index < self.detail_items.len() {
            let item = &self.detail_items[self.current_detail_index];
            self.edit_buffer = match self.current_detail_selection {
                DetailSelection::Title => item.title.clone(),
                DetailSelection::Describe => item.describe.clone(),
                DetailSelection::Text => item.text.clone(),
            };
            self.in_edit_mode = true;
            proof {
                let s = old(self)@;
                assert(self@ =~= (AppView {
                    edit_buffer: (match s.current_detail_selection {
                        DetailSelection::Title => s.detail_items[s.current_detail_index].title,
                        DetailSelection::Describe => s.detail_items[s.current_detail_index].describe,
                        DetailSelection::Text => s.detail_items[s.current_detail_index].text,
                    }),
                    in_edit_mode: true,
                    ..s
                }));
            }
        }
    }

    /// Closes the editor and the save prompt and empties the buffer.
    pub fn end_edit(&mut self)
        requires
            old(self)@.wf(),
        ensures
            final(self)@.wf(),
            final(self)@ == (AppView {
                in_edit_mode: false,
                in_save_mode: false,
                edit_buffer: Seq::empty(),
                ..old(self)@
            }),
    {
        self.in_edit_mode = false;
        self.in_save_mode = false;
        self.edit_buffer = String::new();
        proof {
            assert(self@ =~= (AppView {
                in_edit_mode: false,
                in_save_mode: false,
                edit_buffer: Seq::empty(),
                ..old(self)@
            }));
        }
    }

    /// Appends one character to the edit buffer while editing; otherwise
    /// nothing happens.
    pub fn edit_char(&mut self, c: char)
        requires
            old(self)@.wf(),
        ensures
            final(self)@.wf(),
            old(self)@.in_edit_mode ==> final(self)@ == (AppView {
                edit_buffer: old(self)@.edit_buffer.push(c),
                ..old(self)@
            }),
            !old(self)@.in_edit_mode ==> final(self)@ == old(self)@,
    {
        if self.in_edit_mode {
            push_char(&mut self.edit_buffer, c);
            proof {
                assert(self@ =~= (AppView {
                    edit_buffer: old(self)@.edit_buffer.push(c),
                    ..old(self)@
                }));
            }
        }
    }

    /// Removes the edit buffer's last character while editing; otherwise
    /// nothing happens.
    pub fn edit_backspace(&mut self)
        requires
            old(self)@.wf(),
        ensures
            final(self)@.wf(),
            old(self)@.in_edit_mode && old(self)@.edit_buffer.len() > 0 ==> final(self)@
                == (AppView { edit_buffer: old(self)@.edit_buffer.drop_last(), ..old(self)@ }),
            old(self)@.in_edit_mode && old(self)@.edit_buffer.len() == 0 ==> final(self)@ == old(self)@,
            !old(self)@.in_edit_mode ==> final(self)@ == old(self)@,
    {
        if self.in_edit_mode {
            pop_char(&mut self.edit_buffer);
            proof {
                if old(self)@.edit_buffer.len() > 0 {
                    assert(self@ =~= (AppView {
                        edit_buffer: old(self)@.edit_buffer.drop_last(),
                        ..old(self)@
                    }));
                } else {
                    assert(self@ =~= old(self)@);
                }
            }
        }
    }

    /// Empties the edit buffer, as clearing the selected block on the
    /// detail page does; outside the detail page or at the save prompt or
    /// with no record under the cursor, nothing happens.
    pub fn edit_clear(&mut self)
        requires
            old(self)@.wf(),
        ensures
            final(self)@.wf(),
            old(self)@.in_detail_page && !old(self)@.in_save_mode && old(self)@.current_detail_index < old(self)@.detail_items.len() ==> final(self)@ == (AppView {
                edit_buffer: Seq::empty(),
                ..old(self)@
            }),
            !(old(self)@.in_detail_page && !old(self)@.in_save_mode && old(self)@.current_detail_index < old(self)@.detail_items.len()) ==> final(self)@ == old(self)@,
    {
        if self.in_detail_page && !self.in_save_mode
            && self.current_detail_index < self.detail_items.len() {
            self.edit_buffer = String::new();
            proof {
                assert(self@ =~= (AppView { edit_buffer: Seq::empty(), ..old(self)@ }));
            }
        }
    }

    /// Moves the field cursor on the detail page one field down, cycling
    /// title, description, text; elsewhere nothing happens.
    pub fn select_next_field(&mut self)
        requires
            old(self)@.wf(),
        ensures
            final(self)@.wf(),
            old(self)@.in_detail_page ==> final(self)@ == (AppView {
                current_detail_selection: (match old(self)@.current_detail_selection {
                    DetailSelection::Title => DetailSelection::Describe,
                    DetailSelection::Describe => DetailSelection::Text,
                    DetailSelection::Text => DetailSelection::Title,
                }),
                ..old(self)@
            }),
            !old(self)@.in_detail_page ==> final(self)@ == old(self)@,
    {
        if self.in_detail_page {
            self.current_detail_selection = match self.current_detail_selection {
                DetailSelection::Title => DetailSelection::Describe,
                DetailSelection::Describe => DetailSelection::Text,
                DetailSelection::Text => DetailSelection::Title,
            };
            proof {
                assert(self@ =~= (AppView {
                    current_detail_selection: (match old(self)@.current_detail_selection {
                        DetailSelection::Title => DetailSelection::Describe,
                        DetailSelection::Describe => DetailSelection::Text,
                        DetailSelection::Text => DetailSelection::Title,
                    }),
                    ..old(self)@
                }));
            }
        }
    }

    /// Moves the field cursor on the detail page one field up, cycling
    /// title, text, description; elsewhere nothing happens.
    pub fn select_previous_field(&mut self)
        requires
            old(self)@.wf(),
        ensures
            final(self)@.wf(),
            old(self)@.in_detail_page ==> final(self)@ == (AppView {
                current_detail_selection: (match old(self)@.current_detail_selection {
                    DetailSelection::Title => DetailSelection::Text,
                    DetailSelection::Describe => DetailSelection::Title,
                    DetailSelection::Text => DetailSelection::Describe,
                }),
                ..old(self)@
            }),
            !old(self)@.in_detail_page ==> final(self)@ == old(self)@,
    {
        if self.in_detail_page {
            self.current_detail_selection = match self.current_detail_selection {
                DetailSelection::Title => DetailSelection::Text,
                DetailSelection::Describe => DetailSelection::Title,
                DetailSelection::Text => DetailSelection::Describe,
            };
            proof {
                assert(self@ =~= (AppView {
                    current_detail_selection: (match old(self)@.current_detail_selection {
                        DetailSelection::Title => DetailSelection::Text,
                        DetailSelection::Describe => DetailSelection::Title,
                        DetailSelection::Text => DetailSelection::Describe,
                    }),
                    ..old(self)@
                }));
            }
        }
    }

    /// Moves the detail page to the next record, wrapping, and empties the
    /// edit buffer when the record actually changed; outside the detail
    /// page or with no records, nothing happens.
    pub fn cycle_detail_index(&mut self)
        requires
            old(self)@.wf(),
        ensures
            final(self)@.wf(),
            old(self)@.in_detail_page && old(self)@.detail_items.len() > 0 ==> ({
                let len = old(self)@.detail_items.len() as int;
                let next = ((old(self)@.current_detail_index % len) + 1) % len;
                final(self)@ == (AppView {
                    current_detail_index: next,
                    edit_buffer: if next != old(self)@.current_detail_index {
                        Seq::empty()
                    } else {
                        old(self)@.edit_buffer
                    },
                    ..old(self)@
                })
            }),
            !(old(self)@.in_detail_page && old(self)@.detail_items.len() > 0) ==> final(self)@
                == old(self)@,
    {
        if self.in_detail_page && self.detail_items.len() > 0 {
            let len = self.detail_items.len();
            let old_index = self.current_detail_index;
            let next = ((old_index % len) + 1) % len;
            self.current_detail_index = next;
            if next != old_index {
                self.edit_buffer = String::new();
            }
            proof {
                let len_spec = old(self)@.detail_items.len() as int;
                let next_spec = ((old(self)@.current_detail_index % len_spec) + 1) % len_spec;
                assert(self@ =~= (AppView {
                    current_detail_index: next_spec,
                    edit_buffer: if next_spec != old(self)@.current_detail_index {
                        Seq::empty()
                    } else {
                        old(self)@.edit_buffer
                    },
                    ..old(self)@
                }));
            }
        }
    }

    /// The display name of the selected group: decrypted through the
    /// client's policy when one is configured, the stored name verbatim
    /// otherwise, and empty when nothing is selected.
    pub fn get_current_group_name(&self) -> (r: String)
        requires
            self@.wf(),
        ensures
            r@ == (match self@.selected {
                Option::Some(i) => match self@.client {
                    Option::Some(c) => display_of(c.key, self@.groups[i].name),
                    Option::None => self@.groups[i].name,
                },
                Option::None => Seq::<char>::empty(),
            }),
    {
        match self.selected {
            Some(i) => {
                if i < self.groups.len() {
                    match &self.api_client {
                        Some(client) => client.display_field(self.groups[i].name.as_str()),
                        None => self.groups[i].name.clone(),
                    }
                } else {
                    String::new()
                }
            },
            None => String::new(),
        }
    }
}

} // verus!
