//! The session: per-mode dispatch of CRUD, the group-creation flow, the
//! decrypted item view, and navigation.

use heilo::{ApiClient, App, Error, GroupCreationOutcome, Item, WizardInput};

fn remote_app(passphrase: Option<&str>) -> App {
    let client = ApiClient::new(
        "http://localhost:8080".to_string(),
        passphrase.map(|p| p.to_string()),
    );
    App::new(Some(client))
}

#[test]
fn test_dispatch_local_and_remote_agree() {
    // The same logical create_item, through the local path and through the
    // encrypting remote path, shows the caller identical decrypted fields.
    let mut local = App::new(None);
    local.current_group_id = Some("g".to_string());
    let plan = local
        .create_item("i1", "my title", "my describe", "my text", false)
        .unwrap();
    assert!(plan.is_none());
    let local_item = &local.detail_items[0];

    let mut remote = remote_app(Some("passphrase"));
    remote.current_group_id = Some("g".to_string());
    let plan = remote
        .create_item("i1", "my title", "my describe", "my text", true)
        .unwrap()
        .unwrap();
    // The wire fields are envelopes, not plaintext...
    assert_ne!(plan.title, "my title");
    // ...but display them through the same client and the shapes agree.
    let client = remote.api_client.as_ref().unwrap();
    assert_eq!(client.decrypt_item_field(&plan.title).unwrap(), local_item.title);
    assert_eq!(client.decrypt_item_field(&plan.describe).unwrap(), local_item.describe);
    assert_eq!(client.decrypt_item_field(&plan.text).unwrap(), local_item.text);
    assert_eq!(plan.group_id, local_item.group_id);
    assert_eq!(plan.item_id, local_item.id);
}

#[test]
fn test_create_item_without_key_is_missing_key() {
    // Requesting encryption on a client configured without a key refuses
    // with MissingKey and creates nothing.
    let mut app = remote_app(None);
    app.current_group_id = Some("g".to_string());
    let result = app.create_item("i1", "t", "d", "x", true);
    assert!(matches!(result, Err(Error::MissingKey)));
    assert!(app.detail_items.is_empty());
}

#[test]
fn test_create_item_without_group_is_not_found() {
    let mut app = App::new(None);
    let result = app.create_item("i1", "t", "d", "x", false);
    assert!(matches!(result, Err(Error::NotFound)));
}

#[test]
fn test_remote_group_creation_without_encryption_stores_plaintext() {
    // A remote group created with encryption off carries its name verbatim.
    let mut app = remote_app(Some("passphrase"));
    app.begin_group_creation();
    app.group_creation_event(WizardInput::ChooseRemote, "gid", "my group", false);
    app.group_creation_event(WizardInput::Advance, "gid", "my group", false);
    for c in "example.org".chars() {
        app.group_creation_event(WizardInput::Input(c), "gid", "my group", false);
    }
    app.group_creation_event(WizardInput::Advance, "gid", "my group", false);
    for c in "8080".chars() {
        app.group_creation_event(WizardInput::Input(c), "gid", "my group", false);
    }
    app.group_creation_event(WizardInput::Advance, "gid", "my group", false);
    for c in "hunter2".chars() {
        app.group_creation_event(WizardInput::Input(c), "gid", "my group", false);
    }
    let outcome = app.group_creation_event(WizardInput::Advance, "gid", "my group", false);
    match outcome {
        GroupCreationOutcome::CreatedRemote { host, port, wire_name } => {
            assert_eq!(host, "example.org");
            assert_eq!(port, 8080);
            assert_eq!(wire_name, "my group");
        }
        other => panic!("expected CreatedRemote, got {:?}", other),
    }
    let group = &app.groups[0];
    assert_eq!(group.id, "gid");
    assert_eq!(group.name, "my group");
    assert!(!group.is_local);
    assert_eq!(group.api_host.as_deref(), Some("example.org"));
    assert_eq!(group.api_port.as_deref(), Some("8080"));
    assert_eq!(group.api_secret_key.as_deref(), Some("hunter2"));
    assert!(!app.in_group_creation);
}

#[test]
fn test_remote_group_creation_with_encryption_round_trips() {
    let mut app = remote_app(Some("unused-global-key"));
    app.begin_group_creation();
    app.group_creation_event(WizardInput::ChooseRemote, "gid", "my group", true);
    app.group_creation_event(WizardInput::Advance, "gid", "my group", true);
    for c in "h".chars() {
        app.group_creation_event(WizardInput::Input(c), "gid", "my group", true);
    }
    app.group_creation_event(WizardInput::Advance, "gid", "my group", true);
    for c in "80".chars() {
        app.group_creation_event(WizardInput::Input(c), "gid", "my group", true);
    }
    app.group_creation_event(WizardInput::Advance, "gid", "my group", true);
    for c in "group-pass".chars() {
        app.group_creation_event(WizardInput::Input(c), "gid", "my group", true);
    }
    let outcome = app.group_creation_event(WizardInput::Advance, "gid", "my group", true);
    let wire_name = match outcome {
        GroupCreationOutcome::CreatedRemote { wire_name, .. } => wire_name,
        other => panic!("expected CreatedRemote, got {:?}", other),
    };
    assert_ne!(wire_name, "my group");
    // The stored name decrypts under the key derived from the group's own
    // passphrase.
    let group_client = ApiClient::new("http://h:80".to_string(), Some("group-pass".to_string()));
    assert_eq!(group_client.decrypt_group_name(&wire_name).unwrap(), "my group");
}

#[test]
fn test_wizard_cancellation_adds_no_group() {
    // Cancelled mid-way through the port step: no group appears, and the
    // buffers are clear on the next entry.
    let mut app = App::new(None);
    app.begin_group_creation();
    app.group_creation_event(WizardInput::ChooseRemote, "gid", "name", false);
    app.group_creation_event(WizardInput::Advance, "gid", "name", false);
    for c in "host".chars() {
        app.group_creation_event(WizardInput::Input(c), "gid", "name", false);
    }
    app.group_creation_event(WizardInput::Advance, "gid", "name", false);
    for c in "80".chars() {
        app.group_creation_event(WizardInput::Input(c), "gid", "name", false);
    }
    let outcome = app.group_creation_event(WizardInput::Cancel, "gid", "name", false);
    assert!(matches!(outcome, GroupCreationOutcome::Cancelled));
    assert!(app.groups.is_empty());
    assert!(!app.in_group_creation);
    app.begin_group_creation();
    assert!(app.wizard.host_buffer().is_empty());
    assert!(app.wizard.port_buffer().is_empty());
    assert!(app.wizard.secret_key_buffer().is_empty());
}

#[test]
fn test_local_group_creation_selects_new_group() {
    let mut app = App::new(None);
    app.begin_group_creation();
    let outcome = app.group_creation_event(WizardInput::Advance, "gid", "my group", false);
    assert!(matches!(outcome, GroupCreationOutcome::CreatedLocal));
    assert_eq!(app.groups.len(), 1);
    assert_eq!(app.groups[0].name, "my group");
    assert!(app.groups[0].is_local);
    assert_eq!(app.selected, Some(0));
}

#[test]
fn test_set_items_decrypts_for_display() {
    let mut app = remote_app(Some("passphrase"));
    app.current_group_id = Some("g".to_string());
    let client = app.api_client.as_ref().unwrap();
    let wire_title = client.encrypt_field("secret title", true).unwrap();
    let items = vec![
        Item {
            id: "i1".to_string(),
            title: wire_title,
            describe: client.encrypt_field("secret describe", true).unwrap(),
            text: client.encrypt_field("secret text", true).unwrap(),
        },
        Item {
            id: "i2".to_string(),
            title: "garbage-that-is-not-an-envelope".to_string(),
            describe: client.encrypt_field("d", true).unwrap(),
            text: client.encrypt_field("t", true).unwrap(),
        },
    ];
    app.set_items(items);
    assert_eq!(app.detail_items.len(), 2);
    assert_eq!(app.detail_items[0].title, "secret title");
    assert_eq!(app.detail_items[0].describe, "secret describe");
    assert_eq!(app.detail_items[0].text, "secret text");
    assert_eq!(app.detail_items[0].group_id, "g");
    // An undecryptable field becomes the placeholder, not an abort.
    assert_eq!(app.detail_items[1].title, "decryption failed");
    assert_eq!(app.detail_items[1].describe, "d");
    assert_eq!(app.detail_selected, Some(0));
}

#[test]
fn test_navigation_wraps() {
    let mut app = App::new(None);
    app.current_group_id = Some("g".to_string());
    app.begin_group_creation();
    app.group_creation_event(WizardInput::Advance, "g1", "one", false);
    app.begin_group_creation();
    app.group_creation_event(WizardInput::Advance, "g2", "two", false);
    app.begin_group_creation();
    app.group_creation_event(WizardInput::Advance, "g3", "three", false);
    assert_eq!(app.selected, Some(2));
    app.next();
    assert_eq!(app.selected, Some(0));
    app.previous();
    assert_eq!(app.selected, Some(2));
    app.previous();
    assert_eq!(app.selected, Some(1));
}

#[test]
fn test_navigation_on_empty_lists_keeps_selection() {
    let mut app = App::new(None);
    app.next();
    assert_eq!(app.selected, None);
    app.previous();
    assert_eq!(app.selected, None);
    app.next_detail();
    assert_eq!(app.detail_selected, None);
    assert!(!app.enter());
    assert_eq!(app.current_group_id, None);
    assert!(!app.in_detail_view);
}

#[test]
fn test_save_item_edit_local() {
    let mut app = App::new(None);
    app.current_group_id = Some("g".to_string());
    app.create_item("i1", "old title", "old describe", "old text", false).unwrap();
    app.in_detail_view = true;
    app.enter();
    assert!(app.in_detail_page);
    assert_eq!(app.current_detail_index, 0);
    app.begin_edit();
    assert!(app.in_edit_mode);
    assert_eq!(app.edit_buffer, "old title");
    app.edit_backspace();
    for c in "!".chars() {
        app.edit_char(c);
    }
    let plan = app.save_item_edit(false).unwrap();
    assert!(plan.is_none());
    assert_eq!(app.detail_items[0].title, "old titl!");
    assert_eq!(app.detail_items[0].describe, "old describe");
    app.end_edit();
    assert!(!app.in_edit_mode);
    assert!(app.edit_buffer.is_empty());
}

#[test]
fn test_delete_item_local_adjusts_selection() {
    let mut app = App::new(None);
    app.current_group_id = Some("g".to_string());
    app.create_item("i1", "a", "b", "c", false).unwrap();
    app.create_item("i2", "d", "e", "f", false).unwrap();
    assert_eq!(app.detail_selected, Some(1));
    let plan = app.delete_item();
    assert!(plan.is_none());
    assert_eq!(app.detail_items.len(), 1);
    assert_eq!(app.detail_selected, Some(0));
    assert_eq!(app.detail_items[0].id, "i1");
    app.delete_item();
    assert!(app.detail_items.is_empty());
    assert_eq!(app.detail_selected, None);
}

#[test]
fn test_delete_group_remote_returns_plan() {
    let mut app = remote_app(Some("p"));
    app.begin_group_creation();
    app.group_creation_event(WizardInput::Advance, "gid", "name", false);
    let plan = app.delete_group();
    assert_eq!(plan.as_deref(), Some("gid"));
    // The list itself is only touched by the reload that follows.
    assert_eq!(app.groups.len(), 1);
}

#[test]
fn test_delete_group_local_leaves_views() {
    let mut app = App::new(None);
    app.begin_group_creation();
    app.group_creation_event(WizardInput::Advance, "gid", "name", false);
    app.current_group_id = Some("gid".to_string());
    app.in_detail_view = true;
    let plan = app.delete_group();
    assert!(plan.is_none());
    assert!(app.groups.is_empty());
    assert_eq!(app.selected, None);
    assert!(!app.in_detail_view);
    assert_eq!(app.current_group_id, None);
}

#[test]
fn test_get_current_group_name_modes() {
    let mut app = App::new(None);
    assert_eq!(app.get_current_group_name(), "");
    app.begin_group_creation();
    app.group_creation_event(WizardInput::Advance, "gid", "plain name", false);
    assert_eq!(app.get_current_group_name(), "plain name");
}

#[test]
fn test_back_steps_out_and_quits_at_top() {
    let mut app = App::new(None);
    app.in_detail_view = true;
    app.in_detail_page = true;
    assert!(!app.back());
    assert!(app.in_detail_view);
    assert!(!app.in_detail_page);
    assert!(!app.back());
    assert!(!app.in_detail_view);
    assert!(app.back());
}
