//! The group-creation wizard's state machine and its port validation.

use heilo::{parse_port, GroupCreationMode, GroupCreationWizard, WizardEffect, WizardInput};

#[test]
fn test_parse_port_accepts_valid_ports() {
    assert_eq!(parse_port("1"), Some(1));
    assert_eq!(parse_port("8080"), Some(8080));
    assert_eq!(parse_port("65535"), Some(65535));
    assert_eq!(parse_port("0080"), Some(80));
}

#[test]
fn test_parse_port_rejects_bad_input() {
    assert_eq!(parse_port(""), None);
    assert_eq!(parse_port("0"), None);
    assert_eq!(parse_port("65536"), None);
    assert_eq!(parse_port("999999999"), None);
    assert_eq!(parse_port("80a"), None);
    assert_eq!(parse_port("-1"), None);
    assert_eq!(parse_port(" 80"), None);
}

fn type_text(wizard: &mut GroupCreationWizard, text: &str) {
    for c in text.chars() {
        let effect = wizard.step(WizardInput::Input(c));
        assert!(matches!(effect, WizardEffect::Pending));
    }
}

#[test]
fn test_wizard_local_path() {
    let mut wizard = GroupCreationWizard::new();
    assert!(matches!(wizard.mode(), GroupCreationMode::Local));
    let effect = wizard.step(WizardInput::Advance);
    assert!(matches!(effect, WizardEffect::CreateLocal));
    assert!(matches!(wizard.mode(), GroupCreationMode::Local));
    assert!(wizard.host_buffer().is_empty());
}

#[test]
fn test_wizard_remote_path_collects_validated_fields() {
    let mut wizard = GroupCreationWizard::new();
    wizard.step(WizardInput::ChooseRemote);
    assert!(matches!(wizard.mode(), GroupCreationMode::Remote));
    wizard.step(WizardInput::Advance);
    assert!(matches!(wizard.mode(), GroupCreationMode::InputHost));
    type_text(&mut wizard, "example.org");
    wizard.step(WizardInput::Advance);
    assert!(matches!(wizard.mode(), GroupCreationMode::InputPort));
    type_text(&mut wizard, "8080");
    wizard.step(WizardInput::Advance);
    assert!(matches!(wizard.mode(), GroupCreationMode::InputSecretKey));
    type_text(&mut wizard, "hunter2");
    let effect = wizard.step(WizardInput::Advance);
    match effect {
        WizardEffect::CreateRemote { host, port, port_text, secret_key } => {
            assert_eq!(host, "example.org");
            assert_eq!(port, 8080);
            assert_eq!(port_text, "8080");
            assert_eq!(secret_key, "hunter2");
        }
        other => panic!("expected CreateRemote, got {:?}", other),
    }
    // The wizard is back in its initial state after a creation.
    assert!(matches!(wizard.mode(), GroupCreationMode::Local));
    assert!(wizard.host_buffer().is_empty());
    assert!(wizard.port_buffer().is_empty());
    assert!(wizard.secret_key_buffer().is_empty());
}

#[test]
fn test_wizard_refuses_to_advance_past_bad_fields() {
    let mut wizard = GroupCreationWizard::new();
    wizard.step(WizardInput::ChooseRemote);
    wizard.step(WizardInput::Advance);
    // Empty host: stuck.
    assert!(matches!(wizard.step(WizardInput::Advance), WizardEffect::Pending));
    assert!(matches!(wizard.mode(), GroupCreationMode::InputHost));
    type_text(&mut wizard, "h");
    wizard.step(WizardInput::Advance);
    // Unparsable port: stuck.
    type_text(&mut wizard, "99999");
    assert!(matches!(wizard.step(WizardInput::Advance), WizardEffect::Pending));
    assert!(matches!(wizard.mode(), GroupCreationMode::InputPort));
    // Backspace down to a valid port.
    wizard.step(WizardInput::Backspace);
    assert_eq!(wizard.port_buffer().as_str(), "9999");
    wizard.step(WizardInput::Advance);
    assert!(matches!(wizard.mode(), GroupCreationMode::InputSecretKey));
    // Empty passphrase: stuck.
    assert!(matches!(wizard.step(WizardInput::Advance), WizardEffect::Pending));
    assert!(matches!(wizard.mode(), GroupCreationMode::InputSecretKey));
}

#[test]
fn test_wizard_cancel_discards_everything() {
    let mut wizard = GroupCreationWizard::new();
    wizard.step(WizardInput::ChooseRemote);
    wizard.step(WizardInput::Advance);
    type_text(&mut wizard, "host");
    wizard.step(WizardInput::Advance);
    type_text(&mut wizard, "80");
    let effect = wizard.step(WizardInput::Cancel);
    assert!(matches!(effect, WizardEffect::Cancelled));
    assert!(matches!(wizard.mode(), GroupCreationMode::Local));
    assert!(wizard.host_buffer().is_empty());
    assert!(wizard.port_buffer().is_empty());
    assert!(wizard.secret_key_buffer().is_empty());
}
