//! Plain state types for the interactive session around the stores.

use vstd::prelude::*;

verus! {

/// One record as the session shows it: every field already decrypted (or
/// plaintext), together with the ids the stores need to write it back.
#[derive(Debug)]
pub struct DetailItem {
    pub title: String,
    pub describe: String,
    pub text: String,
    /// Item id, for store updates.
    pub id: String,
    /// Owning group's id; never changes for the item's lifetime.
    pub group_id: String,
}

/// The mathematical value of a `DetailItem`.
#[verifier::ext_equal]
pub ghost struct DetailItemView {
    pub title: Seq<char>,
    pub describe: Seq<char>,
    pub text: Seq<char>,
    pub id: Seq<char>,
    pub group_id: Seq<char>,
}

impl View for DetailItem {
    type V = DetailItemView;

    open spec fn view(&self) -> DetailItemView {
        DetailItemView {
            title: self.title@,
            describe: self.describe@,
            text: self.text@,
            id: self.id@,
            group_id: self.group_id@,
        }
    }
}

/// Which of a record's three text fields is selected on the detail page.
#[derive(Clone, Copy, PartialEq, Eq, Structural, Debug)]
pub enum DetailSelection {
    Title,
    Describe,
    Text,
}

/// A keyboard input, already mapped away from any concrete key encoding.
#[derive(Clone, Copy, PartialEq, Eq, Structural, Debug)]
pub enum InputEvent {
    Quit,
    Help,
    TogglePinned,
    AddItem,
    DeleteItem,
    Refresh,
    Enter,
    Escape,
    Up,
    Down,
    Left,
    Right,
    EditMode,
    SaveSelection,
    CharacterInput(char),
    Backspace,
    OtherKey,
}

/// Which view of the session is active.
#[derive(Clone, Copy, PartialEq, Eq, Structural, Debug)]
pub enum AppState {
    MainView,
    DetailView,
    DetailPage,
    EditMode,
    SaveMode,
}

/// The states of the group-creation wizard: choosing a mode, then, on the
/// remote path, entering host, port and passphrase in turn.
#[derive(Clone, Copy, PartialEq, Eq, Structural, Debug)]
pub enum GroupCreationMode {
    Local,
    Remote,
    InputHost,
    InputPort,
    InputSecretKey,
}

} // verus!
