//! The group-creation wizard: an explicit finite-state machine over the
//! states in `GroupCreationMode`, with one transition function.
//!
//! The wizard guarantees that a remote group can only ever be announced with
//! a non-empty host, a port that parses as a positive integer, and a
//! non-empty key passphrase, and that cancellation discards everything that
//! was entered.

use crate::types::GroupCreationMode;
use vstd::prelude::*;
use vstd::string::StringSliceAdditionalSpecFns;
use vstd::utf8::encode_utf8;

verus! {

/// Whether a byte is an ASCII decimal digit.
pub open spec fn is_digit(b: u8) -> bool {
    48 <= b <= 57
}

/// The value of a sequence of decimal digit bytes, most significant first.
pub open spec fn digits_value(s: Seq<u8>) -> int
    decreases s.len(),
{
    if s.len() == 0 {
        0
    } else {
        digits_value(s.drop_last()) * 10 + (s.last() - 48)
    }
}

/// What `parse_port` accepts: a non-empty, all-digit text whose value is
/// between 1 and 65535, and the value it denotes.
pub open spec fn spec_parse_port(bytes: Seq<u8>) -> Option<u16> {
    if bytes.len() > 0 && (forall|i: int| 0 <= i < bytes.len() ==> is_digit(bytes[i])) && 1
        <= digits_value(bytes) <= 65535 {
        Some(digits_value(bytes) as u16)
    } else {
        None
    }
}

/// The value of a digit string never goes down as it is extended.
proof fn lemma_digits_value_extend(s: Seq<u8>, k: int)
    requires
        0 <= k <= s.len(),
        forall|i: int| 0 <= i < s.len() ==> is_digit(s[i]),
    ensures
        digits_value(s.take(k)) >= 0,
        digits_value(s) >= digits_value(s.take(k)),
    decreases s.len() - k,
{
    if k == s.len() {
        lemma_digits_value_nonneg(s);
        assert(s.take(k) =~= s);
    } else {
        let next = s.take(k + 1);
        assert(next.drop_last() =~= s.take(k));
        assert(next.last() == s[k]);
        lemma_digits_value_nonneg(s.take(k));
        assert(digits_value(next) == digits_value(s.take(k)) * 10 + (s[k] - 48));
        assert(digits_value(s.take(k)) * 10 >= digits_value(s.take(k))) by (nonlinear_arith)
            requires
                digits_value(s.take(k)) >= 0,
        ;
        lemma_digits_value_extend(s, k + 1);
    }
}

/// The value of a digit string is never negative.
proof fn lemma_digits_value_nonneg(s: Seq<u8>)
    requires
        forall|i: int| 0 <= i < s.len() ==> is_digit(s[i]),
    ensures
        digits_value(s) >= 0,
    decreases s.len(),
{
    if s.len() > 0 {
        assert(is_digit(s[s.len() - 1]));
        lemma_digits_value_nonneg(s.drop_last());
        assert(digits_value(s.drop_last()) * 10 >= 0) by (nonlinear_arith)
            requires
                digits_value(s.drop_last()) >= 0,
        ;
    }
}

/// Parses a port: accepts exactly the non-empty all-digit texts whose value
/// lies between 1 and 65535, and returns that value.
pub fn parse_port(text: &str) -> (r: Option<u16>)
    ensures
        r == spec_parse_port(text.spec_bytes()),
{
    let bytes: &[u8] = text.as_bytes();
    let n = bytes.len();
    if n == 0 {
        return None;
    }
    let mut value: u32 = 0;
    for i in 0..n
        invariant
            n == bytes@.len(),
            bytes@ == text.spec_bytes(),
            forall|k: int| 0 <= k < i ==> is_digit(bytes@[k]),
            value == digits_value(bytes@.take(i as int)),
            value <= 65535,
    {
        let b = bytes[i];
        if b < 48 || b > 57 {
            return None;
        }
        proof {
            assert(bytes@.take(i + 1).drop_last() =~= bytes@.take(i as int));
            assert(bytes@.take(i + 1).last() == bytes@[i as int]);
        }
        value = value * 10 + (b - 48) as u32;
        if value > 65535 {
            proof {
                if forall|k: int| 0 <= k < n ==> is_digit(bytes@[k]) {
                    lemma_digits_value_extend(bytes@, i + 1);
                }
            }
            return None;
        }
    }
    proof {
        assert(bytes@.take(n as int) =~= bytes@);
    }
    if value == 0 {
        return None;
    }
    Some(value as u16)
}

/// One input to the wizard, already mapped away from concrete keys.
#[derive(Clone, Copy, PartialEq, Eq, Structural, Debug)]
pub enum WizardInput {
    /// Confirm the current step.
    Advance,
    /// While a mode is being chosen, switch the choice to local.
    ChooseLocal,
    /// While a mode is being chosen, switch the choice to remote.
    ChooseRemote,
    /// Append one character to the buffer of the current input step.
    Input(char),
    /// Remove the last character of the current input step's buffer.
    Backspace,
    /// Abandon the wizard.
    Cancel,
}

/// What one wizard step asks of its surroundings.
#[derive(Debug)]
pub enum WizardEffect {
    /// Stay in the wizard; nothing to do yet.
    Pending,
    /// The wizard was cancelled; no group comes into being.
    Cancelled,
    /// Create a group backed by the local store.
    CreateLocal,
    /// Create a group backed by a remote endpoint, with a validated host,
    /// the port both parsed and as entered, and the key passphrase as the
    /// user entered it.
    CreateRemote { host: String, port: u16, port_text: String, secret_key: String },
}

/// The mathematical value of the wizard: its state and the three buffers.
#[verifier::ext_equal]
pub ghost struct WizardView {
    pub mode: GroupCreationMode,
    pub host: Seq<char>,
    pub port: Seq<char>,
    pub secret_key: Seq<char>,
}

impl WizardView {
    /// The state the wizard starts in and returns to whenever it ends:
    /// choosing the local mode, with every buffer empty.
    pub open spec fn initial() -> WizardView {
        WizardView {
            mode: GroupCreationMode::Local,
            host: Seq::empty(),
            port: Seq::empty(),
            secret_key: Seq::empty(),
        }
    }

    /// Whether the wizard is still choosing between local and remote.
    pub open spec fn choosing(self) -> bool {
        self.mode == GroupCreationMode::Local || self.mode == GroupCreationMode::Remote
    }

    /// The state after typing `c`: the current input step's buffer grows by
    /// one character; outside the input steps typing is ignored.
    pub open spec fn with_input(self, c: char) -> WizardView {
        match self.mode {
            GroupCreationMode::InputHost => WizardView { host: self.host.push(c), ..self },
            GroupCreationMode::InputPort => WizardView { port: self.port.push(c), ..self },
            GroupCreationMode::InputSecretKey => WizardView {
                secret_key: self.secret_key.push(c),
                ..self
            },
            _ => self,
        }
    }

    /// The state after a backspace: the current input step's buffer loses
    /// its last character, if it has one.
    pub open spec fn with_backspace(self) -> WizardView {
        match self.mode {
            GroupCreationMode::InputHost => if self.host.len() > 0 {
                WizardView { host: self.host.drop_last(), ..self }
            } else {
                self
            },
            GroupCreationMode::InputPort => if self.port.len() > 0 {
                WizardView { port: self.port.drop_last(), ..self }
            } else {
                self
            },
            GroupCreationMode::InputSecretKey => if self.secret_key.len() > 0 {
                WizardView { secret_key: self.secret_key.drop_last(), ..self }
            } else {
                self
            },
            _ => self,
        }
    }

    /// Everything a remote group needs is present and well-formed: a
    /// non-empty host, a port that parses, a non-empty passphrase.
    pub open spec fn remote_ready(self) -> bool {
        &&& self.host.len() > 0
        &&& spec_parse_port(encode_utf8(self.port)) is Some
        &&& self.secret_key.len() > 0
    }

    /// The wizard state after one input: the single transition function of
    /// the state machine.
    pub open spec fn step_state(self, input: WizardInput) -> WizardView {
        match input {
            WizardInput::Cancel => WizardView::initial(),
            WizardInput::ChooseLocal => if self.choosing() {
                WizardView { mode: GroupCreationMode::Local, ..self }
            } else {
                self
            },
            WizardInput::ChooseRemote => if self.choosing() {
                WizardView { mode: GroupCreationMode::Remote, ..self }
            } else {
                self
            },
            WizardInput::Input(c) => self.with_input(c),
            WizardInput::Backspace => self.with_backspace(),
            WizardInput::Advance => match self.mode {
                GroupCreationMode::Local => WizardView::initial(),
                GroupCreationMode::Remote => WizardView {
                    mode: GroupCreationMode::InputHost,
                    ..self
                },
                GroupCreationMode::InputHost => if self.host.len() > 0 {
                    WizardView { mode: GroupCreationMode::InputPort, ..self }
                } else {
                    self
                },
                GroupCreationMode::InputPort => if spec_parse_port(encode_utf8(self.port)) is Some {
                    WizardView { mode: GroupCreationMode::InputSecretKey, ..self }
                } else {
                    self
                },
                GroupCreationMode::InputSecretKey => if self.remote_ready() {
                    WizardView::initial()
                } else {
                    self
                },
            },
        }
    }
}

/// The group-creation wizard.
pub struct GroupCreationWizard {
    mode: GroupCreationMode,
    host: String,
    port: String,
    secret_key: String,
}

impl View for GroupCreationWizard {
    type V = WizardView;

    closed spec fn view(&self) -> WizardView {
        WizardView { mode: self.mode, host: self.host@, port: self.port@, secret_key: self.secret_key@ }
    }
}

impl GroupCreationWizard {
    /// A wizard in its initial state.
    pub fn new() -> (wizard: GroupCreationWizard)
        ensures
            wizard@ == WizardView::initial(),
    {
        GroupCreationWizard {
            mode: GroupCreationMode::Local,
            host: String::new(),
            port: String::new(),
            secret_key: String::new(),
        }
    }

    /// Returns the wizard to its initial state, discarding every partially
    /// entered field; entering the wizard anew therefore always starts with
    /// clear buffers.
    pub fn reset(&mut self)
        ensures
            final(self)@ == WizardView::initial(),
    {
        self.mode = GroupCreationMode::Local;
        self.host = String::new();
        self.port = String::new();
        self.secret_key = String::new();
    }

    /// The wizard's current state.
    pub fn mode(&self) -> (r: GroupCreationMode)
        ensures
            r == self@.mode,
    {
        self.mode
    }

    /// The host buffer as entered so far.
    pub fn host_buffer(&self) -> (r: &String)
        ensures
            r@ == self@.host,
    {
        &self.host
    }

    /// The port buffer as entered so far.
    pub fn port_buffer(&self) -> (r: &String)
        ensures
            r@ == self@.port,
    {
        &self.port
    }

    /// The passphrase buffer as entered so far.
    pub fn secret_key_buffer(&self) -> (r: &String)
        ensures
            r@ == self@.secret_key,
    {
        &self.secret_key
    }

    /// The single transition function of the wizard.
    ///
    /// Cancellation, from any state, discards all partially entered fields.
    /// Confirming the local choice creates a local group. On the remote
    /// path each confirmation moves one step on, except that an empty host,
    /// an unparsable port or an empty passphrase refuse to advance; a remote
    /// group is therefore only ever announced with all three present and
    /// well-formed. After any creation the wizard is back in its initial
    /// state.
    pub fn step(&mut self, input: WizardInput) -> (effect: WizardEffect)
        ensures
            final(self)@ == old(self)@.step_state(input),
            ({
                let s = old(self)@;
                match input {
                    WizardInput::Cancel => effect is Cancelled,
                    WizardInput::ChooseLocal => effect is Pending,
                    WizardInput::ChooseRemote => effect is Pending,
                    WizardInput::Input(c) => effect is Pending,
                    WizardInput::Backspace => effect is Pending,
                    WizardInput::Advance => match s.mode {
                        GroupCreationMode::Local => effect is CreateLocal,
                        GroupCreationMode::Remote => effect is Pending,
                        GroupCreationMode::InputHost => effect is Pending,
                        GroupCreationMode::InputPort => effect is Pending,
                        GroupCreationMode::InputSecretKey => if s.remote_ready() {
                            &&& effect matches WizardEffect::CreateRemote {
                                host,
                                port,
                                port_text,
                                secret_key,
                            }
                            &&& host@ == s.host
                            &&& port_text@ == s.port
                            &&& secret_key@ == s.secret_key
                            &&& Some(port) == spec_parse_port(encode_utf8(s.port))
                        } else {
                            effect is Pending
                        },
                    },
                }
            }),
    {
        match input {
            WizardInput::Cancel => {
                self.reset();
                WizardEffect::Cancelled
            },
            WizardInput::ChooseLocal => {
                match self.mode {
                    GroupCreationMode::Local | GroupCreationMode::Remote => {
                        self.mode = GroupCreationMode::Local;
                    },
                    _ => {},
                }
                WizardEffect::Pending
            },
            WizardInput::ChooseRemote => {
                match self.mode {
                    GroupCreationMode::Local | GroupCreationMode::Remote => {
                        self.mode = GroupCreationMode::Remote;
                    },
                    _ => {},
                }
                WizardEffect::Pending
            },
            WizardInput::Input(c) => {
                match self.mode {
                    GroupCreationMode::InputHost => push_char(&mut self.host, c),
                    GroupCreationMode::InputPort => push_char(&mut self.port, c),
                    GroupCreationMode::InputSecretKey => push_char(&mut self.secret_key, c),
                    _ => {},
                }
                WizardEffect::Pending
            },
            WizardInput::Backspace => {
                match self.mode {
                    GroupCreationMode::InputHost => {
                        pop_char(&mut self.host);
                    },
                    GroupCreationMode::InputPort => {
                        pop_char(&mut self.port);
                    },
                    GroupCreationMode::InputSecretKey => {
                        pop_char(&mut self.secret_key);
                    },
                    _ => {},
                }
                WizardEffect::Pending
            },
            WizardInput::Advance => match self.mode {
                GroupCreationMode::Local => {
                    self.reset();
                    WizardEffect::CreateLocal
                },
                GroupCreationMode::Remote => {
                    self.mode = GroupCreationMode::InputHost;
                    WizardEffect::Pending
                },
                GroupCreationMode::InputHost => {
                    if !self.host.as_str().is_empty() {
                        self.mode = GroupCreationMode::InputPort;
                    }
                    WizardEffect::Pending
                },
                GroupCreationMode::InputPort => {
                    if parse_port(self.port.as_str()).is_some() {
                        self.mode = GroupCreationMode::InputSecretKey;
                    }
                    WizardEffect::Pending
                },
                GroupCreationMode::InputSecretKey => {
                    let port = parse_port(self.port.as_str());
                    if !self.host.as_str().is_empty() && port.is_some()
                        && !self.secret_key.as_str().is_empty() {
                        let effect = WizardEffect::CreateRemote {
                            host: self.host.clone(),
                            port: port.unwrap(),
                            port_text: self.port.clone(),
                            secret_key: self.secret_key.clone(),
                        };
                        self.reset();
                        effect
                    } else {
                        WizardEffect::Pending
                    }
                },
            },
        }
    }
}

/// Relies on String::push: it appends exactly one character.
#[verifier::external_body]
pub(crate) fn push_char(s: &mut String, c: char)
    ensures
        final(s)@ == old(s)@.push(c),
{
    s.push(c);
}

/// Relies on String::pop: it removes and returns the last character, or
/// leaves an empty string untouched.
#[verifier::external_body]
pub(crate) fn pop_char(s: &mut String) -> (r: Option<char>)
    ensures
        old(s)@.len() == 0 ==> r is None && final(s)@ == old(s)@,
        old(s)@.len() > 0 ==> r == Some(old(s)@.last()) && final(s)@ == old(s)@.drop_last(),
{
    s.pop()
}

} // verus!
