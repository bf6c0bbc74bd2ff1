//! The voice intent parser: free text to one of a closed set of intents, by a
//! flat list of rules of which the first that matches wins.

use vstd::prelude::*;
use vstd::string::*;

use crate::action::{ActionModel, InputAction, KeyTarget, KeyTargetModel};
use crate::keys::KeyId;
use crate::text::{lower_of, starts_with, str_eq, to_lower, trim, trimmed_of};

verus! {

/// What a voice command asks for.
#[derive(Debug, PartialEq, Eq)]
pub enum Intent {
    OpenApp(String),
    TypeText(String),
    MediaToggle,
    MediaNext,
    MediaPrevious,
    VolumeUp,
    VolumeDown,
    VolumeMute,
    /// No rule matched; holds the normalized text.
    Unknown(String),
}

/// The mathematical form of an [`Intent`].
pub enum IntentModel {
    OpenApp(Seq<char>),
    TypeText(Seq<char>),
    MediaToggle,
    MediaNext,
    MediaPrevious,
    VolumeUp,
    VolumeDown,
    VolumeMute,
    Unknown(Seq<char>),
}

impl View for Intent {
    type V = IntentModel;

    open spec fn view(&self) -> IntentModel {
        match self {
            Intent::OpenApp(s) => IntentModel::OpenApp(s@),
            Intent::TypeText(s) => IntentModel::TypeText(s@),
            Intent::MediaToggle => IntentModel::MediaToggle,
            Intent::MediaNext => IntentModel::MediaNext,
            Intent::MediaPrevious => IntentModel::MediaPrevious,
            Intent::VolumeUp => IntentModel::VolumeUp,
            Intent::VolumeDown => IntentModel::VolumeDown,
            Intent::VolumeMute => IntentModel::VolumeMute,
            Intent::Unknown(s) => IntentModel::Unknown(s@),
        }
    }
}

/// Whether `s` begins with `prefix`.
pub open spec fn has_prefix(s: Seq<char>, prefix: Seq<char>) -> bool {
    prefix.len() <= s.len() && s.subrange(0, prefix.len() as int) == prefix
}

/// What follows `prefix` in `s`, trimmed.
pub open spec fn argument_after(s: Seq<char>, prefix: Seq<char>) -> Seq<char> {
    trimmed_of(s.subrange(prefix.len() as int, s.len() as int))
}

/// The intent of a command that is already trimmed and lowercased.
pub open spec fn intent_of(cmd: Seq<char>) -> IntentModel {
    if has_prefix(cmd, "open "@) {
        IntentModel::OpenApp(argument_after(cmd, "open "@))
    } else if has_prefix(cmd, "type "@) {
        IntentModel::TypeText(argument_after(cmd, "type "@))
    } else if cmd == "play"@ || cmd == "pause"@ {
        IntentModel::MediaToggle
    } else if cmd == "next"@ {
        IntentModel::MediaNext
    } else if cmd == "previous"@ || cmd == "prev"@ {
        IntentModel::MediaPrevious
    } else if cmd == "volume up"@ {
        IntentModel::VolumeUp
    } else if cmd == "volume down"@ {
        IntentModel::VolumeDown
    } else if cmd == "mute"@ {
        IntentModel::VolumeMute
    } else {
        IntentModel::Unknown(cmd)
    }
}

/// The normalized form of raw voice text: trimmed, then lowercased.
pub open spec fn normalized(text: Seq<char>) -> Seq<char> {
    lower_of(trimmed_of(text))
}

/// The trimmed remainder of `cmd` after `prefix`, which it begins with.
fn argument(cmd: &str, prefix: &str) -> (r: String)
    requires
        has_prefix(cmd@, prefix@),
    ensures
        r@ == argument_after(cmd@, prefix@),
{
    let rest = cmd.substring_char(prefix.unicode_len(), cmd.unicode_len());
    String::from_str(trim(rest))
}

/// Parses a command that is already trimmed and lowercased.
pub fn parse_command(cmd: &str) -> (r: Intent)
    ensures
        r@ == intent_of(cmd@),
{
    if starts_with(cmd, "open ") {
        Intent::OpenApp(argument(cmd, "open "))
    } else if starts_with(cmd, "type ") {
        Intent::TypeText(argument(cmd, "type "))
    } else if str_eq(cmd, "play") || str_eq(cmd, "pause") {
        Intent::MediaToggle
    } else if str_eq(cmd, "next") {
        Intent::MediaNext
    } else if str_eq(cmd, "previous") || str_eq(cmd, "prev") {
        Intent::MediaPrevious
    } else if str_eq(cmd, "volume up") {
        Intent::VolumeUp
    } else if str_eq(cmd, "volume down") {
        Intent::VolumeDown
    } else if str_eq(cmd, "mute") {
        Intent::VolumeMute
    } else {
        Intent::Unknown(String::from_str(cmd))
    }
}

/// Parses raw voice text: it is trimmed and lowercased, then matched.
pub fn parse_voice(text: &str) -> (r: Intent)
    ensures
        r@ == intent_of(normalized(text@)),
{
    let lowered = to_lower(trim(text));
    parse_command(lowered.as_str())
}

/// The key that an intent sends, for the intents that are one key press.
pub open spec fn intent_key(intent: IntentModel) -> Option<KeyId> {
    match intent {
        IntentModel::MediaToggle => Some(KeyId::Space),
        IntentModel::MediaNext => Some(KeyId::F9),
        IntentModel::MediaPrevious => Some(KeyId::F7),
        IntentModel::VolumeUp => Some(KeyId::VolumeUp),
        IntentModel::VolumeDown => Some(KeyId::VolumeDown),
        IntentModel::VolumeMute => Some(KeyId::VolumeMute),
        _ => None,
    }
}

/// The input action that carries out an intent: a single key press with no
/// modifiers, or typing the text; none for opening an app or unknown text.
pub open spec fn intent_action(intent: IntentModel) -> Option<ActionModel> {
    match intent {
        IntentModel::TypeText(t) => Some(
            ActionModel::KeyPress { key: KeyTargetModel::Literal(t), modifiers: Seq::empty() },
        ),
        _ => match intent_key(intent) {
            Some(k) => Some(ActionModel::KeyPress { key: KeyTargetModel::Key(k), modifiers: Seq::empty() }),
            None => None,
        },
    }
}

/// The message that reports a carried-out intent.
pub open spec fn intent_message(intent: IntentModel) -> Seq<char> {
    match intent {
        IntentModel::OpenApp(name) => "Opened "@ + name,
        IntentModel::TypeText(t) => "Typed: "@ + t,
        IntentModel::MediaToggle => "Toggled play/pause"@,
        IntentModel::MediaNext => "Next track"@,
        IntentModel::MediaPrevious => "Previous track"@,
        IntentModel::VolumeUp => "Volume up"@,
        IntentModel::VolumeDown => "Volume down"@,
        IntentModel::VolumeMute => "Muted"@,
        IntentModel::Unknown(c) => "Unknown voice command: "@ + c,
    }
}

impl Intent {
    /// The input action that carries out this intent, if it is one.
    pub fn action(&self) -> (r: Option<InputAction>)
        ensures
            r is Some <==> intent_action(self@) is Some,
            r matches Some(a) ==> intent_action(self@) == Some(a@),
    {
        let key = match self {
            Intent::TypeText(t) => {
                return Some(InputAction::KeyPress { key: KeyTarget::Literal(t.clone()), modifiers: Vec::new() });
            },
            Intent::MediaToggle => KeyId::Space,
            Intent::MediaNext => KeyId::F9,
            Intent::MediaPrevious => KeyId::F7,
            Intent::VolumeUp => KeyId::VolumeUp,
            Intent::VolumeDown => KeyId::VolumeDown,
            Intent::VolumeMute => KeyId::VolumeMute,
            _ => {
                return None;
            },
        };
        let r = InputAction::KeyPress { key: KeyTarget::Key(key), modifiers: Vec::new() };
        proof {
            assert(r@->KeyPress_modifiers =~= Seq::<KeyId>::empty());
        }
        Some(r)
    }

    /// The message that reports this intent carried out.
    pub fn message(&self) -> (r: String)
        ensures
            r@ == intent_message(self@),
    {
        match self {
            Intent::OpenApp(name) => String::from_str("Opened ").concat(name.as_str()),
            Intent::TypeText(t) => String::from_str("Typed: ").concat(t.as_str()),
            Intent::MediaToggle => String::from_str("Toggled play/pause"),
            Intent::MediaNext => String::from_str("Next track"),
            Intent::MediaPrevious => String::from_str("Previous track"),
            Intent::VolumeUp => String::from_str("Volume up"),
            Intent::VolumeDown => String::from_str("Volume down"),
            Intent::VolumeMute => String::from_str("Muted"),
            Intent::Unknown(c) => String::from_str("Unknown voice command: ").concat(c.as_str()),
        }
    }
}


/// Rule order decides: a command that begins with `open ` always opens the
/// rest, whatever else it might match; after it, `type ` always types the
/// rest.
pub proof fn lemma_prefix_rules_first(cmd: Seq<char>)
    ensures
        has_prefix(cmd, "open "@) ==> intent_of(cmd) == IntentModel::OpenApp(argument_after(cmd, "open "@)),
        !has_prefix(cmd, "open "@) && has_prefix(cmd, "type "@) ==> intent_of(cmd) == IntentModel::TypeText(
            argument_after(cmd, "type "@),
        ),
{
}

/// Voice text is matched without regard to case or surrounding whitespace:
/// texts with the same normalized form have the same intent.
pub proof fn lemma_voice_ignores_case(a: Seq<char>, b: Seq<char>)
    requires
        normalized(a) == normalized(b),
    ensures
        intent_of(normalized(a)) == intent_of(normalized(b)),
{
}

} // verus!
