use astra_remote::action::{InputAction, KeyTarget};
use astra_remote::keys::KeyId;
use astra_remote::voice::{parse_command, parse_voice, Intent};

#[test]
fn voice_open_spotify() {
    assert_eq!(parse_voice("open spotify"), Intent::OpenApp("spotify".to_string()));
}

#[test]
fn voice_open_prefix_wins_over_exact_rules() {
    assert_eq!(parse_voice("open mute"), Intent::OpenApp("mute".to_string()));
    assert_eq!(parse_voice("open type  x"), Intent::OpenApp("type  x".to_string()));
    assert_eq!(parse_voice("type open notes"), Intent::TypeText("open notes".to_string()));
}

#[test]
fn voice_pause_uppercase() {
    assert_eq!(parse_voice("PAUSE"), Intent::MediaToggle);
}

#[test]
fn voice_trims_and_lowercases() {
    assert_eq!(parse_voice("  Play \n"), Intent::MediaToggle);
    assert_eq!(parse_voice("  Type   Hello World  "), Intent::TypeText("hello world".to_string()));
}

#[test]
fn voice_exact_rules() {
    assert_eq!(parse_voice("next"), Intent::MediaNext);
    assert_eq!(parse_voice("previous"), Intent::MediaPrevious);
    assert_eq!(parse_voice("prev"), Intent::MediaPrevious);
    assert_eq!(parse_voice("Volume Up"), Intent::VolumeUp);
    assert_eq!(parse_voice("volume down"), Intent::VolumeDown);
    assert_eq!(parse_voice("mute"), Intent::VolumeMute);
}

#[test]
fn voice_unknown_keeps_normalized_text() {
    assert_eq!(parse_voice("  Dance Now "), Intent::Unknown("dance now".to_string()));
    assert_eq!(parse_voice("open"), Intent::Unknown("open".to_string()));
    assert_eq!(parse_voice(""), Intent::Unknown("".to_string()));
}

#[test]
fn parse_command_takes_normalized_text() {
    assert_eq!(parse_command("pause"), Intent::MediaToggle);
    assert_eq!(parse_command("PAUSE"), Intent::Unknown("PAUSE".to_string()));
}

#[test]
fn intent_actions_and_messages() {
    let key = |k| Some(InputAction::KeyPress { key: KeyTarget::Key(k), modifiers: vec![] });
    assert_eq!(Intent::MediaToggle.action(), key(KeyId::Space));
    assert_eq!(Intent::MediaNext.action(), key(KeyId::F9));
    assert_eq!(Intent::MediaPrevious.action(), key(KeyId::F7));
    assert_eq!(Intent::VolumeUp.action(), key(KeyId::VolumeUp));
    assert_eq!(Intent::VolumeDown.action(), key(KeyId::VolumeDown));
    assert_eq!(Intent::VolumeMute.action(), key(KeyId::VolumeMute));
    assert_eq!(
        Intent::TypeText("hi there".to_string()).action(),
        Some(InputAction::KeyPress { key: KeyTarget::Literal("hi there".to_string()), modifiers: vec![] })
    );
    assert_eq!(Intent::OpenApp("x".to_string()).action(), None);
    assert_eq!(Intent::Unknown("x".to_string()).action(), None);
    assert_eq!(Intent::TypeText("hi".to_string()).message(), "Typed: hi");
    assert_eq!(Intent::MediaToggle.message(), "Toggled play/pause");
    assert_eq!(Intent::VolumeMute.message(), "Muted");
    assert_eq!(Intent::OpenApp("gimp".to_string()).message(), "Opened gimp");
    assert_eq!(Intent::Unknown("dance".to_string()).message(), "Unknown voice command: dance");
}
