use crabroll::controller::{Command, ErrorSeverity};
use crabroll::input::{
    classify_press, command_from_payload, edge_command, parse_percent, position_payload,
    press_command, Button, PressKind,
};
use crabroll::stepper::Direction;

#[test]
fn mqtt_payload_commands() {
    assert_eq!(command_from_payload(b"75"), Ok(Command::MoveToPos(75)));
    assert_eq!(command_from_payload(b"hi"), Err(ErrorSeverity::Soft));
}

#[test]
fn payload_parsing_edges() {
    assert_eq!(parse_percent(b"0"), Some(0));
    assert_eq!(parse_percent(b"100"), Some(100));
    assert_eq!(parse_percent(b"+42"), Some(42));
    assert_eq!(parse_percent(b"-0"), Some(0));
    assert_eq!(parse_percent(b"007"), Some(7));
    assert_eq!(parse_percent(b"101"), None);
    assert_eq!(parse_percent(b"-1"), None);
    assert_eq!(parse_percent(b""), None);
    assert_eq!(parse_percent(b"-"), None);
    assert_eq!(parse_percent(b"5 "), None);
    assert_eq!(parse_percent(b"99999999999999999999"), None);
    assert_eq!(parse_percent(&[0xC3, 0x28]), None);
}

#[test]
fn position_payload_text() {
    assert_eq!(position_payload(0), b"0".to_vec());
    assert_eq!(position_payload(57), b"57".to_vec());
    assert_eq!(position_payload(100), b"100".to_vec());
    assert_eq!(position_payload(255), b"255".to_vec());
}

#[test]
fn press_classification() {
    assert_eq!(classify_press(0), PressKind::Short);
    assert_eq!(classify_press(999), PressKind::Short);
    assert_eq!(classify_press(1000), PressKind::Long);
    assert_eq!(classify_press(5000), PressKind::Long);
}

#[test]
fn button_mapping() {
    assert_eq!(press_command(Button::Home, PressKind::Short), Some(Command::MoveToPos(0)));
    assert_eq!(press_command(Button::Home, PressKind::Long), Some(Command::Home));
    assert_eq!(press_command(Button::Bottom, PressKind::Short), Some(Command::MoveToPos(100)));
    assert_eq!(press_command(Button::Bottom, PressKind::Long), Some(Command::SetBottom));
    assert_eq!(press_command(Button::Raise, PressKind::Long), None);
    assert_eq!(
        edge_command(Button::Raise, true),
        Some(Command::StartJog(Direction::ToHome))
    );
    assert_eq!(edge_command(Button::Raise, false), Some(Command::StopJog));
    assert_eq!(
        edge_command(Button::Lower, true),
        Some(Command::StartJog(Direction::AwayFromHome))
    );
    assert_eq!(edge_command(Button::Lower, false), Some(Command::StopJog));
    assert_eq!(edge_command(Button::Home, true), None);
}
