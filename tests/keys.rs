use mhw_toolkit::keys::{ControllerCode, GameKeyCode, VKeyCode};

#[test]
fn test_vkeycode_from_named() {
    let code = 1;
    assert_eq!(VKeyCode::from(code), VKeyCode::LMouse);
}

#[test]
fn test_vkeycode_from_other() {
    let code = 500;
    assert_eq!(VKeyCode::from(code), VKeyCode::Other(500));
}

#[test]
fn test_vkeycode_to_code_named() {
    let vkeycode = VKeyCode::LMouse;
    assert_eq!(vkeycode.to_code(), 1);
}

#[test]
fn test_vkeycode_to_code_other() {
    let vkeycode = VKeyCode::Other(500);
    assert_eq!(vkeycode.to_code(), 500);
}

#[test]
fn test_parse_vkeycode() {
    assert_eq!(VKeyCode::from_str("A").unwrap(), VKeyCode::A);
    assert_eq!(VKeyCode::from_str("Numpad0").unwrap(), VKeyCode::Numpad0);
    assert_eq!(VKeyCode::from_str("C").unwrap(), VKeyCode::C);
}

#[test]
fn vkeycode_codes_round_trip() {
    for code in [8, 13, 65, 96, 123, 222, 7, 0, -3] {
        assert_eq!(VKeyCode::from(code).to_code(), code);
    }
    assert_eq!(VKeyCode::from(123), VKeyCode::F12);
    assert_eq!(VKeyCode::from(7), VKeyCode::Other(7));
}

#[test]
fn vkeycode_unknown_name_is_rejected() {
    assert_eq!(VKeyCode::from_str("Numpad10"), Err("Matching variant not found".to_string()));
    assert_eq!(VKeyCode::from_str(""), Err("Matching variant not found".to_string()));
}

#[test]
fn controller_code_from_number() {
    assert_eq!(ControllerCode::from(0), ControllerCode::LJoystickUp);
    assert_eq!(ControllerCode::from(23), ControllerCode::Menu);
    assert_eq!(ControllerCode::from(24), ControllerCode::A);
}

#[test]
fn game_key_code_from_name() {
    assert_eq!(
        GameKeyCode::from_str("Controller:LT"),
        Ok(GameKeyCode::Controller(ControllerCode::LT))
    );
    assert_eq!(
        GameKeyCode::from_str("Tab"),
        Ok(GameKeyCode::KeyboardMouse(VKeyCode::Tab))
    );
    assert!(GameKeyCode::from_str("Controller:Tab").is_err());
    assert!(GameKeyCode::from_str("Controller").is_err());
}
