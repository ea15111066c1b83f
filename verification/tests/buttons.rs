use keymacro::gamepad::buttons;
use keymacro::gamepad::{button_name_to_mask, button_to_key_name};
use windows::Win32::UI::Input::XboxController as xinput;

#[test]
fn masks_agree_with_xinput() {
    assert_eq!(buttons::XINPUT_GAMEPAD_DPAD_UP, xinput::XINPUT_GAMEPAD_DPAD_UP.0);
    assert_eq!(buttons::XINPUT_GAMEPAD_DPAD_DOWN, xinput::XINPUT_GAMEPAD_DPAD_DOWN.0);
    assert_eq!(buttons::XINPUT_GAMEPAD_DPAD_LEFT, xinput::XINPUT_GAMEPAD_DPAD_LEFT.0);
    assert_eq!(buttons::XINPUT_GAMEPAD_DPAD_RIGHT, xinput::XINPUT_GAMEPAD_DPAD_RIGHT.0);
    assert_eq!(buttons::XINPUT_GAMEPAD_START, xinput::XINPUT_GAMEPAD_START.0);
    assert_eq!(buttons::XINPUT_GAMEPAD_BACK, xinput::XINPUT_GAMEPAD_BACK.0);
    assert_eq!(buttons::XINPUT_GAMEPAD_LEFT_THUMB, xinput::XINPUT_GAMEPAD_LEFT_THUMB.0);
    assert_eq!(buttons::XINPUT_GAMEPAD_RIGHT_THUMB, xinput::XINPUT_GAMEPAD_RIGHT_THUMB.0);
    assert_eq!(buttons::XINPUT_GAMEPAD_LEFT_SHOULDER, xinput::XINPUT_GAMEPAD_LEFT_SHOULDER.0);
    assert_eq!(buttons::XINPUT_GAMEPAD_RIGHT_SHOULDER, xinput::XINPUT_GAMEPAD_RIGHT_SHOULDER.0);
    assert_eq!(buttons::XINPUT_GAMEPAD_A, xinput::XINPUT_GAMEPAD_A.0);
    assert_eq!(buttons::XINPUT_GAMEPAD_B, xinput::XINPUT_GAMEPAD_B.0);
    assert_eq!(buttons::XINPUT_GAMEPAD_X, xinput::XINPUT_GAMEPAD_X.0);
    assert_eq!(buttons::XINPUT_GAMEPAD_Y, xinput::XINPUT_GAMEPAD_Y.0);
    assert_eq!(buttons::XINPUT_GAMEPAD_GUIDE, 0x0400);
}

#[test]
fn every_button_name_has_its_mask() {
    let expected: [(&str, u16); 29] = [
        ("DUP", 0x0001),
        ("UP", 0x0001),
        ("DDOWN", 0x0002),
        ("DOWN", 0x0002),
        ("DLEFT", 0x0004),
        ("LEFT", 0x0004),
        ("DRIGHT", 0x0008),
        ("RIGHT", 0x0008),
        ("START", 0x0010),
        ("MENU", 0x0010),
        ("BACK", 0x0020),
        ("VIEW", 0x0020),
        ("SELECT", 0x0020),
        ("LS", 0x0040),
        ("L3", 0x0040),
        ("LEFTTHUMB", 0x0040),
        ("RS", 0x0080),
        ("R3", 0x0080),
        ("RIGHTTHUMB", 0x0080),
        ("LB", 0x0100),
        ("LEFTSHOULDER", 0x0100),
        ("RB", 0x0200),
        ("RIGHTSHOULDER", 0x0200),
        ("A", 0x1000),
        ("B", 0x2000),
        ("X", 0x4000),
        ("Y", 0x8000),
        ("GUIDE", 0x0400),
        ("XBOX", 0x0400),
    ];
    for (name, mask) in expected {
        assert_eq!(button_name_to_mask(name), Some(mask), "{}", name);
        assert_eq!(button_name_to_mask(&name.to_lowercase()), Some(mask), "{}", name);
    }
}

#[test]
fn letter_case_plays_no_part() {
    assert_eq!(button_name_to_mask("rightShoulder"), Some(0x0200));
    assert_eq!(button_name_to_mask("dUp"), Some(0x0001));
    assert_eq!(button_name_to_mask("xBoX"), Some(0x0400));
}

#[test]
fn triggers_and_unknown_names_have_no_mask() {
    for name in ["LT", "RT", "lt", "rT", "", "F1", " A", "AA", "Ａ", "ａ"] {
        assert_eq!(button_name_to_mask(name), None, "{}", name);
    }
}

#[test]
fn a_mask_is_a_single_bit() {
    for name in ["DUp", "Start", "LS", "RB", "Guide", "Y"] {
        assert_eq!(button_name_to_mask(name).unwrap().count_ones(), 1);
    }
}

#[test]
fn gilrs_names_become_key_names() {
    let expected: [(&str, &str); 17] = [
        ("South", "A"),
        ("East", "B"),
        ("West", "X"),
        ("North", "Y"),
        ("LeftTrigger", "LT"),
        ("RightTrigger", "RT"),
        ("LeftTrigger2", "LB"),
        ("RightTrigger2", "RB"),
        ("Select", "Back"),
        ("Start", "Start"),
        ("Mode", "Guide"),
        ("LeftThumb", "LS"),
        ("RightThumb", "RS"),
        ("DPadUp", "DUp"),
        ("DPadDown", "DDown"),
        ("DPadLeft", "DLeft"),
        ("DPadRight", "DRight"),
    ];
    for (button, key) in expected {
        assert_eq!(button_to_key_name(button), key);
        assert_eq!(button_to_key_name(key), key);
        assert!(key == "LT" || key == "RT" || button_name_to_mask(key).is_some());
    }
}

#[test]
fn other_names_are_kept() {
    assert_eq!(button_to_key_name("south"), "south");
    assert_eq!(button_to_key_name(""), "");
    assert_eq!(button_to_key_name("按键"), "按键");
}
