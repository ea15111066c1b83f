//! Button names and XInput button masks.

use vstd::prelude::*;

use crate::text;

verus! {

pub const XINPUT_GAMEPAD_DPAD_UP: u16 = 0x0001;

pub const XINPUT_GAMEPAD_DPAD_DOWN: u16 = 0x0002;

pub const XINPUT_GAMEPAD_DPAD_LEFT: u16 = 0x0004;

pub const XINPUT_GAMEPAD_DPAD_RIGHT: u16 = 0x0008;

pub const XINPUT_GAMEPAD_START: u16 = 0x0010;

pub const XINPUT_GAMEPAD_BACK: u16 = 0x0020;

pub const XINPUT_GAMEPAD_LEFT_THUMB: u16 = 0x0040;

pub const XINPUT_GAMEPAD_RIGHT_THUMB: u16 = 0x0080;

pub const XINPUT_GAMEPAD_LEFT_SHOULDER: u16 = 0x0100;

pub const XINPUT_GAMEPAD_RIGHT_SHOULDER: u16 = 0x0200;

/// The Xbox key: absent from the standard state query, reported by the extended one.
pub const XINPUT_GAMEPAD_GUIDE: u16 = 0x0400;

pub const XINPUT_GAMEPAD_A: u16 = 0x1000;

pub const XINPUT_GAMEPAD_B: u16 = 0x2000;

pub const XINPUT_GAMEPAD_X: u16 = 0x4000;

pub const XINPUT_GAMEPAD_Y: u16 = 0x8000;

/// The mask behind an upper-case button name.
pub open spec fn upper_name_mask(u: Seq<char>) -> Option<u16> {
    if u == "DUP"@ || u == "UP"@ {
        Some(XINPUT_GAMEPAD_DPAD_UP)
    } else if u == "DDOWN"@ || u == "DOWN"@ {
        Some(XINPUT_GAMEPAD_DPAD_DOWN)
    } else if u == "DLEFT"@ || u == "LEFT"@ {
        Some(XINPUT_GAMEPAD_DPAD_LEFT)
    } else if u == "DRIGHT"@ || u == "RIGHT"@ {
        Some(XINPUT_GAMEPAD_DPAD_RIGHT)
    } else if u == "START"@ || u == "MENU"@ {
        Some(XINPUT_GAMEPAD_START)
    } else if u == "BACK"@ || u == "VIEW"@ || u == "SELECT"@ {
        Some(XINPUT_GAMEPAD_BACK)
    } else if u == "LS"@ || u == "L3"@ || u == "LEFTTHUMB"@ {
        Some(XINPUT_GAMEPAD_LEFT_THUMB)
    } else if u == "RS"@ || u == "R3"@ || u == "RIGHTTHUMB"@ {
        Some(XINPUT_GAMEPAD_RIGHT_THUMB)
    } else if u == "LB"@ || u == "LEFTSHOULDER"@ {
        Some(XINPUT_GAMEPAD_LEFT_SHOULDER)
    } else if u == "RB"@ || u == "RIGHTSHOULDER"@ {
        Some(XINPUT_GAMEPAD_RIGHT_SHOULDER)
    } else if u == "A"@ {
        Some(XINPUT_GAMEPAD_A)
    } else if u == "B"@ {
        Some(XINPUT_GAMEPAD_B)
    } else if u == "X"@ {
        Some(XINPUT_GAMEPAD_X)
    } else if u == "Y"@ {
        Some(XINPUT_GAMEPAD_Y)
    } else if u == "GUIDE"@ || u == "XBOX"@ {
        Some(XINPUT_GAMEPAD_GUIDE)
    } else {
        None
    }
}

/// The mask behind a button name in any letter case.
pub open spec fn name_mask(name: Seq<char>) -> Option<u16> {
    upper_name_mask(text::ascii_upper(name))
}

/// Button name to XInput button mask, in any letter case. The triggers `LT` and
/// `RT` are analogue and have no mask.
pub fn button_name_to_mask(name: &str) -> (mask: Option<u16>)
    ensures
        mask == name_mask(name@),
{
    let upper = name.to_ascii_uppercase();
    let u = upper.as_str();
    if text::same_text(u, "DUP") || text::same_text(u, "UP") {
        Some(XINPUT_GAMEPAD_DPAD_UP)
    } else if text::same_text(u, "DDOWN") || text::same_text(u, "DOWN") {
        Some(XINPUT_GAMEPAD_DPAD_DOWN)
    } else if text::same_text(u, "DLEFT") || text::same_text(u, "LEFT") {
        Some(XINPUT_GAMEPAD_DPAD_LEFT)
    } else if text::same_text(u, "DRIGHT") || text::same_text(u, "RIGHT") {
        Some(XINPUT_GAMEPAD_DPAD_RIGHT)
    } else if text::same_text(u, "START") || text::same_text(u, "MENU") {
        Some(XINPUT_GAMEPAD_START)
    } else if text::same_text(u, "BACK") || text::same_text(u, "VIEW")
        || text::same_text(u, "SELECT") {
        Some(XINPUT_GAMEPAD_BACK)
    } else if text::same_text(u, "LS") || text::same_text(u, "L3")
        || text::same_text(u, "LEFTTHUMB") {
        Some(XINPUT_GAMEPAD_LEFT_THUMB)
    } else if text::same_text(u, "RS") || text::same_text(u, "R3")
        || text::same_text(u, "RIGHTTHUMB") {
        Some(XINPUT_GAMEPAD_RIGHT_THUMB)
    } else if text::same_text(u, "LB") || text::same_text(u, "LEFTSHOULDER") {
        Some(XINPUT_GAMEPAD_LEFT_SHOULDER)
    } else if text::same_text(u, "RB") || text::same_text(u, "RIGHTSHOULDER") {
        Some(XINPUT_GAMEPAD_RIGHT_SHOULDER)
    } else if text::same_text(u, "A") {
        Some(XINPUT_GAMEPAD_A)
    } else if text::same_text(u, "B") {
        Some(XINPUT_GAMEPAD_B)
    } else if text::same_text(u, "X") {
        Some(XINPUT_GAMEPAD_X)
    } else if text::same_text(u, "Y") {
        Some(XINPUT_GAMEPAD_Y)
    } else if text::same_text(u, "GUIDE") || text::same_text(u, "XBOX") {
        Some(XINPUT_GAMEPAD_GUIDE)
    } else {
        None
    }
}

/// The key name that configurations use for a button of the `gilrs` naming
/// scheme; any other name is kept.
pub open spec fn key_name(button: Seq<char>) -> Seq<char> {
    if button == "South"@ {
        "A"@
    } else if button == "East"@ {
        "B"@
    } else if button == "West"@ {
        "X"@
    } else if button == "North"@ {
        "Y"@
    } else if button == "LeftTrigger"@ {
        "LT"@
    } else if button == "RightTrigger"@ {
        "RT"@
    } else if button == "LeftTrigger2"@ {
        "LB"@
    } else if button == "RightTrigger2"@ {
        "RB"@
    } else if button == "Select"@ {
        "Back"@
    } else if button == "Start"@ {
        "Start"@
    } else if button == "Mode"@ {
        "Guide"@
    } else if button == "LeftThumb"@ {
        "LS"@
    } else if button == "RightThumb"@ {
        "RS"@
    } else if button == "DPadUp"@ {
        "DUp"@
    } else if button == "DPadDown"@ {
        "DDown"@
    } else if button == "DPadLeft"@ {
        "DLeft"@
    } else if button == "DPadRight"@ {
        "DRight"@
    } else {
        button
    }
}

/// Maps a button of the `gilrs` naming scheme to the key name of configurations.
pub fn button_to_key_name(button: &str) -> (key: String)
    ensures
        key@ == key_name(button@),
{
    let key = if text::same_text(button, "South") {
        "A"
    } else if text::same_text(button, "East") {
        "B"
    } else if text::same_text(button, "West") {
        "X"
    } else if text::same_text(button, "North") {
        "Y"
    } else if text::same_text(button, "LeftTrigger") {
        "LT"
    } else if text::same_text(button, "RightTrigger") {
        "RT"
    } else if text::same_text(button, "LeftTrigger2") {
        "LB"
    } else if text::same_text(button, "RightTrigger2") {
        "RB"
    } else if text::same_text(button, "Select") {
        "Back"
    } else if text::same_text(button, "Start") {
        "Start"
    } else if text::same_text(button, "Mode") {
        "Guide"
    } else if text::same_text(button, "LeftThumb") {
        "LS"
    } else if text::same_text(button, "RightThumb") {
        "RS"
    } else if text::same_text(button, "DPadUp") {
        "DUp"
    } else if text::same_text(button, "DPadDown") {
        "DDown"
    } else if text::same_text(button, "DPadLeft") {
        "DLeft"
    } else if text::same_text(button, "DPadRight") {
        "DRight"
    } else {
        button
    };
    key.to_string()
}

proof fn upper_names_have_masks()
    ensures
        upper_name_mask("DUP"@) == Some(0x0001u16),
        upper_name_mask("UP"@) == Some(0x0001u16),
        upper_name_mask("DDOWN"@) == Some(0x0002u16),
        upper_name_mask("DOWN"@) == Some(0x0002u16),
        upper_name_mask("DLEFT"@) == Some(0x0004u16),
        upper_name_mask("LEFT"@) == Some(0x0004u16),
        upper_name_mask("DRIGHT"@) == Some(0x0008u16),
        upper_name_mask("RIGHT"@) == Some(0x0008u16),
        upper_name_mask("START"@) == Some(0x0010u16),
        upper_name_mask("MENU"@) == Some(0x0010u16),
        upper_name_mask("BACK"@) == Some(0x0020u16),
        upper_name_mask("VIEW"@) == Some(0x0020u16),
        upper_name_mask("SELECT"@) == Some(0x0020u16),
        upper_name_mask("LS"@) == Some(0x0040u16),
        upper_name_mask("L3"@) == Some(0x0040u16),
        upper_name_mask("LEFTTHUMB"@) == Some(0x0040u16),
        upper_name_mask("RS"@) == Some(0x0080u16),
        upper_name_mask("R3"@) == Some(0x0080u16),
        upper_name_mask("RIGHTTHUMB"@) == Some(0x0080u16),
        upper_name_mask("LB"@) == Some(0x0100u16),
        upper_name_mask("LEFTSHOULDER"@) == Some(0x0100u16),
        upper_name_mask("RB"@) == Some(0x0200u16),
        upper_name_mask("RIGHTSHOULDER"@) == Some(0x0200u16),
        upper_name_mask("GUIDE"@) == Some(0x0400u16),
        upper_name_mask("XBOX"@) == Some(0x0400u16),
        upper_name_mask("A"@) == Some(0x1000u16),
        upper_name_mask("B"@) == Some(0x2000u16),
        upper_name_mask("X"@) == Some(0x4000u16),
        upper_name_mask("Y"@) == Some(0x8000u16),
{
    reveal_strlit("DUP");
    reveal_strlit("UP");
    reveal_strlit("DDOWN");
    reveal_strlit("DOWN");
    reveal_strlit("DLEFT");
    reveal_strlit("LEFT");
    reveal_strlit("DRIGHT");
    reveal_strlit("RIGHT");
    reveal_strlit("START");
    reveal_strlit("MENU");
    reveal_strlit("BACK");
    reveal_strlit("VIEW");
    reveal_strlit("SELECT");
    reveal_strlit("LS");
    reveal_strlit("L3");
    reveal_strlit("LEFTTHUMB");
    reveal_strlit("RS");
    reveal_strlit("R3");
    reveal_strlit("RIGHTTHUMB");
    reveal_strlit("LB");
    reveal_strlit("LEFTSHOULDER");
    reveal_strlit("RB");
    reveal_strlit("RIGHTSHOULDER");
    reveal_strlit("GUIDE");
    reveal_strlit("XBOX");
    reveal_strlit("A");
    reveal_strlit("B");
    reveal_strlit("X");
    reveal_strlit("Y");
    assert("DUP"@.len() == 3 && "DUP"@[0] == 'D' && "DUP"@[1] == 'U');
    assert("UP"@.len() == 2 && "UP"@[0] == 'U' && "UP"@[1] == 'P');
    assert("DDOWN"@.len() == 5 && "DDOWN"@[0] == 'D' && "DDOWN"@[1] == 'D');
    assert("DOWN"@.len() == 4 && "DOWN"@[0] == 'D' && "DOWN"@[1] == 'O');
    assert("DLEFT"@.len() == 5 && "DLEFT"@[0] == 'D' && "DLEFT"@[1] == 'L');
    assert("LEFT"@.len() == 4 && "LEFT"@[0] == 'L' && "LEFT"@[1] == 'E');
    assert("DRIGHT"@.len() == 6 && "DRIGHT"@[0] == 'D' && "DRIGHT"@[1] == 'R');
    assert("RIGHT"@.len() == 5 && "RIGHT"@[0] == 'R' && "RIGHT"@[1] == 'I');
    assert("START"@.len() == 5 && "START"@[0] == 'S' && "START"@[1] == 'T');
    assert("MENU"@.len() == 4 && "MENU"@[0] == 'M' && "MENU"@[1] == 'E');
    assert("BACK"@.len() == 4 && "BACK"@[0] == 'B' && "BACK"@[1] == 'A');
    assert("VIEW"@.len() == 4 && "VIEW"@[0] == 'V' && "VIEW"@[1] == 'I');
    assert("SELECT"@.len() == 6 && "SELECT"@[0] == 'S' && "SELECT"@[1] == 'E');
    assert("LS"@.len() == 2 && "LS"@[0] == 'L' && "LS"@[1] == 'S');
    assert("L3"@.len() == 2 && "L3"@[0] == 'L' && "L3"@[1] == '3');
    assert("LEFTTHUMB"@.len() == 9 && "LEFTTHUMB"@[0] == 'L' && "LEFTTHUMB"@[1] == 'E');
    assert("RS"@.len() == 2 && "RS"@[0] == 'R' && "RS"@[1] == 'S');
    assert("R3"@.len() == 2 && "R3"@[0] == 'R' && "R3"@[1] == '3');
    assert("RIGHTTHUMB"@.len() == 10 && "RIGHTTHUMB"@[0] == 'R' && "RIGHTTHUMB"@[1] == 'I');
    assert("LB"@.len() == 2 && "LB"@[0] == 'L' && "LB"@[1] == 'B');
    assert("LEFTSHOULDER"@.len() == 12 && "LEFTSHOULDER"@[0] == 'L' && "LEFTSHOULDER"@[1] == 'E');
    assert("RB"@.len() == 2 && "RB"@[0] == 'R' && "RB"@[1] == 'B');
    assert("RIGHTSHOULDER"@.len() == 13 && "RIGHTSHOULDER"@[0] == 'R' && "RIGHTSHOULDER"@[1] == 'I');
    assert("GUIDE"@.len() == 5 && "GUIDE"@[0] == 'G' && "GUIDE"@[1] == 'U');
    assert("XBOX"@.len() == 4 && "XBOX"@[0] == 'X' && "XBOX"@[1] == 'B');
    assert("A"@.len() == 1 && "A"@[0] == 'A');
    assert("B"@.len() == 1 && "B"@[0] == 'B');
    assert("X"@.len() == 1 && "X"@[0] == 'X');
    assert("Y"@.len() == 1 && "Y"@[0] == 'Y');
}

/// The names under which buttons are reported have their masks.
pub proof fn reported_names_have_masks()
    ensures
        name_mask("DUp"@) == Some(XINPUT_GAMEPAD_DPAD_UP),
        name_mask("DDown"@) == Some(XINPUT_GAMEPAD_DPAD_DOWN),
        name_mask("DLeft"@) == Some(XINPUT_GAMEPAD_DPAD_LEFT),
        name_mask("DRight"@) == Some(XINPUT_GAMEPAD_DPAD_RIGHT),
        name_mask("Start"@) == Some(XINPUT_GAMEPAD_START),
        name_mask("Back"@) == Some(XINPUT_GAMEPAD_BACK),
        name_mask("LS"@) == Some(XINPUT_GAMEPAD_LEFT_THUMB),
        name_mask("RS"@) == Some(XINPUT_GAMEPAD_RIGHT_THUMB),
        name_mask("LB"@) == Some(XINPUT_GAMEPAD_LEFT_SHOULDER),
        name_mask("RB"@) == Some(XINPUT_GAMEPAD_RIGHT_SHOULDER),
        name_mask("A"@) == Some(XINPUT_GAMEPAD_A),
        name_mask("B"@) == Some(XINPUT_GAMEPAD_B),
        name_mask("X"@) == Some(XINPUT_GAMEPAD_X),
        name_mask("Y"@) == Some(XINPUT_GAMEPAD_Y),
        name_mask("Guide"@) == Some(XINPUT_GAMEPAD_GUIDE),
{
    upper_names_have_masks();
    reveal_strlit("DUp");
    reveal_strlit("DUP");
    reveal_strlit("DDown");
    reveal_strlit("DDOWN");
    reveal_strlit("DLeft");
    reveal_strlit("DLEFT");
    reveal_strlit("DRight");
    reveal_strlit("DRIGHT");
    reveal_strlit("Start");
    reveal_strlit("START");
    reveal_strlit("Back");
    reveal_strlit("BACK");
    reveal_strlit("LS");
    reveal_strlit("RS");
    reveal_strlit("LB");
    reveal_strlit("RB");
    reveal_strlit("A");
    reveal_strlit("B");
    reveal_strlit("X");
    reveal_strlit("Y");
    reveal_strlit("Guide");
    reveal_strlit("GUIDE");
    assert(text::ascii_upper("DUp"@) =~= "DUP"@);
    assert(text::ascii_upper("DDown"@) =~= "DDOWN"@);
    assert(text::ascii_upper("DLeft"@) =~= "DLEFT"@);
    assert(text::ascii_upper("DRight"@) =~= "DRIGHT"@);
    assert(text::ascii_upper("Start"@) =~= "START"@);
    assert(text::ascii_upper("Back"@) =~= "BACK"@);
    assert(text::ascii_upper("LS"@) =~= "LS"@);
    assert(text::ascii_upper("RS"@) =~= "RS"@);
    assert(text::ascii_upper("LB"@) =~= "LB"@);
    assert(text::ascii_upper("RB"@) =~= "RB"@);
    assert(text::ascii_upper("A"@) =~= "A"@);
    assert(text::ascii_upper("B"@) =~= "B"@);
    assert(text::ascii_upper("X"@) =~= "X"@);
    assert(text::ascii_upper("Y"@) =~= "Y"@);
    assert(text::ascii_upper("Guide"@) =~= "GUIDE"@);
}

/// The triggers have no mask, in whatever letter case they are written.
pub proof fn triggers_have_no_mask(name: Seq<char>)
    requires
        text::ascii_upper(name) == "LT"@ || text::ascii_upper(name) == "RT"@,
    ensures
        name_mask(name) is None,
{
    let u = text::ascii_upper(name);
    reveal_strlit("DUP");
    reveal_strlit("UP");
    reveal_strlit("DDOWN");
    reveal_strlit("DOWN");
    reveal_strlit("DLEFT");
    reveal_strlit("LEFT");
    reveal_strlit("DRIGHT");
    reveal_strlit("RIGHT");
    reveal_strlit("START");
    reveal_strlit("MENU");
    reveal_strlit("BACK");
    reveal_strlit("VIEW");
    reveal_strlit("SELECT");
    reveal_strlit("LS");
    reveal_strlit("L3");
    reveal_strlit("LEFTTHUMB");
    reveal_strlit("RS");
    reveal_strlit("R3");
    reveal_strlit("RIGHTTHUMB");
    reveal_strlit("LB");
    reveal_strlit("LEFTSHOULDER");
    reveal_strlit("RB");
    reveal_strlit("RIGHTSHOULDER");
    reveal_strlit("A");
    reveal_strlit("B");
    reveal_strlit("X");
    reveal_strlit("Y");
    reveal_strlit("GUIDE");
    reveal_strlit("XBOX");
    reveal_strlit("LT");
    reveal_strlit("RT");
    assert(u.len() == 2);
    assert(u[1] == 'T');
}

/// The names of the triggers differ, and are no button names.
pub proof fn trigger_names()
    ensures
        "LT"@ != "RT"@,
        name_mask("LT"@) is None,
        name_mask("RT"@) is None,
{
    reveal_strlit("LT");
    reveal_strlit("RT");
    assert("LT"@[0] != "RT"@[0]);
    assert(text::ascii_upper("LT"@) =~= "LT"@);
    assert(text::ascii_upper("RT"@) =~= "RT"@);
    triggers_have_no_mask("LT"@);
    triggers_have_no_mask("RT"@);
}

/// Letter case plays no part in a button name.
pub proof fn mask_ignores_letter_case(a: Seq<char>, b: Seq<char>)
    requires
        text::ascii_upper(a) == text::ascii_upper(b),
    ensures
        name_mask(a) == name_mask(b),
        name_mask(text::ascii_upper(a)) == name_mask(a),
{
    text::ascii_upper_idempotent(a);
}

/// A button name stands for exactly one bit.
pub proof fn mask_is_a_single_bit(name: Seq<char>)
    ensures
        name_mask(name) matches Some(mask) ==> mask != 0 && mask & (mask - 1) as u16 == 0,
{
    if let Some(mask) = name_mask(name) {
        assert(mask != 0 && mask & (mask - 1) as u16 == 0) by (bit_vector)
            requires
                mask == 0x0001 || mask == 0x0002 || mask == 0x0004 || mask == 0x0008 || mask
                    == 0x0010 || mask == 0x0020 || mask == 0x0040 || mask == 0x0080 || mask
                    == 0x0100 || mask == 0x0200 || mask == 0x0400 || mask == 0x1000 || mask
                    == 0x2000 || mask == 0x4000 || mask == 0x8000,
        ;
    }
}

/// A name that the mapping changes becomes a trigger or a button with a mask.
pub proof fn key_names_are_gamepad_keys(button: Seq<char>)
    requires
        key_name(button) != button,
    ensures
        key_name(button) == "LT"@ || key_name(button) == "RT"@ || name_mask(
            key_name(button),
        ) is Some,
{
    reported_names_have_masks();
}

/// A key name of the configuration maps to itself.
pub proof fn key_name_idempotent(button: Seq<char>)
    ensures
        key_name(key_name(button)) == key_name(button),
{
    reveal_strlit("South");
    reveal_strlit("A");
    reveal_strlit("East");
    reveal_strlit("B");
    reveal_strlit("West");
    reveal_strlit("X");
    reveal_strlit("North");
    reveal_strlit("Y");
    reveal_strlit("LeftTrigger");
    reveal_strlit("LT");
    reveal_strlit("RightTrigger");
    reveal_strlit("RT");
    reveal_strlit("LeftTrigger2");
    reveal_strlit("LB");
    reveal_strlit("RightTrigger2");
    reveal_strlit("RB");
    reveal_strlit("Select");
    reveal_strlit("Back");
    reveal_strlit("Start");
    reveal_strlit("Mode");
    reveal_strlit("Guide");
    reveal_strlit("LeftThumb");
    reveal_strlit("LS");
    reveal_strlit("RightThumb");
    reveal_strlit("RS");
    reveal_strlit("DPadUp");
    reveal_strlit("DUp");
    reveal_strlit("DPadDown");
    reveal_strlit("DDown");
    reveal_strlit("DPadLeft");
    reveal_strlit("DLeft");
    reveal_strlit("DPadRight");
    reveal_strlit("DRight");
    assert("A"@.len() == 1);
    assert(key_name("A"@) == "A"@);
    assert("B"@.len() == 1);
    assert(key_name("B"@) == "B"@);
    assert("X"@.len() == 1);
    assert(key_name("X"@) == "X"@);
    assert("Y"@.len() == 1);
    assert(key_name("Y"@) == "Y"@);
    assert("LT"@.len() == 2);
    assert(key_name("LT"@) == "LT"@);
    assert("RT"@.len() == 2);
    assert(key_name("RT"@) == "RT"@);
    assert("LB"@.len() == 2);
    assert(key_name("LB"@) == "LB"@);
    assert("RB"@.len() == 2);
    assert(key_name("RB"@) == "RB"@);
    assert("Back"@[0] == 'B' && "Back"@[1] == 'a');
    assert("Back"@.len() == 4);
    assert(key_name("Back"@) == "Back"@);
    assert("Start"@[0] == 'S' && "Start"@[1] == 't');
    assert("Start"@.len() == 5);
    assert(key_name("Start"@) == "Start"@);
    assert("Guide"@[0] == 'G' && "Guide"@[1] == 'u');
    assert("Guide"@.len() == 5);
    assert(key_name("Guide"@) == "Guide"@);
    assert("LS"@.len() == 2);
    assert(key_name("LS"@) == "LS"@);
    assert("RS"@.len() == 2);
    assert(key_name("RS"@) == "RS"@);
    assert("DUp"@.len() == 3);
    assert(key_name("DUp"@) == "DUp"@);
    assert("DDown"@[0] == 'D' && "DDown"@[1] == 'D');
    assert("DDown"@.len() == 5);
    assert(key_name("DDown"@) == "DDown"@);
    assert("DLeft"@[0] == 'D' && "DLeft"@[1] == 'L');
    assert("DLeft"@.len() == 5);
    assert(key_name("DLeft"@) == "DLeft"@);
    assert("DRight"@[0] == 'D' && "DRight"@[1] == 'R');
    assert("DRight"@.len() == 6);
    assert(key_name("DRight"@) == "DRight"@);
}

/// Which names stand for which bit, read from the bit: a mask comes from its names
/// alone, in any letter case, and no other mask ever comes.
pub proof fn masks_come_from_their_names_alone(name: Seq<char>)
    ensures
        ({
            let upper = text::ascii_upper(name);
            &&& name_mask(name) == Some(0x0001u16) <==> upper == "DUP"@ || upper == "UP"@
            &&& name_mask(name) == Some(0x0002u16) <==> upper == "DDOWN"@ || upper == "DOWN"@
            &&& name_mask(name) == Some(0x0004u16) <==> upper == "DLEFT"@ || upper == "LEFT"@
            &&& name_mask(name) == Some(0x0008u16) <==> upper == "DRIGHT"@ || upper == "RIGHT"@
            &&& name_mask(name) == Some(0x0010u16) <==> upper == "START"@ || upper == "MENU"@
            &&& name_mask(name) == Some(0x0020u16) <==> upper == "BACK"@ || upper == "VIEW"@ || upper == "SELECT"@
            &&& name_mask(name) == Some(0x0040u16) <==> upper == "LS"@ || upper == "L3"@ || upper == "LEFTTHUMB"@
            &&& name_mask(name) == Some(0x0080u16) <==> upper == "RS"@ || upper == "R3"@ || upper == "RIGHTTHUMB"@
            &&& name_mask(name) == Some(0x0100u16) <==> upper == "LB"@ || upper == "LEFTSHOULDER"@
            &&& name_mask(name) == Some(0x0200u16) <==> upper == "RB"@ || upper == "RIGHTSHOULDER"@
            &&& name_mask(name) == Some(0x0400u16) <==> upper == "GUIDE"@ || upper == "XBOX"@
            &&& name_mask(name) == Some(0x1000u16) <==> upper == "A"@
            &&& name_mask(name) == Some(0x2000u16) <==> upper == "B"@
            &&& name_mask(name) == Some(0x4000u16) <==> upper == "X"@
            &&& name_mask(name) == Some(0x8000u16) <==> upper == "Y"@
        }),
        name_mask(name) matches Some(mask) ==> mask == 0x0001 || mask == 0x0002 || mask == 0x0004
            || mask == 0x0008 || mask == 0x0010 || mask == 0x0020 || mask == 0x0040 || mask
            == 0x0080 || mask == 0x0100 || mask == 0x0200 || mask == 0x0400 || mask == 0x1000
            || mask == 0x2000 || mask == 0x4000 || mask == 0x8000,
{
    upper_names_have_masks();
}

/// Which buttons get a key name, read from the key name: apart from itself exactly
/// one name of the `gilrs` scheme leads to it. A name outside the scheme is kept.
pub proof fn key_names_come_from_one_button(button: Seq<char>)
    ensures
        key_name(button) == "A"@ <==> button == "South"@ || button == "A"@,
        key_name(button) == "B"@ <==> button == "East"@ || button == "B"@,
        key_name(button) == "X"@ <==> button == "West"@ || button == "X"@,
        key_name(button) == "Y"@ <==> button == "North"@ || button == "Y"@,
        key_name(button) == "LT"@ <==> button == "LeftTrigger"@ || button == "LT"@,
        key_name(button) == "RT"@ <==> button == "RightTrigger"@ || button == "RT"@,
        key_name(button) == "LB"@ <==> button == "LeftTrigger2"@ || button == "LB"@,
        key_name(button) == "RB"@ <==> button == "RightTrigger2"@ || button == "RB"@,
        key_name(button) == "Back"@ <==> button == "Select"@ || button == "Back"@,
        key_name(button) == "Guide"@ <==> button == "Mode"@ || button == "Guide"@,
        key_name(button) == "LS"@ <==> button == "LeftThumb"@ || button == "LS"@,
        key_name(button) == "RS"@ <==> button == "RightThumb"@ || button == "RS"@,
        key_name(button) == "DUp"@ <==> button == "DPadUp"@ || button == "DUp"@,
        key_name(button) == "DDown"@ <==> button == "DPadDown"@ || button == "DDown"@,
        key_name(button) == "DLeft"@ <==> button == "DPadLeft"@ || button == "DLeft"@,
        key_name(button) == "DRight"@ <==> button == "DPadRight"@ || button == "DRight"@,
        button != "South"@ && button != "East"@ && button != "West"@ && button != "North"@ &&
            button != "LeftTrigger"@ && button != "RightTrigger"@ && button != "LeftTrigger2"@ &&
            button != "RightTrigger2"@ && button != "Select"@ && button != "Mode"@ && button !=
            "LeftThumb"@ && button != "RightThumb"@ && button != "DPadUp"@ && button != "DPadDown"@
            && button != "DPadLeft"@ && button != "DPadRight"@ ==> key_name(button) == button,
{
    reveal_strlit("South");
    reveal_strlit("A");
    reveal_strlit("East");
    reveal_strlit("B");
    reveal_strlit("West");
    reveal_strlit("X");
    reveal_strlit("North");
    reveal_strlit("Y");
    reveal_strlit("LeftTrigger");
    reveal_strlit("LT");
    reveal_strlit("RightTrigger");
    reveal_strlit("RT");
    reveal_strlit("LeftTrigger2");
    reveal_strlit("LB");
    reveal_strlit("RightTrigger2");
    reveal_strlit("RB");
    reveal_strlit("Select");
    reveal_strlit("Back");
    reveal_strlit("Mode");
    reveal_strlit("Guide");
    reveal_strlit("LeftThumb");
    reveal_strlit("LS");
    reveal_strlit("RightThumb");
    reveal_strlit("RS");
    reveal_strlit("DPadUp");
    reveal_strlit("DUp");
    reveal_strlit("DPadDown");
    reveal_strlit("DDown");
    reveal_strlit("DPadLeft");
    reveal_strlit("DLeft");
    reveal_strlit("DPadRight");
    reveal_strlit("DRight");
    reveal_strlit("Start");
    assert("South"@.len() == 5 && "South"@[0] == 'S' && "South"@[1] == 'o');
    assert("A"@.len() == 1 && "A"@[0] == 'A');
    assert("East"@.len() == 4 && "East"@[0] == 'E' && "East"@[1] == 'a');
    assert("B"@.len() == 1 && "B"@[0] == 'B');
    assert("West"@.len() == 4 && "West"@[0] == 'W' && "West"@[1] == 'e');
    assert("X"@.len() == 1 && "X"@[0] == 'X');
    assert("North"@.len() == 5 && "North"@[0] == 'N' && "North"@[1] == 'o');
    assert("Y"@.len() == 1 && "Y"@[0] == 'Y');
    assert("LeftTrigger"@.len() == 11 && "LeftTrigger"@[0] == 'L' && "LeftTrigger"@[1] == 'e');
    assert("LT"@.len() == 2 && "LT"@[0] == 'L' && "LT"@[1] == 'T');
    assert("RightTrigger"@.len() == 12 && "RightTrigger"@[0] == 'R' && "RightTrigger"@[1] == 'i');
    assert("RT"@.len() == 2 && "RT"@[0] == 'R' && "RT"@[1] == 'T');
    assert("LeftTrigger2"@.len() == 12 && "LeftTrigger2"@[0] == 'L' && "LeftTrigger2"@[1] == 'e');
    assert("LB"@.len() == 2 && "LB"@[0] == 'L' && "LB"@[1] == 'B');
    assert("RightTrigger2"@.len() == 13 && "RightTrigger2"@[0] == 'R' && "RightTrigger2"@[1] == 'i');
    assert("RB"@.len() == 2 && "RB"@[0] == 'R' && "RB"@[1] == 'B');
    assert("Select"@.len() == 6 && "Select"@[0] == 'S' && "Select"@[1] == 'e' && "Select"@[4] == 'c');
    assert("Back"@.len() == 4 && "Back"@[0] == 'B' && "Back"@[1] == 'a');
    assert("Mode"@.len() == 4 && "Mode"@[0] == 'M' && "Mode"@[1] == 'o');
    assert("Guide"@.len() == 5 && "Guide"@[0] == 'G' && "Guide"@[1] == 'u');
    assert("LeftThumb"@.len() == 9 && "LeftThumb"@[0] == 'L' && "LeftThumb"@[1] == 'e' && "LeftThumb"@[4] == 'T');
    assert("LS"@.len() == 2 && "LS"@[0] == 'L' && "LS"@[1] == 'S');
    assert("RightThumb"@.len() == 10 && "RightThumb"@[0] == 'R' && "RightThumb"@[1] == 'i');
    assert("RS"@.len() == 2 && "RS"@[0] == 'R' && "RS"@[1] == 'S');
    assert("DPadUp"@.len() == 6 && "DPadUp"@[0] == 'D' && "DPadUp"@[1] == 'P' && "DPadUp"@[4] == 'U');
    assert("DUp"@.len() == 3 && "DUp"@[0] == 'D' && "DUp"@[1] == 'U');
    assert("DPadDown"@.len() == 8 && "DPadDown"@[0] == 'D' && "DPadDown"@[1] == 'P' && "DPadDown"@[4] == 'D');
    assert("DDown"@.len() == 5 && "DDown"@[0] == 'D' && "DDown"@[1] == 'D');
    assert("DPadLeft"@.len() == 8 && "DPadLeft"@[0] == 'D' && "DPadLeft"@[1] == 'P' && "DPadLeft"@[4] == 'L');
    assert("DLeft"@.len() == 5 && "DLeft"@[0] == 'D' && "DLeft"@[1] == 'L');
    assert("DPadRight"@.len() == 9 && "DPadRight"@[0] == 'D' && "DPadRight"@[1] == 'P' && "DPadRight"@[4] == 'R');
    assert("DRight"@.len() == 6 && "DRight"@[0] == 'D' && "DRight"@[1] == 'R' && "DRight"@[4] == 'h');
    assert("Start"@.len() == 5 && "Start"@[0] == 'S' && "Start"@[1] == 't');
}

} // verus!
