use keymacro::config::{ActionParams, Config, HotkeyConfig, SequenceParams, TriggerSource};
use keymacro::gamepad::output::{
    compose_report, press_canonical_key, release_canonical_key, suppress_canonical_keys,
    OutputState, PadState,
};
use keymacro::gamepad::{
    apply_output_config, clear_extra_buttons, press_gamepad_button, release_gamepad_button,
};

fn pad(buttons: u16, left_trigger: u8, right_trigger: u8) -> PadState {
    PadState {
        buttons,
        left_trigger,
        right_trigger,
        thumb_lx: -5,
        thumb_ly: 6,
        thumb_rx: -7,
        thumb_ry: 8,
    }
}

fn upper(key: &str) -> String {
    key.to_uppercase()
}

fn hotkey(trigger: TriggerSource, enabled: bool, action: &str) -> HotkeyConfig<u8, u8> {
    HotkeyConfig {
        trigger,
        enabled,
        action: action.to_string(),
        params: ActionParams::Sequence(SequenceParams { steps: vec![] }),
    }
}

fn gamepad(key: &str) -> TriggerSource {
    TriggerSource::Gamepad { key: key.to_string() }
}

fn keyboard(key: &str) -> TriggerSource {
    TriggerSource::Keyboard { key: key.to_string() }
}

#[test]
fn starts_idle() {
    let out = OutputState::new();
    assert_eq!(out.extra_buttons, 0);
    assert_eq!((out.extra_lt, out.extra_rt), (0, 0));
    assert_eq!(out.suppress_buttons, 0);
    assert!(!out.suppress_lt && !out.suppress_rt);
    assert!(!out.vigem_wanted && !out.vigem_warned && !out.vigem_owner);
    assert_eq!(out.virtual_index, -1);
}

#[test]
fn press_and_release_a_button() {
    let mut out = OutputState::new();
    press_gamepad_button(&mut out, &upper, "lb").unwrap();
    press_gamepad_button(&mut out, &upper, "rb").unwrap();
    assert_eq!(out.extra_buttons, 0x0300);
    release_gamepad_button(&mut out, &upper, "lb").unwrap();
    assert_eq!(out.extra_buttons, 0x0200);
    release_gamepad_button(&mut out, &upper, "lb").unwrap();
    assert_eq!(out.extra_buttons, 0x0200);
}

#[test]
fn press_and_release_a_trigger() {
    let mut out = OutputState::new();
    press_gamepad_button(&mut out, &upper, "lt").unwrap();
    press_gamepad_button(&mut out, &upper, "rt").unwrap();
    assert_eq!((out.extra_lt, out.extra_rt, out.extra_buttons), (255, 255, 0));
    release_gamepad_button(&mut out, &upper, "lt").unwrap();
    assert_eq!((out.extra_lt, out.extra_rt), (0, 255));
    release_gamepad_button(&mut out, &upper, "rt").unwrap();
    assert_eq!((out.extra_lt, out.extra_rt), (0, 0));
}

#[test]
fn unknown_key_is_refused_and_named_as_written() {
    let mut out = OutputState::new();
    out.extra_buttons = 0x0001;
    let before = out;
    assert_eq!(
        press_gamepad_button(&mut out, &upper, "f13"),
        Err("未知手柄按键: f13".to_string())
    );
    assert_eq!(
        release_gamepad_button(&mut out, &upper, "f13"),
        Err("未知手柄按键: f13".to_string())
    );
    assert_eq!(out, before);
}

#[test]
fn trigger_names_are_canonical_or_unknown() {
    let mut out = OutputState::new();
    assert_eq!(
        press_canonical_key(&mut out, "lt", "Left"),
        Err("未知手柄按键: Left".to_string())
    );
    assert!(press_canonical_key(&mut out, "LT", "Left").is_ok());
    assert!(press_canonical_key(&mut out, "lb", "Left").is_ok());
    assert!(release_canonical_key(&mut out, "LB", "Left").is_ok());
    assert_eq!((out.extra_lt, out.extra_buttons), (255, 0));
    assert_eq!(
        release_canonical_key(&mut out, "rt", "Right"),
        Err("未知手柄按键: Right".to_string())
    );
}

#[test]
fn release_restores_what_was_before_the_press() {
    let mut out = OutputState::new();
    out.extra_buttons = 0x8001;
    let before = out;
    press_canonical_key(&mut out, "X", "X").unwrap();
    assert_eq!(out.extra_buttons, 0xc001);
    press_canonical_key(&mut out, "X", "X").unwrap();
    assert_eq!(out.extra_buttons, 0xc001);
    release_canonical_key(&mut out, "X", "X").unwrap();
    assert_eq!(out, before);
}

#[test]
fn press_order_is_free() {
    let mut one = OutputState::new();
    let mut other = OutputState::new();
    for key in ["A", "LT", "Y"] {
        press_canonical_key(&mut one, key, key).unwrap();
    }
    for key in ["Y", "A", "LT"] {
        press_canonical_key(&mut other, key, key).unwrap();
    }
    assert_eq!(one, other);
}

#[test]
fn clear_lets_go_of_everything() {
    let mut out = OutputState::new();
    out.suppress_buttons = 0x4000;
    out.suppress_lt = true;
    out.virtual_index = 2;
    let before = out;
    for key in ["A", "LT", "RT", "Guide"] {
        press_canonical_key(&mut out, key, key).unwrap();
    }
    clear_extra_buttons(&mut out);
    assert_eq!(out, before);
}

#[test]
fn idle_report_is_the_pad() {
    let state = pad(0x5a5a, 12, 200);
    assert_eq!(compose_report(&OutputState::new(), Some(state)), state);
}

#[test]
fn report_without_a_pad_holds_the_macro_keys() {
    let mut out = OutputState::new();
    press_canonical_key(&mut out, "LB", "LB").unwrap();
    press_canonical_key(&mut out, "RT", "RT").unwrap();
    let report = compose_report(&out, None);
    assert_eq!(
        report,
        PadState {
            buttons: 0x0100,
            left_trigger: 0,
            right_trigger: 255,
            thumb_lx: 0,
            thumb_ly: 0,
            thumb_rx: 0,
            thumb_ry: 0,
        }
    );
}

#[test]
fn report_takes_out_and_puts_in() {
    let mut out = OutputState::new();
    suppress_canonical_keys(&mut out, &vec!["X".to_string(), "LT".to_string()]);
    press_canonical_key(&mut out, "LB", "LB").unwrap();
    let report = compose_report(&out, Some(pad(0x4001, 200, 90)));
    assert_eq!(report, PadState { buttons: 0x0101, left_trigger: 0, ..pad(0, 0, 90) });
}

#[test]
fn a_macro_may_press_a_suppressed_key() {
    let mut out = OutputState::new();
    suppress_canonical_keys(&mut out, &vec!["X".to_string(), "RT".to_string()]);
    press_canonical_key(&mut out, "X", "X").unwrap();
    press_canonical_key(&mut out, "RT", "RT").unwrap();
    let report = compose_report(&out, Some(pad(0, 0, 3)));
    assert_eq!((report.buttons, report.right_trigger), (0x4000, 255));
}

#[test]
fn triggers_take_the_larger_value() {
    let mut out = OutputState::new();
    out.extra_lt = 100;
    out.extra_rt = 100;
    let report = compose_report(&out, Some(pad(0, 99, 101)));
    assert_eq!((report.left_trigger, report.right_trigger), (100, 101));
    out.suppress_lt = true;
    out.suppress_rt = true;
    let report = compose_report(&out, Some(pad(0, 255, 255)));
    assert_eq!((report.left_trigger, report.right_trigger), (100, 100));
}

#[test]
fn suppression_ignores_what_has_no_mask() {
    let mut out = OutputState::new();
    out.suppress_buttons = 0xffff;
    out.suppress_rt = true;
    suppress_canonical_keys(
        &mut out,
        &vec!["nope".to_string(), "a".to_string(), "LT".to_string(), "lt".to_string()],
    );
    assert_eq!((out.suppress_buttons, out.suppress_lt, out.suppress_rt), (0x1000, true, false));
}

#[test]
fn configuration_suppresses_enabled_hold_loops_only() {
    let config = Config {
        hotkeys: vec![
            hotkey(gamepad("x"), true, "hold_loop"),
            hotkey(gamepad("y"), false, "hold_loop"),
            hotkey(gamepad("a"), true, "sequence"),
            hotkey(keyboard("b"), true, "hold_loop"),
            hotkey(gamepad("lt"), true, "hold_loop"),
            hotkey(gamepad("guide"), true, "hold_loop"),
            hotkey(gamepad("x"), true, "hold_loop"),
        ],
    };
    let mut out = OutputState::new();
    out.extra_buttons = 0x0002;
    apply_output_config(&mut out, &config, true, &upper);
    assert!(out.vigem_wanted);
    assert_eq!(out.suppress_buttons, 0x4400);
    assert!(out.suppress_lt && !out.suppress_rt);
    assert_eq!(out.extra_buttons, 0x0002);
    let report = compose_report(&out, Some(pad(0x5400, 80, 80)));
    assert_eq!((report.buttons, report.left_trigger, report.right_trigger), (0x1002, 0, 80));
}

#[test]
fn a_new_configuration_replaces_the_old_one() {
    let mut out = OutputState::new();
    let first = Config { hotkeys: vec![hotkey(gamepad("rt"), true, "hold_loop")] };
    apply_output_config(&mut out, &first, true, &upper);
    assert!(out.suppress_rt && out.vigem_wanted);
    let second: Config<u8, u8> = Config { hotkeys: vec![] };
    apply_output_config(&mut out, &second, false, &upper);
    assert_eq!(out, OutputState::new());
}

#[test]
fn canonical_names_decide() {
    let config = Config { hotkeys: vec![hotkey(gamepad("L2"), true, "hold_loop")] };
    let mut out = OutputState::new();
    apply_output_config(&mut out, &config, false, &|_: &str| "LT".to_string());
    assert!(out.suppress_lt);
    apply_output_config(&mut out, &config, false, &|key: &str| key.to_string());
    assert!(!out.suppress_lt);
}
