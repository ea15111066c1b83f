use keymacro::gamepad::button_name_to_mask;
use keymacro::gamepad::edges::{check_button_changes, check_trigger_edge};
use keymacro::gamepad::GamepadEvent;

fn show(events: &[GamepadEvent]) -> Vec<String> {
    events
        .iter()
        .map(|e| match e {
            GamepadEvent::ButtonPressed { button } => format!("+{}", button),
            GamepadEvent::ButtonReleased { button } => format!("-{}", button),
        })
        .collect()
}

#[test]
fn all_buttons_in_order() {
    let names = [
        "DUp", "DDown", "DLeft", "DRight", "Start", "Back", "LS", "RS", "LB", "RB", "A", "B", "X",
        "Y", "Guide",
    ];
    let pressed: Vec<String> = names.iter().map(|n| format!("+{}", n)).collect();
    let released: Vec<String> = names.iter().map(|n| format!("-{}", n)).collect();
    assert_eq!(show(&check_button_changes(0xffff, 0xffff)), pressed);
    assert_eq!(show(&check_button_changes(0x0000, 0xffff)), released);
}

#[test]
fn only_changed_bits_are_reported() {
    assert_eq!(show(&check_button_changes(0x5000, 0x3000)), ["+A", "-B"]);
    assert!(check_button_changes(0xffff, 0).is_empty());
}

#[test]
fn the_unused_bit_is_ignored() {
    assert!(check_button_changes(0x0800, 0x0800).is_empty());
}

#[test]
fn event_names_lead_back_to_the_bit() {
    for shift in 0..16u16 {
        let bit = 1u16 << shift;
        for event in check_button_changes(bit, bit) {
            match event {
                GamepadEvent::ButtonPressed { button } => {
                    assert_eq!(button_name_to_mask(&button), Some(bit))
                }
                GamepadEvent::ButtonReleased { .. } => panic!("released"),
            }
        }
    }
}

#[test]
fn following_the_events_gives_the_new_state() {
    for (prev, current) in [(0x0000u16, 0xf7ffu16), (0x1234, 0x4321), (0xf0f0, 0x0f0f & 0xf7ff)] {
        let mut held = prev & 0xf7ff;
        for event in check_button_changes(current, current ^ prev) {
            match event {
                GamepadEvent::ButtonPressed { button } => {
                    let bit = button_name_to_mask(&button).unwrap();
                    assert_eq!(held & bit, 0);
                    held |= bit;
                }
                GamepadEvent::ButtonReleased { button } => {
                    let bit = button_name_to_mask(&button).unwrap();
                    assert_eq!(held & bit, bit);
                    held &= !bit;
                }
            }
        }
        assert_eq!(held, current & 0xf7ff);
    }
}

#[test]
fn trigger_crosses_the_threshold() {
    assert!(matches!(
        check_trigger_edge("LT", 29, 30),
        Some(GamepadEvent::ButtonPressed { button }) if button == "LT"
    ));
    assert!(matches!(
        check_trigger_edge("RT", 255, 29),
        Some(GamepadEvent::ButtonReleased { button }) if button == "RT"
    ));
}

#[test]
fn trigger_stays_on_one_side() {
    assert!(check_trigger_edge("LT", 0, 29).is_none());
    assert!(check_trigger_edge("LT", 30, 255).is_none());
    assert!(check_trigger_edge("LT", 255, 30).is_none());
}

#[test]
fn trigger_edges_alternate_on_values() {
    let first = check_trigger_edge("RT", 10, 200).unwrap();
    let second = check_trigger_edge("RT", 200, 5).unwrap();
    assert!(matches!(first, GamepadEvent::ButtonPressed { .. }));
    assert!(matches!(second, GamepadEvent::ButtonReleased { .. }));
}

#[test]
fn an_event_can_be_cloned() {
    let event = check_trigger_edge("LT", 0, 255).unwrap();
    assert_eq!(show(&[event.clone(), event]), ["+LT", "+LT"]);
}
