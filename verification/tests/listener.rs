use keymacro::gamepad::listener::{
    observe_slot, skip_virtual_slot, Listener, PollAction, PollEvent, SlotState, StepOutcome,
};
use keymacro::gamepad::output::{press_canonical_key, OutputState, PadState};
use keymacro::gamepad::GamepadEvent;

fn pad(buttons: u16, left_trigger: u8, right_trigger: u8) -> PadState {
    PadState {
        buttons,
        left_trigger,
        right_trigger,
        thumb_lx: 1,
        thumb_ly: 2,
        thumb_rx: 3,
        thumb_ry: 4,
    }
}

fn show(events: &[GamepadEvent]) -> Vec<String> {
    events
        .iter()
        .map(|e| match e {
            GamepadEvent::ButtonPressed { button } => format!("+{}", button),
            GamepadEvent::ButtonReleased { button } => format!("-{}", button),
        })
        .collect()
}

fn send(listener: &mut Listener, out: &mut OutputState, event: PollEvent) -> StepOutcome {
    assert!(listener.accepts(event));
    listener.step(out, event)
}

fn read(listener: &mut Listener, out: &mut OutputState, reading: Option<PadState>) -> StepOutcome {
    send(listener, out, PollEvent::SlotRead { reading })
}

/// Answers every slot that the listener asks for and returns the slots asked
/// for, the events, and what it asks for in the end.
fn scan(
    listener: &mut Listener,
    out: &mut OutputState,
    first: PollAction,
    readings: [Option<PadState>; 4],
) -> (Vec<u32>, Vec<String>, PollAction) {
    let mut slots = vec![];
    let mut events = vec![];
    let mut action = first;
    while let PollAction::ReadSlot { slot } = action {
        slots.push(slot);
        let outcome = read(listener, out, readings[slot as usize]);
        events.extend(show(&outcome.events));
        action = outcome.action;
    }
    (slots, events, action)
}

#[test]
fn a_cycle_without_a_virtual_pad() {
    let mut out = OutputState::new();
    let mut listener = Listener::new();
    let first = send(&mut listener, &mut out, PollEvent::Wake);
    assert!(first.events.is_empty() && !first.warn);
    let (slots, events, last) = scan(
        &mut listener,
        &mut out,
        first.action,
        [None, Some(pad(0x1000, 30, 0)), None, Some(pad(0x0400, 0, 255))],
    );
    assert_eq!(slots, [0, 1, 2, 3]);
    assert_eq!(events, ["+A", "+LT", "+Guide", "+RT"]);
    assert_eq!(last, PollAction::Sleep { millis: 16 });
    assert!(!listener.is_connected(0) && listener.is_connected(1));
    assert_eq!(out, OutputState::new());
}

#[test]
fn changes_are_reported_once() {
    let mut out = OutputState::new();
    let mut listener = Listener::new();
    let held = [Some(pad(0x3000, 40, 0)), None, None, None];
    let first = send(&mut listener, &mut out, PollEvent::Wake).action;
    assert_eq!(scan(&mut listener, &mut out, first, held).1, ["+A", "+B", "+LT"]);
    let first = send(&mut listener, &mut out, PollEvent::Wake).action;
    assert!(scan(&mut listener, &mut out, first, held).1.is_empty());
    let first = send(&mut listener, &mut out, PollEvent::Wake).action;
    let next = [Some(pad(0x6000, 29, 31)), None, None, None];
    assert_eq!(scan(&mut listener, &mut out, first, next).1, ["-A", "+X", "-LT", "+RT"]);
}

#[test]
fn a_lost_controller_is_silent_and_forgotten_on_values() {
    let mut out = OutputState::new();
    let mut listener = Listener::new();
    let held = [None, None, Some(pad(0x8000, 0, 99)), None];
    let first = send(&mut listener, &mut out, PollEvent::Wake).action;
    assert_eq!(scan(&mut listener, &mut out, first, held).1, ["+Y", "+RT"]);
    let first = send(&mut listener, &mut out, PollEvent::Wake).action;
    assert!(scan(&mut listener, &mut out, first, [None; 4]).1.is_empty());
    assert!(!listener.is_connected(2));
    let first = send(&mut listener, &mut out, PollEvent::Wake).action;
    assert_eq!(scan(&mut listener, &mut out, first, held).1, ["+Y", "+RT"]);
    assert!(listener.is_connected(2));
}

#[test]
fn the_virtual_pad_is_created_located_and_fed() {
    let mut out = OutputState::new();
    out.vigem_wanted = true;
    out.suppress_buttons = 0x4000;
    press_canonical_key(&mut out, "LB", "LB").unwrap();
    let mut listener = Listener::new();
    assert_eq!(send(&mut listener, &mut out, PollEvent::Wake).action, PollAction::ConnectPad);
    assert!(out.vigem_owner);
    let connected = PollEvent::PadConnected { user_index: Some(2) };
    assert_eq!(send(&mut listener, &mut out, connected).action, PollAction::QueryUserIndex);
    assert_eq!(out.virtual_index, 2);
    let first = send(&mut listener, &mut out, PollEvent::UserIndex { index: Some(1) }).action;
    assert_eq!(out.virtual_index, 1);
    let readings =
        [None, Some(pad(0xffff, 9, 9)), Some(pad(0x5000, 7, 8)), Some(pad(0x0001, 0, 0))];
    let (slots, events, last) = scan(&mut listener, &mut out, first, readings);
    assert_eq!(slots, [0, 2, 3]);
    assert_eq!(events, ["+A", "+X", "+DUp"]);
    let report = pad(0x1100, 7, 8);
    assert_eq!(last, PollAction::SubmitReport { report });
    let done = send(&mut listener, &mut out, PollEvent::ReportDone).action;
    assert_eq!(done, PollAction::Sleep { millis: 16 });
    let again = send(&mut listener, &mut out, PollEvent::Wake).action;
    assert_eq!(again, PollAction::QueryUserIndex);
}

#[test]
fn without_a_controller_the_report_holds_the_macro_keys() {
    let mut out = OutputState::new();
    out.vigem_wanted = true;
    press_canonical_key(&mut out, "RT", "RT").unwrap();
    let mut listener = Listener::new();
    send(&mut listener, &mut out, PollEvent::Wake);
    send(&mut listener, &mut out, PollEvent::PadConnected { user_index: None });
    assert_eq!(out.virtual_index, -1);
    let first = send(&mut listener, &mut out, PollEvent::UserIndex { index: None }).action;
    let (slots, _, last) = scan(&mut listener, &mut out, first, [None; 4]);
    assert_eq!(slots, [0, 1, 2, 3]);
    let report = PadState {
        buttons: 0,
        left_trigger: 0,
        right_trigger: 255,
        thumb_lx: 0,
        thumb_ly: 0,
        thumb_rx: 0,
        thumb_ry: 0,
    };
    assert_eq!(last, PollAction::SubmitReport { report });
}

#[test]
fn an_unanswered_location_keeps_the_known_slot() {
    let mut out = OutputState::new();
    out.vigem_wanted = true;
    let mut listener = Listener::new();
    send(&mut listener, &mut out, PollEvent::Wake);
    send(&mut listener, &mut out, PollEvent::PadConnected { user_index: Some(0) });
    let first = send(&mut listener, &mut out, PollEvent::UserIndex { index: None }).action;
    assert_eq!(out.virtual_index, 0);
    assert_eq!(first, PollAction::ReadSlot { slot: 1 });
}

#[test]
fn a_failure_is_reported_once_and_retried() {
    let mut out = OutputState::new();
    out.vigem_wanted = true;
    let mut listener = Listener::new();
    for expected in [true, false] {
        assert_eq!(send(&mut listener, &mut out, PollEvent::Wake).action, PollAction::ConnectPad);
        let failed = send(&mut listener, &mut out, PollEvent::PadFailed);
        assert_eq!(failed.warn, expected);
        assert!(out.vigem_warned && !out.vigem_owner);
        let (_, _, last) = scan(&mut listener, &mut out, failed.action, [None; 4]);
        assert_eq!(last, PollAction::Sleep { millis: 16 });
    }
}

#[test]
fn a_second_listener_makes_no_second_pad_and_skips_the_slot() {
    let mut out = OutputState::new();
    out.vigem_wanted = true;
    let mut owner = Listener::new();
    let mut other = Listener::new();
    assert_eq!(send(&mut owner, &mut out, PollEvent::Wake).action, PollAction::ConnectPad);
    let first = send(&mut other, &mut out, PollEvent::Wake).action;
    assert_eq!(first, PollAction::ReadSlot { slot: 0 });
    send(&mut owner, &mut out, PollEvent::PadConnected { user_index: Some(3) });
    let (slots, _, last) = scan(&mut other, &mut out, first, [None; 4]);
    assert_eq!(slots, [0, 1, 2]);
    assert_eq!(last, PollAction::Sleep { millis: 16 });
}

#[test]
fn events_out_of_turn_are_not_accepted() {
    let mut out = OutputState::new();
    let mut listener = Listener::new();
    assert!(!listener.accepts(PollEvent::ReportDone));
    assert!(!listener.accepts(PollEvent::SlotRead { reading: None }));
    send(&mut listener, &mut out, PollEvent::Wake);
    assert!(!listener.accepts(PollEvent::Wake));
    assert!(!listener.accepts(PollEvent::PadFailed));
    assert!(listener.accepts(PollEvent::SlotRead { reading: None }));
}

#[test]
fn virtual_slots_are_skipped() {
    assert!(skip_virtual_slot(1, Some(1), -1));
    assert!(skip_virtual_slot(1, None, 1));
    assert!(skip_virtual_slot(1, Some(3), 1));
    assert!(!skip_virtual_slot(1, None, -1));
    assert!(!skip_virtual_slot(1, Some(0), 2));
    assert!(!skip_virtual_slot(u32::MAX, None, -1));
}

#[test]
fn a_slot_out_of_range_of_the_stored_index_is_not_known() {
    let mut out = OutputState::new();
    out.vigem_wanted = true;
    let mut listener = Listener::new();
    send(&mut listener, &mut out, PollEvent::Wake);
    send(&mut listener, &mut out, PollEvent::PadConnected { user_index: Some(u32::MAX) });
    assert_eq!(out.virtual_index, -1);
}

#[test]
fn a_slot_remembers_its_reading() {
    let empty = SlotState { connected: false, buttons: 0, left_trigger: 0, right_trigger: 0 };
    let (next, events) = observe_slot(empty, Some(pad(0x0010, 5, 30)));
    assert_eq!(
        next,
        SlotState { connected: true, buttons: 0x0010, left_trigger: 5, right_trigger: 30 }
    );
    assert_eq!(show(&events), ["+Start", "+RT"]);
    let (gone, events) = observe_slot(next, None);
    assert_eq!(gone, empty);
    assert!(events.is_empty());
    assert_eq!(observe_slot(empty, None).0, empty);
}
