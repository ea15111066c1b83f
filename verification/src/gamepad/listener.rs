//! The polling loop of a gamepad listener, as a state machine.
//!
//! A listener asks for one device operation at a time ([`PollAction`]) and is
//! told its outcome ([`PollEvent`]). One cycle creates the virtual pad if it is
//! wanted and free, learns its slot, reads the physical slots in order, submits
//! a report, and sleeps.

use vstd::prelude::*;

use crate::gamepad::buttons;
use crate::gamepad::edges;
use crate::gamepad::edges::{Edge, GamepadEvent};
use crate::gamepad::output;
use crate::gamepad::output::{OutputState, PadState};

verus! {

/// XInput serves this many controllers.
pub const SLOT_COUNT: u32 = 4;

/// Pause between two cycles.
pub const POLL_INTERVAL_MS: u64 = 16;

/// What a listener remembers of one slot.
#[derive(Debug, Clone, Copy, PartialEq, Eq, Structural)]
pub struct SlotState {
    pub connected: bool,
    pub buttons: u16,
    pub left_trigger: u8,
    pub right_trigger: u8,
}

impl SlotState {
    /// A slot without a controller.
    pub open spec fn empty() -> SlotState {
        SlotState { connected: false, buttons: 0, left_trigger: 0, right_trigger: 0 }
    }

    /// What is remembered after a reading; `None` means that no controller answered.
    pub open spec fn after(self, reading: Option<PadState>) -> SlotState {
        match reading {
            Some(pad) => SlotState {
                connected: true,
                buttons: pad.buttons,
                left_trigger: pad.left_trigger,
                right_trigger: pad.right_trigger,
            },
            None => if self.connected {
                SlotState::empty()
            } else {
                self
            },
        }
    }

    /// The edges that a reading brings: buttons, then left, then right trigger.
    /// A controller that goes away brings none.
    pub open spec fn edges(self, reading: Option<PadState>) -> Seq<Edge> {
        match reading {
            Some(pad) => edges::button_edges(pad.buttons, pad.buttons ^ self.buttons)
                + optional_edge(edges::trigger_edge("LT"@, self.left_trigger, pad.left_trigger))
                + optional_edge(edges::trigger_edge("RT"@, self.right_trigger, pad.right_trigger)),
            None => seq![],
        }
    }
}

/// No edge or one.
pub open spec fn optional_edge(edge: Option<Edge>) -> Seq<Edge> {
    match edge {
        Some(e) => seq![e],
        None => seq![],
    }
}

/// What the listener waits for.
#[derive(Debug, Clone, Copy, PartialEq, Eq, Structural)]
pub enum Phase {
    /// The next cycle.
    Resting,
    /// The outcome of creating the virtual pad.
    Connecting,
    /// The slot of the virtual pad.
    Locating,
    /// The state of a slot.
    Reading { slot: u32 },
    /// The end of a report's submission.
    Reporting,
}

/// The device operation to perform next.
#[derive(Debug, Clone, Copy, PartialEq, Eq, Structural)]
pub enum PollAction {
    /// Create the virtual pad, plug it in and ask for its slot.
    ConnectPad,
    /// Ask the virtual pad for its slot.
    QueryUserIndex,
    /// Read the state of a slot.
    ReadSlot { slot: u32 },
    /// Submit a report to the virtual pad.
    SubmitReport { report: PadState },
    /// Wait before the next cycle.
    Sleep { millis: u64 },
}

/// The outcome of the last operation.
#[derive(Debug, Clone, Copy, PartialEq, Eq, Structural)]
pub enum PollEvent {
    /// The listener starts, or its sleep is over.
    Wake,
    /// The virtual pad is plugged in; its slot, if the driver told it.
    PadConnected { user_index: Option<u32> },
    /// The virtual pad could not be created.
    PadFailed,
    /// The slot of the virtual pad, if the driver told it.
    UserIndex { index: Option<u32> },
    /// The state of the slot, or `None` where no controller answered.
    SlotRead { reading: Option<PadState> },
    /// The report was submitted or refused.
    ReportDone,
}

/// A listener as plain mathematical values.
#[verifier::ext_equal]
pub struct ListenerModel {
    pub phase: Phase,
    pub has_pad: bool,
    pub slots: Seq<SlotState>,
    pub local_index: Option<u32>,
    pub passthrough: Option<PadState>,
}

/// What one step does.
#[verifier::ext_equal]
pub struct StepModel {
    pub listener: ListenerModel,
    pub output: OutputState,
    pub action: PollAction,
    pub edges: Seq<Edge>,
    pub warn: bool,
}

/// Whether a slot belongs to the virtual pad, as this listener or any other
/// listener knows it.
pub open spec fn is_virtual_slot(index: u32, local: Option<u32>, stored: i32) -> bool {
    local == Some(index) || stored == index
}

/// The slots of the virtual pad are never read: the output of the macros would
/// come back as input.
pub fn skip_virtual_slot(index: u32, local: Option<u32>, stored: i32) -> (skip: bool)
    ensures
        skip == is_virtual_slot(index, local, stored),
{
    match local {
        Some(own) => {
            if own == index {
                return true;
            }
        },
        None => {},
    }
    stored >= 0 && stored as u32 == index
}

/// The first slot from `from` on that is not the virtual pad's.
pub open spec fn next_slot(from: int, local: Option<u32>, stored: i32) -> Option<u32>
    decreases SLOT_COUNT - from,
{
    if from < 0 || from >= SLOT_COUNT {
        None
    } else if is_virtual_slot(from as u32, local, stored) {
        next_slot(from + 1, local, stored)
    } else {
        Some(from as u32)
    }
}

impl OutputState {
    /// The state once a listener learned, or failed to learn, the virtual pad's slot.
    pub open spec fn located(self, index: Option<u32>) -> OutputState {
        match index {
            Some(i) => OutputState { virtual_index: i as i32, ..self },
            None => self,
        }
    }
}

impl ListenerModel {
    /// A listener before its first cycle.
    pub open spec fn initial() -> ListenerModel {
        ListenerModel {
            phase: Phase::Resting,
            has_pad: false,
            slots: Seq::new(SLOT_COUNT as nat, |i: int| SlotState::empty()),
            local_index: None,
            passthrough: None,
        }
    }

    /// What holds of every listener.
    pub open spec fn wf(self) -> bool {
        &&& self.slots.len() == SLOT_COUNT
        &&& forall|i: int|
            0 <= i < SLOT_COUNT && !(#[trigger] self.slots[i]).connected ==> self.slots[i]
                == SlotState::empty()
        &&& match self.phase {
            Phase::Resting => true,
            Phase::Connecting => !self.has_pad,
            Phase::Locating | Phase::Reporting => self.has_pad,
            Phase::Reading { slot } => slot < SLOT_COUNT,
        }
    }

    /// Whether the event is an outcome of the operation that was asked for.
    pub open spec fn accepts(self, event: PollEvent) -> bool {
        match self.phase {
            Phase::Resting => event is Wake,
            Phase::Connecting => event is PadConnected || event is PadFailed,
            Phase::Locating => event is UserIndex,
            Phase::Reading { .. } => event is SlotRead,
            Phase::Reporting => event is ReportDone,
        }
    }

    /// The end of a cycle's scan: a report where there is a virtual pad.
    pub open spec fn finish_scan(self, output: OutputState) -> (ListenerModel, PollAction) {
        if self.has_pad {
            (
                ListenerModel { phase: Phase::Reporting, ..self },
                PollAction::SubmitReport { report: output.report(self.passthrough) },
            )
        } else {
            (
                ListenerModel { phase: Phase::Resting, ..self },
                PollAction::Sleep { millis: POLL_INTERVAL_MS },
            )
        }
    }

    /// The scan goes on with the first physical slot from `from` on.
    pub open spec fn scan_from(self, output: OutputState, from: int) -> (
        ListenerModel,
        PollAction,
    ) {
        match next_slot(from, self.local_index, output.virtual_index) {
            Some(slot) => (
                ListenerModel { phase: Phase::Reading { slot }, ..self },
                PollAction::ReadSlot { slot },
            ),
            None => self.finish_scan(output),
        }
    }

    /// A new scan, with the virtual pad in `index` as far as this listener knows.
    pub open spec fn begin_scan(self, output: OutputState, index: Option<u32>) -> (
        ListenerModel,
        PollAction,
    ) {
        ListenerModel { local_index: index, passthrough: None, ..self }.scan_from(output, 0)
    }

    /// The cycle goes on once the virtual pad is settled: its slot may have changed.
    pub open spec fn locate(self, output: OutputState) -> (ListenerModel, PollAction) {
        if self.has_pad {
            (ListenerModel { phase: Phase::Locating, ..self }, PollAction::QueryUserIndex)
        } else {
            self.begin_scan(output, None)
        }
    }

    /// The listener after the slot it waits for was read: the first controller
    /// that answers in a cycle is passed through.
    pub open spec fn after_reading(self, slot: u32, reading: Option<PadState>) -> ListenerModel {
        ListenerModel {
            slots: self.slots.update(slot as int, self.slots[slot as int].after(reading)),
            passthrough: if self.passthrough is None {
                reading
            } else {
                self.passthrough
            },
            ..self
        }
    }

    /// One step of the machine.
    pub open spec fn step(self, output: OutputState, event: PollEvent) -> StepModel {
        match event {
            PollEvent::Wake => {
                if output.vigem_wanted && !self.has_pad && !output.vigem_owner {
                    StepModel {
                        listener: ListenerModel { phase: Phase::Connecting, ..self },
                        output: OutputState { vigem_owner: true, ..output },
                        action: PollAction::ConnectPad,
                        edges: seq![],
                        warn: false,
                    }
                } else {
                    let (listener, action) = self.locate(output);
                    StepModel { listener, output, action, edges: seq![], warn: false }
                }
            },
            PollEvent::PadConnected { user_index } => {
                let next = output.located(user_index);
                let (listener, action) = ListenerModel { has_pad: true, ..self }.locate(next);
                StepModel { listener, output: next, action, edges: seq![], warn: false }
            },
            PollEvent::PadFailed => {
                let next = OutputState { vigem_owner: false, vigem_warned: true, ..output };
                let (listener, action) = self.locate(next);
                StepModel {
                    listener,
                    output: next,
                    action,
                    edges: seq![],
                    warn: !output.vigem_warned,
                }
            },
            PollEvent::UserIndex { index } => {
                let next = output.located(index);
                let (listener, action) = self.begin_scan(next, index);
                StepModel { listener, output: next, action, edges: seq![], warn: false }
            },
            PollEvent::SlotRead { reading } => {
                let slot = self.phase->slot;
                let (listener, action) = self.after_reading(slot, reading).scan_from(
                    output,
                    slot + 1,
                );
                StepModel {
                    listener,
                    output,
                    action,
                    edges: self.slots[slot as int].edges(reading),
                    warn: false,
                }
            },
            PollEvent::ReportDone => StepModel {
                listener: ListenerModel { phase: Phase::Resting, ..self },
                output,
                action: PollAction::Sleep { millis: POLL_INTERVAL_MS },
                edges: seq![],
                warn: false,
            },
        }
    }
}

/// Compares a reading of a slot with what is remembered of it: what to remember
/// from now on, and the events.
pub fn observe_slot(previous: SlotState, reading: Option<PadState>) -> (res: (
    SlotState,
    Vec<GamepadEvent>,
))
    ensures
        res.0 == previous.after(reading),
        edges::edges_of(res.1@) == previous.edges(reading),
{
    match reading {
        Some(pad) => {
            let changed = pad.buttons ^ previous.buttons;
            let mut events: Vec<GamepadEvent> = if changed != 0 {
                edges::check_button_changes(pad.buttons, changed)
            } else {
                Vec::new()
            };
            proof {
                edges::no_change_no_edge(edges::button_table(), pad.buttons);
                assert(edges::edges_of(events@) =~= edges::button_edges(pad.buttons, changed));
            }
            push_event(
                &mut events,
                edges::check_trigger_edge("LT", previous.left_trigger, pad.left_trigger),
            );
            push_event(
                &mut events,
                edges::check_trigger_edge("RT", previous.right_trigger, pad.right_trigger),
            );
            let next = SlotState {
                connected: true,
                buttons: pad.buttons,
                left_trigger: pad.left_trigger,
                right_trigger: pad.right_trigger,
            };
            (next, events)
        },
        None => {
            let next = if previous.connected {
                SlotState { connected: false, buttons: 0, left_trigger: 0, right_trigger: 0 }
            } else {
                previous
            };
            let events: Vec<GamepadEvent> = Vec::new();
            assert(edges::edges_of(events@) =~= previous.edges(reading));
            (next, events)
        },
    }
}

fn push_event(events: &mut Vec<GamepadEvent>, event: Option<GamepadEvent>)
    ensures
        edges::edges_of(final(events)@) == edges::edges_of(old(events)@) + optional_edge(
            match event {
                Some(e) => Some(e@),
                None => None,
            },
        ),
{
    match event {
        Some(e) => {
            events.push(e);
        },
        None => {},
    }
    assert(edges::edges_of(events@) =~= edges::edges_of(old(events)@) + optional_edge(
        match event {
            Some(e) => Some(e@),
            None => None,
        },
    ));
}

/// One gamepad listener.
#[derive(Debug)]
pub struct Listener {
    phase: Phase,
    has_pad: bool,
    slots: [SlotState; 4],
    local_index: Option<u32>,
    passthrough: Option<PadState>,
}

/// The outcome of one step: what to do next, what happened on the controller,
/// and whether to report that the virtual pad could not be created.
#[derive(Debug)]
pub struct StepOutcome {
    pub action: PollAction,
    pub events: Vec<GamepadEvent>,
    pub warn: bool,
}

impl View for Listener {
    type V = ListenerModel;

    closed spec fn view(&self) -> ListenerModel {
        ListenerModel {
            phase: self.phase,
            has_pad: self.has_pad,
            slots: self.slots@,
            local_index: self.local_index,
            passthrough: self.passthrough,
        }
    }
}

impl Listener {
    /// No controller seen and no virtual pad.
    pub fn new() -> (listener: Listener)
        ensures
            listener@ == ListenerModel::initial(),
            listener@.wf(),
    {
        let empty = SlotState { connected: false, buttons: 0, left_trigger: 0, right_trigger: 0 };
        let listener = Listener {
            phase: Phase::Resting,
            has_pad: false,
            slots: [empty, empty, empty, empty],
            local_index: None,
            passthrough: None,
        };
        assert(listener@ =~= ListenerModel::initial());
        listener
    }

    /// Whether a controller answered in the slot when it was last read.
    pub fn is_connected(&self, slot: u32) -> (connected: bool)
        requires
            self@.wf(),
            slot < SLOT_COUNT,
        ensures
            connected == self@.slots[slot as int].connected,
    {
        self.slots[slot as usize].connected
    }

    /// Whether the event is an outcome of the operation that was asked for.
    pub fn accepts(&self, event: PollEvent) -> (accepted: bool)
        ensures
            accepted == self@.accepts(event),
    {
        match (self.phase, event) {
            (Phase::Resting, PollEvent::Wake) => true,
            (Phase::Connecting, PollEvent::PadConnected { .. }) => true,
            (Phase::Connecting, PollEvent::PadFailed) => true,
            (Phase::Locating, PollEvent::UserIndex { .. }) => true,
            (Phase::Reading { .. }, PollEvent::SlotRead { .. }) => true,
            (Phase::Reporting, PollEvent::ReportDone) => true,
            _ => false,
        }
    }

    fn finish_scan(&mut self, out: &OutputState) -> (action: PollAction)
        ensures
            (final(self)@, action) == old(self)@.finish_scan(*out),
    {
        if self.has_pad {
            self.phase = Phase::Reporting;
            PollAction::SubmitReport { report: output::compose_report(out, self.passthrough) }
        } else {
            self.phase = Phase::Resting;
            PollAction::Sleep { millis: POLL_INTERVAL_MS }
        }
    }

    fn scan_from(&mut self, out: &OutputState, from: u32) -> (action: PollAction)
        ensures
            (final(self)@, action) == old(self)@.scan_from(*out, from as int),
    {
        let mut slot: u32 = from;
        while slot < SLOT_COUNT
            invariant
                next_slot(from as int, self.local_index, out.virtual_index) == next_slot(
                    slot as int,
                    self.local_index,
                    out.virtual_index,
                ),
                *self == *old(self),
            decreases SLOT_COUNT - slot,
        {
            if !skip_virtual_slot(slot, self.local_index, out.virtual_index) {
                self.phase = Phase::Reading { slot };
                return PollAction::ReadSlot { slot };
            }
            slot = slot + 1;
        }
        self.finish_scan(out)
    }

    fn begin_scan(&mut self, out: &OutputState, index: Option<u32>) -> (action: PollAction)
        ensures
            (final(self)@, action) == old(self)@.begin_scan(*out, index),
    {
        self.local_index = index;
        self.passthrough = None;
        self.scan_from(out, 0)
    }

    fn locate(&mut self, out: &OutputState) -> (action: PollAction)
        ensures
            (final(self)@, action) == old(self)@.locate(*out),
    {
        if self.has_pad {
            self.phase = Phase::Locating;
            PollAction::QueryUserIndex
        } else {
            self.begin_scan(out, None)
        }
    }

    /// Takes the outcome of the last operation and says what to do next.
    pub fn step(&mut self, out: &mut OutputState, event: PollEvent) -> (outcome: StepOutcome)
        requires
            old(self)@.wf(),
            old(self)@.accepts(event),
        ensures
            ({
                let step = old(self)@.step(*old(out), event);
                &&& final(self)@ == step.listener
                &&& *final(out) == step.output
                &&& outcome.action == step.action
                &&& edges::edges_of(outcome.events@) == step.edges
                &&& outcome.warn == step.warn
            }),
            final(self)@.wf(),
    {
        let mut events: Vec<GamepadEvent> = Vec::new();
        let mut warn = false;
        assert(edges::edges_of(events@) =~= seq![]);
        let action = match event {
            PollEvent::Wake => {
                if out.vigem_wanted && !self.has_pad && !out.vigem_owner {
                    out.vigem_owner = true;
                    self.phase = Phase::Connecting;
                    PollAction::ConnectPad
                } else {
                    self.locate(out)
                }
            },
            PollEvent::PadConnected { user_index } => {
                store_index(out, user_index);
                self.has_pad = true;
                self.locate(out)
            },
            PollEvent::PadFailed => {
                out.vigem_owner = false;
                warn = !out.vigem_warned;
                out.vigem_warned = true;
                self.locate(out)
            },
            PollEvent::UserIndex { index } => {
                store_index(out, index);
                self.begin_scan(out, index)
            },
            PollEvent::SlotRead { reading } => {
                let slot: u32 = match self.phase {
                    Phase::Reading { slot } => slot,
                    _ => 0,
                };
                let (next, found) = observe_slot(self.slots[slot as usize], reading);
                events = found;
                self.slots[slot as usize] = next;
                if self.passthrough.is_none() {
                    self.passthrough = reading;
                }
                assert(self@ =~= old(self)@.after_reading(slot, reading));
                self.scan_from(out, slot + 1)
            },
            PollEvent::ReportDone => {
                self.phase = Phase::Resting;
                PollAction::Sleep { millis: POLL_INTERVAL_MS }
            },
        };
        proof {
            step_keeps_wf(old(self)@, *old(out), event);
        }
        StepOutcome { action, events, warn }
    }
}

fn store_index(out: &mut OutputState, index: Option<u32>)
    ensures
        *final(out) == old(out).located(index),
{
    match index {
        Some(i) => {
            out.virtual_index = i as i32;
        },
        None => {},
    }
}

/// A slot that the scan stops at is a physical one, and the first from `from` on.
pub proof fn next_slot_is_first(from: int, local: Option<u32>, stored: i32)
    requires
        0 <= from,
    ensures
        match next_slot(from, local, stored) {
            Some(slot) => {
                &&& from <= slot < SLOT_COUNT
                &&& !is_virtual_slot(slot, local, stored)
                &&& forall|i: u32| from <= i < slot ==> is_virtual_slot(i, local, stored)
            },
            None => forall|i: u32|
                from <= i < SLOT_COUNT ==> is_virtual_slot(i, local, stored),
        },
    decreases SLOT_COUNT - from,
{
    if from < SLOT_COUNT {
        if is_virtual_slot(from as u32, local, stored) {
            next_slot_is_first(from + 1, local, stored);
        }
    }
}

/// Every step keeps a listener well formed: a slot without a controller
/// remembers nothing, and the phases that need the virtual pad have it.
pub proof fn step_keeps_wf(listener: ListenerModel, output: OutputState, event: PollEvent)
    requires
        listener.wf(),
        listener.accepts(event),
    ensures
        listener.step(output, event).listener.wf(),
{
    let step = listener.step(output, event);
    if let PollEvent::SlotRead { .. } = event {
        let slot = listener.phase->slot;
        next_slot_is_first(slot + 1, listener.local_index, output.virtual_index);
    }
    next_slot_is_first(0, None, step.output.virtual_index);
    if let PollEvent::UserIndex { index } = event {
        next_slot_is_first(0, index, step.output.virtual_index);
    }
}

/// The machine never asks for the slot of the virtual pad, as this listener or
/// any other knows it.
pub proof fn never_reads_the_virtual_slot(
    listener: ListenerModel,
    output: OutputState,
    event: PollEvent,
)
    requires
        listener.wf(),
        listener.accepts(event),
    ensures
        ({
            let step = listener.step(output, event);
            step.action matches PollAction::ReadSlot { slot } ==> slot < SLOT_COUNT
                && !is_virtual_slot(slot, step.listener.local_index, step.output.virtual_index)
        }),
{
    let step = listener.step(output, event);
    if let PollEvent::SlotRead { .. } = event {
        let slot = listener.phase->slot;
        next_slot_is_first(slot + 1, listener.local_index, output.virtual_index);
    }
    next_slot_is_first(0, None, step.output.virtual_index);
    if let PollEvent::UserIndex { index } = event {
        next_slot_is_first(0, index, step.output.virtual_index);
    }
}

/// Once one listener knows the slot of the virtual pad, every listener skips it.
pub proof fn known_slot_is_skipped_by_all(output: OutputState, index: u32, local: Option<u32>)
    requires
        index <= i32::MAX,
    ensures
        is_virtual_slot(index, local, output.located(Some(index)).virtual_index),
{
}

/// The listener has the virtual pad or is creating it.
pub open spec fn owns_pad(listener: ListenerModel) -> bool {
    listener.has_pad || listener.phase is Connecting
}

/// At most one listener has, or is creating, the virtual pad, and the shared state
/// tells whether one does.
pub open spec fn single_owner(listeners: Seq<ListenerModel>, output: OutputState) -> bool {
    &&& output.vigem_owner <==> exists|i: int|
        0 <= i < listeners.len() && owns_pad(#[trigger] listeners[i])
    &&& forall|i: int, j: int|
        0 <= i < listeners.len() && 0 <= j < listeners.len() && owns_pad(#[trigger] listeners[i])
            && owns_pad(#[trigger] listeners[j]) ==> i == j
}

/// However many listeners run, no step of any of them makes a second virtual pad.
pub proof fn at_most_one_virtual_pad(
    listeners: Seq<ListenerModel>,
    k: int,
    output: OutputState,
    event: PollEvent,
)
    requires
        single_owner(listeners, output),
        0 <= k < listeners.len(),
        listeners[k].wf(),
        listeners[k].accepts(event),
    ensures
        ({
            let step = listeners[k].step(output, event);
            single_owner(listeners.update(k, step.listener), step.output)
        }),
{
    let step = listeners[k].step(output, event);
    let next = listeners.update(k, step.listener);
    assert forall|i: int| 0 <= i < next.len() && i != k implies #[trigger] next[i]
        == listeners[i] by {}
    assert(next[k] == step.listener);
    if owns_pad(step.listener) {
        assert(owns_pad(next[k]));
    }
    if exists|i: int| 0 <= i < listeners.len() && owns_pad(#[trigger] listeners[i]) {
        let i = choose|i: int| 0 <= i < listeners.len() && owns_pad(#[trigger] listeners[i]);
        assert(i != k ==> next[i] == listeners[i]);
    }
}

/// A new listener owns nothing.
pub proof fn new_listener_owns_nothing(listeners: Seq<ListenerModel>, output: OutputState)
    requires
        single_owner(listeners, output),
    ensures
        single_owner(listeners.push(ListenerModel::initial()), output),
        single_owner(seq![], OutputState::initial()),
{
    let more = listeners.push(ListenerModel::initial());
    assert forall|i: int| 0 <= i < listeners.len() implies #[trigger] more[i] == listeners[i] by {}
    if exists|i: int| 0 <= i < listeners.len() && owns_pad(#[trigger] listeners[i]) {
        let i = choose|i: int| 0 <= i < listeners.len() && owns_pad(#[trigger] listeners[i]);
        assert(owns_pad(more[i]));
    }
}

/// The virtual pad is created exactly where it is wanted, this listener has none
/// and no listener has or is creating it; a listener that has it keeps it.
pub proof fn pad_is_created_where_wanted_and_free(
    listener: ListenerModel,
    output: OutputState,
    event: PollEvent,
)
    requires
        listener.wf(),
        listener.accepts(event),
    ensures
        ({
            let step = listener.step(output, event);
            &&& step.action is ConnectPad <==> event is Wake && output.vigem_wanted
                && !listener.has_pad && !output.vigem_owner
            &&& listener.has_pad ==> step.listener.has_pad
        }),
{
}

/// Without the driver the listener goes on: after a failure it reads the slots as
/// it does where no virtual pad is wanted.
pub proof fn failure_does_not_stop_the_cycle(listener: ListenerModel, output: OutputState)
    requires
        listener.wf(),
        listener.phase is Connecting,
    ensures
        ({
            let failed = listener.step(output, PollEvent::PadFailed);
            let unwanted = (ListenerModel { phase: Phase::Resting, ..listener }).step(
                OutputState { vigem_wanted: false, ..output },
                PollEvent::Wake,
            );
            failed.listener == unwanted.listener && failed.action == unwanted.action
        }),
{
}

/// A failure to create the virtual pad is reported the first time only.
pub proof fn warns_at_most_once(listener: ListenerModel, output: OutputState, event: PollEvent)
    ensures
        ({
            let step = listener.step(output, event);
            &&& step.warn ==> event is PadFailed && !output.vigem_warned
            &&& event is PadFailed ==> step.output.vigem_warned
            &&& output.vigem_warned ==> step.output.vigem_warned
        }),
{
}

/// A controller that goes away brings no events and is forgotten.
pub proof fn lost_controller_is_forgotten(slot: SlotState)
    requires
        !slot.connected ==> slot == SlotState::empty(),
    ensures
        slot.edges(None) == Seq::<Edge>::empty(),
        slot.after(None) == SlotState::empty(),
{
}

/// The events of a reading tell the whole change: whoever follows them knows of
/// every button and of both triggers whether they are held.
pub proof fn slot_edges_replay_to_reading(slot: SlotState, pad: PadState, i: int)
    requires
        0 <= i < edges::button_table().len(),
    ensures
        ({
            let (mask, name) = edges::button_table()[i];
            edges::replay(slot.buttons & mask != 0, name, slot.edges(Some(pad))) == (pad.buttons
                & mask != 0)
        }),
        edges::replay(
            slot.left_trigger >= edges::TRIGGER_THRESHOLD,
            "LT"@,
            slot.edges(Some(pad)),
        ) == (pad.left_trigger >= edges::TRIGGER_THRESHOLD),
        edges::replay(
            slot.right_trigger >= edges::TRIGGER_THRESHOLD,
            "RT"@,
            slot.edges(Some(pad)),
        ) == (pad.right_trigger >= edges::TRIGGER_THRESHOLD),
{
    let presses = edges::button_edges(pad.buttons, pad.buttons ^ slot.buttons);
    let left = optional_edge(edges::trigger_edge("LT"@, slot.left_trigger, pad.left_trigger));
    let right = optional_edge(edges::trigger_edge("RT"@, slot.right_trigger, pad.right_trigger));
    let (mask, name) = edges::button_table()[i];
    let held = slot.buttons & mask != 0;
    let left_held = slot.left_trigger >= edges::TRIGGER_THRESHOLD;
    let right_held = slot.right_trigger >= edges::TRIGGER_THRESHOLD;
    buttons::trigger_names();

    edges::event_names_are_button_names(i);
    edges::button_edges_replay_to_current(i, slot.buttons, pad.buttons);
    edges::replay_concat(held, name, presses, left);
    edges::replay_concat(held, name, presses + left, right);
    edges::replay_of_others(pad.buttons & mask != 0, name, left);
    edges::replay_of_others(pad.buttons & mask != 0, name, right);

    assert forall|k: int| 0 <= k < presses.len() implies (#[trigger] presses[k]).button != "LT"@
        && presses[k].button != "RT"@ by {
        let j = edges::button_edges_are_changes(k, slot.buttons, pad.buttons);
        edges::event_names_are_button_names(j);
    }
    edges::replay_concat(left_held, "LT"@, presses, left);
    edges::replay_concat(left_held, "LT"@, presses + left, right);
    edges::replay_of_others(left_held, "LT"@, presses);
    edges::replay_of_others(pad.left_trigger >= edges::TRIGGER_THRESHOLD, "LT"@, right);
    edges::replay_concat(right_held, "RT"@, presses, left);
    edges::replay_concat(right_held, "RT"@, presses + left, right);
    edges::replay_of_others(right_held, "RT"@, presses);
    edges::replay_of_others(right_held, "RT"@, left);
    reveal_with_fuel(edges::replay, 2);
}

/// A controller that appears reports what it holds, and nothing as released.
pub proof fn fresh_controller_only_presses(pad: PadState, k: int)
    requires
        0 <= k < SlotState::empty().edges(Some(pad)).len(),
    ensures
        SlotState::empty().edges(Some(pad))[k].pressed,
{
    let current = pad.buttons;
    let presses = edges::button_edges(current, current ^ 0);
    if k < presses.len() {
        let i = edges::button_edges_are_changes(k, 0, current);
        let mask = edges::button_table()[i].0;
        assert(0u16 & mask == 0) by (bit_vector);
    }
}

/// The edges of the physical slots from `from` on, in the order of the slots.
pub open spec fn scan_edges(
    slots: Seq<SlotState>,
    readings: Seq<Option<PadState>>,
    local: Option<u32>,
    stored: i32,
    from: int,
) -> Seq<Edge>
    decreases SLOT_COUNT - from,
{
    if from >= SLOT_COUNT {
        seq![]
    } else if is_virtual_slot(from as u32, local, stored) {
        scan_edges(slots, readings, local, stored, from + 1)
    } else {
        slots[from].edges(readings[from]) + scan_edges(slots, readings, local, stored, from + 1)
    }
}

/// The first physical controller from slot `from` on that answers.
pub open spec fn first_answer(
    readings: Seq<Option<PadState>>,
    local: Option<u32>,
    stored: i32,
    from: int,
) -> Option<PadState>
    decreases SLOT_COUNT - from,
{
    if from >= SLOT_COUNT {
        None
    } else if is_virtual_slot(from as u32, local, stored) || readings[from] is None {
        first_answer(readings, local, stored, from + 1)
    } else {
        readings[from]
    }
}

/// The slots after every physical one from `from` on was read.
pub open spec fn scanned_slots(
    slots: Seq<SlotState>,
    readings: Seq<Option<PadState>>,
    local: Option<u32>,
    stored: i32,
    from: int,
) -> Seq<SlotState> {
    Seq::new(
        slots.len(),
        |i: int|
            if i < from || is_virtual_slot(i as u32, local, stored) {
                slots[i]
            } else {
                slots[i].after(readings[i])
            },
    )
}

/// A listener at the end of a scan, what it asks for then, and the edges on the way.
#[verifier::ext_equal]
pub struct ScanModel {
    pub listener: ListenerModel,
    pub action: PollAction,
    pub edges: Seq<Edge>,
}

/// Runs the machine to the end of its scan: each slot that it asks for is answered
/// with its entry in `readings`, and no other thread changes the shared state.
pub open spec fn run_scan(
    listener: ListenerModel,
    action: PollAction,
    output: OutputState,
    readings: Seq<Option<PadState>>,
) -> ScanModel
    decreases
            (match listener.phase {
                Phase::Reading { slot } => if slot < SLOT_COUNT {
                    SLOT_COUNT - slot
                } else {
                    0
                },
                _ => 0,
            }),
{
    match listener.phase {
        Phase::Reading { slot } if slot < SLOT_COUNT => {
            let step = listener.step(
                output,
                PollEvent::SlotRead { reading: readings[slot as int] },
            );
            proof {
                next_slot_is_first(slot + 1, listener.local_index, output.virtual_index);
            }
            let rest = run_scan(step.listener, step.action, output, readings);
            ScanModel { edges: step.edges + rest.edges, ..rest }
        },
        _ => ScanModel { listener, action, edges: seq![] },
    }
}

/// What a scan from slot `from` on amounts to.
pub open spec fn scan_outcome(
    listener: ListenerModel,
    output: OutputState,
    readings: Seq<Option<PadState>>,
    from: int,
) -> ScanModel {
    let local = listener.local_index;
    let stored = output.virtual_index;
    let (end, action) = (ListenerModel {
        slots: scanned_slots(listener.slots, readings, local, stored, from),
        passthrough: if listener.passthrough is None {
            first_answer(readings, local, stored, from)
        } else {
            listener.passthrough
        },
        ..listener
    }).finish_scan(output);
    ScanModel {
        listener: end,
        action,
        edges: scan_edges(listener.slots, readings, local, stored, from),
    }
}

proof fn scan_edges_depend_on_slots_ahead(
    a: Seq<SlotState>,
    b: Seq<SlotState>,
    readings: Seq<Option<PadState>>,
    local: Option<u32>,
    stored: i32,
    from: int,
)
    requires
        0 <= from,
        forall|i: int| from <= i < SLOT_COUNT ==> #[trigger] a[i] == b[i],
    ensures
        scan_edges(a, readings, local, stored, from) == scan_edges(
            b,
            readings,
            local,
            stored,
            from,
        ),
    decreases SLOT_COUNT - from,
{
    if from < SLOT_COUNT {
        assert(a[from] == b[from]);
        scan_edges_depend_on_slots_ahead(a, b, readings, local, stored, from + 1);
    }
}

proof fn scan_runs_to_outcome(
    listener: ListenerModel,
    output: OutputState,
    readings: Seq<Option<PadState>>,
    from: int,
)
    requires
        listener.slots.len() == SLOT_COUNT,
        0 <= from <= SLOT_COUNT,
    ensures
        ({
            let (next, action) = listener.scan_from(output, from);
            run_scan(next, action, output, readings) == scan_outcome(
                listener,
                output,
                readings,
                from,
            )
        }),
    decreases SLOT_COUNT - from,
{
    let local = listener.local_index;
    let stored = output.virtual_index;
    let (next, action) = listener.scan_from(output, from);
    let outcome = scan_outcome(listener, output, readings, from);
    if from == SLOT_COUNT {
        assert(scanned_slots(listener.slots, readings, local, stored, from) =~= listener.slots);
        assert(run_scan(next, action, output, readings) =~= outcome);
    } else if is_virtual_slot(from as u32, local, stored) {
        scan_runs_to_outcome(listener, output, readings, from + 1);
        assert(scanned_slots(listener.slots, readings, local, stored, from) =~= scanned_slots(
            listener.slots,
            readings,
            local,
            stored,
            from + 1,
        ));
    } else {
        let reading = readings[from];
        let read = next.after_reading(from as u32, reading);
        scan_runs_to_outcome(read, output, readings, from + 1);
        scan_edges_depend_on_slots_ahead(
            read.slots,
            listener.slots,
            readings,
            local,
            stored,
            from + 1,
        );
        assert(scanned_slots(listener.slots, readings, local, stored, from) =~= scanned_slots(
            read.slots,
            readings,
            local,
            stored,
            from + 1,
        ));
        assert(run_scan(next, action, output, readings) =~= outcome);
    }
}

/// One whole scan, with no other thread changing the shared state. Every physical
/// slot is read once and in order: its events come out, and it is remembered. The
/// slot of the virtual pad keeps what is remembered. The report, where there is a
/// virtual pad, passes through the first physical controller that answered; without
/// a virtual pad the cycle ends.
pub proof fn scan_reads_every_physical_slot(
    listener: ListenerModel,
    output: OutputState,
    index: Option<u32>,
    readings: Seq<Option<PadState>>,
)
    requires
        listener.wf(),
        readings.len() == SLOT_COUNT,
    ensures
        ({
            let stored = output.virtual_index;
            let (start, action) = listener.begin_scan(output, index);
            let end = run_scan(start, action, output, readings);
            &&& end.listener.slots == scanned_slots(listener.slots, readings, index, stored, 0)
            &&& end.edges == scan_edges(listener.slots, readings, index, stored, 0)
            &&& end.action == if listener.has_pad {
                PollAction::SubmitReport {
                    report: output.report(first_answer(readings, index, stored, 0)),
                }
            } else {
                PollAction::Sleep { millis: POLL_INTERVAL_MS }
            }
            &&& end.listener.phase == if listener.has_pad {
                Phase::Reporting
            } else {
                Phase::Resting
            }
        }),
{
    let begun = ListenerModel { local_index: index, passthrough: None, ..listener };
    scan_runs_to_outcome(begun, output, readings, 0);
}

proof fn changed_bit(prev: u16, current: u16, bit: u16)
    requires
        bit != 0,
        bit & (bit - 1) as u16 == 0,
    ensures
        (current ^ prev) & bit != 0 <==> (prev & bit == 0) != (current & bit == 0),
{
    assert((current ^ prev) & bit != 0 <==> (prev & bit == 0) != (current & bit == 0))
        by (bit_vector)
        requires
            bit != 0,
            bit & (bit - 1) as u16 == 0,
    ;
}

proof fn single_bits()
    ensures
        forall|bit: u16|
            bit == 0x0001 || bit == 0x0002 || bit == 0x0004 || bit == 0x0008 || bit == 0x0010 || bit
                == 0x0020 || bit == 0x0040 || bit == 0x0080 || bit == 0x0100 || bit == 0x0200 || bit
                == 0x0400 || bit == 0x1000 || bit == 0x2000 || bit == 0x4000 || bit == 0x8000
                ==> #[trigger] (bit & (bit - 1) as u16) == 0,
{
    assert(forall|bit: u16|
        bit == 0x0001 || bit == 0x0002 || bit == 0x0004 || bit == 0x0008 || bit == 0x0010 || bit
            == 0x0020 || bit == 0x0040 || bit == 0x0080 || bit == 0x0100 || bit == 0x0200 || bit
            == 0x0400 || bit == 0x1000 || bit == 0x2000 || bit == 0x4000 || bit == 0x8000
            ==> #[trigger] (bit & (bit - 1) as u16) == 0) by (bit_vector);
}

proof fn slot_edge_without_trigger(slot: SlotState, pad: PadState, edge: Edge)
    requires
        edge.button != "LT"@,
        edge.button != "RT"@,
    ensures
        slot.edges(Some(pad)).contains(edge) <==> edges::button_edges(
            pad.buttons,
            pad.buttons ^ slot.buttons,
        ).contains(edge),
{
    let presses = edges::button_edges(pad.buttons, pad.buttons ^ slot.buttons);
    let all = slot.edges(Some(pad));
    if presses.contains(edge) {
        let k = presses.index_of(edge);
        assert(all[k] == edge);
    }
    if all.contains(edge) {
        let k = all.index_of(edge);
        assert(k < presses.len());
        assert(presses[k] == edge);
    }
}

/// The edges of a reading that name no trigger are those of the buttons.
proof fn slot_edges_without_triggers(slot: SlotState, pad: PadState, name: Seq<char>)
    requires
        name != "LT"@,
        name != "RT"@,
    ensures
        ({
            let all = slot.edges(Some(pad));
            let presses = edges::button_edges(pad.buttons, pad.buttons ^ slot.buttons);
            let press = Edge { pressed: true, button: name };
            let release = Edge { pressed: false, button: name };
            &&& all.contains(press) <==> presses.contains(press)
            &&& all.contains(release) <==> presses.contains(release)
        }),
{
    slot_edge_without_trigger(slot, pad, Edge { pressed: true, button: name });
    slot_edge_without_trigger(slot, pad, Edge { pressed: false, button: name });
}

proof fn slot_button_edges(slot: SlotState, pad: PadState, name: Seq<char>, mask: u16)
    requires
        mask & (mask - 1) as u16 == 0,
        mask != 0,
        buttons::name_mask(name) is Some,
        ({
            let changed = pad.buttons ^ slot.buttons;
            let presses = edges::button_edges(pad.buttons, changed);
            &&& presses.contains(Edge { pressed: true, button: name }) <==> changed & mask != 0
                && pad.buttons & mask != 0
            &&& presses.contains(Edge { pressed: false, button: name }) <==> changed & mask != 0
                && pad.buttons & mask == 0
        }),
    ensures
        ({
            let edges = slot.edges(Some(pad));
            &&& edges.contains(Edge { pressed: true, button: name }) <==> slot.buttons & mask == 0
                && pad.buttons & mask != 0
            &&& edges.contains(Edge { pressed: false, button: name }) <==> slot.buttons & mask != 0
                && pad.buttons & mask == 0
        }),
{
    buttons::trigger_names();
    slot_edges_without_triggers(slot, pad, name);
    changed_bit(slot.buttons, pad.buttons, mask);
}

/// What the button events of a reading are: a button is pressed, or released, exactly
/// where its bit was clear and is set, or was set and is clear.
pub proof fn slot_edges_tell_each_button_change(slot: SlotState, pad: PadState)
    ensures
        ({
            let edges = slot.edges(Some(pad));
            &&& edges.contains(Edge { pressed: true, button: "DUp"@ }) <==> slot.buttons & 0x0001 == 0
                && pad.buttons & 0x0001 != 0
            &&& edges.contains(Edge { pressed: false, button: "DUp"@ }) <==> slot.buttons & 0x0001 != 0
                && pad.buttons & 0x0001 == 0
            &&& edges.contains(Edge { pressed: true, button: "DDown"@ }) <==> slot.buttons & 0x0002 == 0
                && pad.buttons & 0x0002 != 0
            &&& edges.contains(Edge { pressed: false, button: "DDown"@ }) <==> slot.buttons & 0x0002 != 0
                && pad.buttons & 0x0002 == 0
            &&& edges.contains(Edge { pressed: true, button: "DLeft"@ }) <==> slot.buttons & 0x0004 == 0
                && pad.buttons & 0x0004 != 0
            &&& edges.contains(Edge { pressed: false, button: "DLeft"@ }) <==> slot.buttons & 0x0004 != 0
                && pad.buttons & 0x0004 == 0
            &&& edges.contains(Edge { pressed: true, button: "DRight"@ }) <==> slot.buttons & 0x0008 == 0
                && pad.buttons & 0x0008 != 0
            &&& edges.contains(Edge { pressed: false, button: "DRight"@ }) <==> slot.buttons & 0x0008 != 0
                && pad.buttons & 0x0008 == 0
            &&& edges.contains(Edge { pressed: true, button: "Start"@ }) <==> slot.buttons & 0x0010 == 0
                && pad.buttons & 0x0010 != 0
            &&& edges.contains(Edge { pressed: false, button: "Start"@ }) <==> slot.buttons & 0x0010 != 0
                && pad.buttons & 0x0010 == 0
            &&& edges.contains(Edge { pressed: true, button: "Back"@ }) <==> slot.buttons & 0x0020 == 0
                && pad.buttons & 0x0020 != 0
            &&& edges.contains(Edge { pressed: false, button: "Back"@ }) <==> slot.buttons & 0x0020 != 0
                && pad.buttons & 0x0020 == 0
            &&& edges.contains(Edge { pressed: true, button: "LS"@ }) <==> slot.buttons & 0x0040 == 0
                && pad.buttons & 0x0040 != 0
            &&& edges.contains(Edge { pressed: false, button: "LS"@ }) <==> slot.buttons & 0x0040 != 0
                && pad.buttons & 0x0040 == 0
            &&& edges.contains(Edge { pressed: true, button: "RS"@ }) <==> slot.buttons & 0x0080 == 0
                && pad.buttons & 0x0080 != 0
            &&& edges.contains(Edge { pressed: false, button: "RS"@ }) <==> slot.buttons & 0x0080 != 0
                && pad.buttons & 0x0080 == 0
            &&& edges.contains(Edge { pressed: true, button: "LB"@ }) <==> slot.buttons & 0x0100 == 0
                && pad.buttons & 0x0100 != 0
            &&& edges.contains(Edge { pressed: false, button: "LB"@ }) <==> slot.buttons & 0x0100 != 0
                && pad.buttons & 0x0100 == 0
            &&& edges.contains(Edge { pressed: true, button: "RB"@ }) <==> slot.buttons & 0x0200 == 0
                && pad.buttons & 0x0200 != 0
            &&& edges.contains(Edge { pressed: false, button: "RB"@ }) <==> slot.buttons & 0x0200 != 0
                && pad.buttons & 0x0200 == 0
            &&& edges.contains(Edge { pressed: true, button: "A"@ }) <==> slot.buttons & 0x1000 == 0
                && pad.buttons & 0x1000 != 0
            &&& edges.contains(Edge { pressed: false, button: "A"@ }) <==> slot.buttons & 0x1000 != 0
                && pad.buttons & 0x1000 == 0
            &&& edges.contains(Edge { pressed: true, button: "B"@ }) <==> slot.buttons & 0x2000 == 0
                && pad.buttons & 0x2000 != 0
            &&& edges.contains(Edge { pressed: false, button: "B"@ }) <==> slot.buttons & 0x2000 != 0
                && pad.buttons & 0x2000 == 0
            &&& edges.contains(Edge { pressed: true, button: "X"@ }) <==> slot.buttons & 0x4000 == 0
                && pad.buttons & 0x4000 != 0
            &&& edges.contains(Edge { pressed: false, button: "X"@ }) <==> slot.buttons & 0x4000 != 0
                && pad.buttons & 0x4000 == 0
            &&& edges.contains(Edge { pressed: true, button: "Y"@ }) <==> slot.buttons & 0x8000 == 0
                && pad.buttons & 0x8000 != 0
            &&& edges.contains(Edge { pressed: false, button: "Y"@ }) <==> slot.buttons & 0x8000 != 0
                && pad.buttons & 0x8000 == 0
            &&& edges.contains(Edge { pressed: true, button: "Guide"@ }) <==> slot.buttons & 0x0400 == 0
                && pad.buttons & 0x0400 != 0
            &&& edges.contains(Edge { pressed: false, button: "Guide"@ }) <==> slot.buttons & 0x0400 != 0
                && pad.buttons & 0x0400 == 0
        }),
{
    buttons::reported_names_have_masks();
    edges::button_edges_tell_each_change(pad.buttons, pad.buttons ^ slot.buttons);
    single_bits();
    slot_button_edges(slot, pad, "DUp"@, 0x0001);
    slot_button_edges(slot, pad, "DDown"@, 0x0002);
    slot_button_edges(slot, pad, "DLeft"@, 0x0004);
    slot_button_edges(slot, pad, "DRight"@, 0x0008);
    slot_button_edges(slot, pad, "Start"@, 0x0010);
    slot_button_edges(slot, pad, "Back"@, 0x0020);
    slot_button_edges(slot, pad, "LS"@, 0x0040);
    slot_button_edges(slot, pad, "RS"@, 0x0080);
    slot_button_edges(slot, pad, "LB"@, 0x0100);
    slot_button_edges(slot, pad, "RB"@, 0x0200);
    slot_button_edges(slot, pad, "A"@, 0x1000);
    slot_button_edges(slot, pad, "B"@, 0x2000);
    slot_button_edges(slot, pad, "X"@, 0x4000);
    slot_button_edges(slot, pad, "Y"@, 0x8000);
    slot_button_edges(slot, pad, "Guide"@, 0x0400);
}

/// What the trigger events of a reading are: a trigger is pressed, or released, exactly
/// where its value was below 30 and no longer is, or the reverse.
pub proof fn slot_edges_tell_each_trigger_crossing(slot: SlotState, pad: PadState)
    ensures
        ({
            let edges = slot.edges(Some(pad));
            &&& edges.contains(Edge { pressed: true, button: "LT"@ }) <==> slot.left_trigger < 30
                <= pad.left_trigger
            &&& edges.contains(Edge { pressed: false, button: "LT"@ }) <==> pad.left_trigger < 30
                <= slot.left_trigger
            &&& edges.contains(Edge { pressed: true, button: "RT"@ }) <==> slot.right_trigger < 30
                <= pad.right_trigger
            &&& edges.contains(Edge { pressed: false, button: "RT"@ }) <==> pad.right_trigger < 30
                <= slot.right_trigger
        }),
{
    let presses = edges::button_edges(pad.buttons, pad.buttons ^ slot.buttons);
    let left = optional_edge(edges::trigger_edge("LT"@, slot.left_trigger, pad.left_trigger));
    let right = optional_edge(edges::trigger_edge("RT"@, slot.right_trigger, pad.right_trigger));
    let all = slot.edges(Some(pad));
    buttons::trigger_names();
    assert forall|k: int| 0 <= k < presses.len() implies (#[trigger] presses[k]).button != "LT"@
        && presses[k].button != "RT"@ by {
        let j = edges::button_edges_are_changes(k, slot.buttons, pad.buttons);
        edges::event_names_are_button_names(j);
    }
    assert(all.len() == presses.len() + left.len() + right.len());
    if left.len() == 1 {
        assert(all[presses.len() as int] == left[0]);
    }
    if right.len() == 1 {
        assert(all[(presses.len() + left.len()) as int] == right[0]);
    }
    assert forall|pressed: bool, name: Seq<char>|
        (name == "LT"@ || name == "RT"@) && #[trigger] all.contains(
            Edge { pressed, button: name },
        ) implies (left.len() == 1 && left[0] == (Edge { pressed, button: name })) || (right.len()
        == 1 && right[0] == (Edge { pressed, button: name })) by {
        let k = all.index_of(Edge { pressed, button: name });
        if k < presses.len() {
            assert(all[k] == presses[k]);
        }
    }
}

/// Events of a reading come in a fixed order, buttons before the left and the left
/// before the right trigger, and none comes twice: of any two events, the earlier one
/// names what stands earlier. Every event names a button or a trigger.
pub proof fn slot_edges_keep_the_order(slot: SlotState, pad: PadState, j: int, k: int) -> (places: (
    int,
    int,
))
    requires
        0 <= j <= k < slot.edges(Some(pad)).len(),
    ensures
        ({
            let names = seq![
                "DUp"@, "DDown"@, "DLeft"@, "DRight"@, "Start"@, "Back"@, "LS"@, "RS"@, "LB"@,
                "RB"@, "A"@, "B"@, "X"@, "Y"@, "Guide"@, "LT"@, "RT"@,
            ];
            let (a, b) = places;
            &&& 0 <= a <= b < names.len()
            &&& j < k ==> a < b
            &&& slot.edges(Some(pad))[j].button == names[a]
            &&& slot.edges(Some(pad))[k].button == names[b]
        }),
{
    let changed = pad.buttons ^ slot.buttons;
    let presses = edges::button_edges(pad.buttons, changed);
    let left = optional_edge(edges::trigger_edge("LT"@, slot.left_trigger, pad.left_trigger));
    let all = slot.edges(Some(pad));
    let n = presses.len() as int;
    assert(forall|i: int| 0 <= i < n ==> #[trigger] all[i] == presses[i]);
    if k < n {
        if j < k {
            edges::button_edges_keep_the_order(j, k, pad.buttons, changed)
        } else {
            let a = edges::button_edges_name_a_button(k, pad.buttons, changed);
            (a, a)
        }
    } else {
        let b = if left.len() == 1 && k == n {
            15int
        } else {
            16int
        };
        if j < n {
            (edges::button_edges_name_a_button(j, pad.buttons, changed), b)
        } else if j < k {
            (15int, b)
        } else {
            (b, b)
        }
    }
}

/// A reading that shows what is remembered brings no event.
pub proof fn unchanged_reading_brings_no_edge(slot: SlotState, pad: PadState)
    requires
        pad.buttons == slot.buttons,
        pad.left_trigger < 30 <==> slot.left_trigger < 30,
        pad.right_trigger < 30 <==> slot.right_trigger < 30,
    ensures
        slot.edges(Some(pad)).len() == 0,
{
    let buttons = pad.buttons;
    assert(buttons ^ buttons == 0) by (bit_vector);
    edges::no_change_no_edge(edges::button_table(), buttons);
}

/// What is remembered of a slot: the buttons and triggers of the last reading, or
/// nothing where no controller answered.
pub proof fn slot_remembers_the_last_reading(slot: SlotState, pad: PadState)
    ensures
        slot.after(Some(pad)).connected,
        slot.after(Some(pad)).buttons == pad.buttons,
        slot.after(Some(pad)).left_trigger == pad.left_trigger,
        slot.after(Some(pad)).right_trigger == pad.right_trigger,
        !slot.after(None).connected,
        slot.connected ==> slot.after(None).buttons == 0 && slot.after(None).left_trigger == 0
            && slot.after(None).right_trigger == 0,
        !slot.connected ==> slot.after(None) == slot,
        slot.edges(None).len() == 0,
{
}

/// A new listener rests until its first cycle, has no virtual pad and remembers no
/// controller.
pub proof fn new_listener_knows_nothing(i: int, event: PollEvent)
    requires
        0 <= i < 4,
    ensures
        ListenerModel::initial().wf(),
        ListenerModel::initial().phase is Resting,
        ListenerModel::initial().accepts(event) <==> event is Wake,
        !ListenerModel::initial().has_pad,
        ListenerModel::initial().slots.len() == 4,
        !ListenerModel::initial().slots[i].connected,
        ListenerModel::initial().slots[i].buttons == 0,
        ListenerModel::initial().slots[i].left_trigger == 0,
        ListenerModel::initial().slots[i].right_trigger == 0,
{
}

/// No step of a listener changes the macro keys, the suppression or whether a virtual
/// pad is wanted: a held key lasts until it is released or cleared.
pub proof fn steps_leave_the_macro_keys_alone(
    listener: ListenerModel,
    output: OutputState,
    event: PollEvent,
)
    ensures
        ({
            let next = listener.step(output, event).output;
            &&& next.extra_buttons == output.extra_buttons
            &&& next.extra_lt == output.extra_lt
            &&& next.extra_rt == output.extra_rt
            &&& next.suppress_buttons == output.suppress_buttons
            &&& next.suppress_lt == output.suppress_lt
            &&& next.suppress_rt == output.suppress_rt
            &&& next.vigem_wanted == output.vigem_wanted
        }),
{
}

/// Every report that a listener submits holds the macro keys down.
pub proof fn every_submitted_report_holds_the_macro_keys(
    listener: ListenerModel,
    output: OutputState,
    event: PollEvent,
)
    ensures
        listener.step(output, event).action matches PollAction::SubmitReport { report } ==> {
            &&& report.buttons & output.extra_buttons == output.extra_buttons
            &&& report.left_trigger >= output.extra_lt
            &&& report.right_trigger >= output.extra_rt
        },
{
    let extra = output.extra_buttons;
    assert(extra & extra == extra) by (bit_vector);
    if let PollAction::SubmitReport { report } = listener.step(output, event).action {
        if let Some(pad) = listener.step(output, event).listener.passthrough {
            let physical = pad.buttons & !output.suppress_buttons;
            assert((physical | extra) & extra == extra) by (bit_vector);
        }
    }
}

/// What a step does to the shared knowledge of the virtual pad. It is claimed by the
/// request to create it and given up by a failure; a failure is reported exactly the
/// first time; its slot is what the driver last told, and unknown where that is no
/// slot number.
pub proof fn steps_keep_track_of_the_pad(
    listener: ListenerModel,
    output: OutputState,
    event: PollEvent,
)
    requires
        listener.wf(),
        listener.accepts(event),
    ensures
        ({
            let step = listener.step(output, event);
            &&& event is PadFailed ==> !step.output.vigem_owner
            &&& step.action is ConnectPad ==> step.output.vigem_owner
            &&& !(event is PadFailed) && !(step.action is ConnectPad) ==> step.output.vigem_owner
                == output.vigem_owner
            &&& step.output.vigem_warned <==> output.vigem_warned || event is PadFailed
            &&& step.warn <==> event is PadFailed && !output.vigem_warned
            &&& step.listener.has_pad <==> listener.has_pad || event is PadConnected
            &&& match event {
                PollEvent::PadConnected { user_index: Some(i) } | PollEvent::UserIndex {
                    index: Some(i),
                } => if i <= 0x7fff_ffff {
                    step.output.virtual_index == i
                } else {
                    step.output.virtual_index < 0
                },
                _ => step.output.virtual_index == output.virtual_index,
            }
        }),
{
    if let PollEvent::PadConnected { user_index: Some(i) } = event {
        assert(i > 0x7fff_ffff ==> (i as i32) < 0) by (bit_vector);
    }
    if let PollEvent::UserIndex { index: Some(i) } = event {
        assert(i > 0x7fff_ffff ==> (i as i32) < 0) by (bit_vector);
    }
}

/// A slot is virtual exactly where this listener or the shared state says so.
pub proof fn virtual_slots_are_the_known_ones(index: u32, local: Option<u32>, stored: i32)
    ensures
        local == Some(index) ==> is_virtual_slot(index, local, stored),
        stored == index ==> is_virtual_slot(index, local, stored),
        local != Some(index) && stored != index ==> !is_virtual_slot(index, local, stored),
        stored < 0 && local is None ==> !is_virtual_slot(index, local, stored),
{
}

/// The listener waits for the outcome of what it asked for, and takes that alone.
pub proof fn listener_waits_for_what_it_asked(
    listener: ListenerModel,
    output: OutputState,
    event: PollEvent,
    next: PollEvent,
)
    requires
        listener.wf(),
        listener.accepts(event),
    ensures
        ({
            let step = listener.step(output, event);
            match step.action {
                PollAction::ConnectPad => step.listener.phase is Connecting && (
                step.listener.accepts(next) <==> next is PadConnected || next is PadFailed),
                PollAction::QueryUserIndex => step.listener.phase is Locating && (
                step.listener.accepts(next) <==> next is UserIndex),
                PollAction::ReadSlot { slot } => step.listener.phase == (Phase::Reading { slot })
                    && (step.listener.accepts(next) <==> next is SlotRead),
                PollAction::SubmitReport { .. } => step.listener.phase is Reporting && (
                step.listener.accepts(next) <==> next is ReportDone),
                PollAction::Sleep { .. } => step.listener.phase is Resting && (
                step.listener.accepts(next) <==> next is Wake),
            }
        }),
{
}

/// What a listener asks for next. A free virtual pad that is wanted is created first;
/// the virtual pad is located in every cycle; then the slots from the first one on are
/// read, and a slot `i` is passed over only where it is known to be the virtual pad's;
/// after the last one the report is submitted where there is a virtual pad; then the
/// listener sleeps for 16 ms.
pub proof fn cycle_goes_through_its_stages(
    listener: ListenerModel,
    output: OutputState,
    event: PollEvent,
    i: u32,
)
    requires
        listener.wf(),
        listener.accepts(event),
    ensures
        ({
            let step = listener.step(output, event);
            let creates = output.vigem_wanted && !output.vigem_owner && !listener.has_pad;
            let known = step.listener.local_index == Some(i) || step.output.virtual_index == i;
            let from = match event {
                PollEvent::Wake => if creates || listener.has_pad {
                    None
                } else {
                    Some(0int)
                },
                PollEvent::PadFailed | PollEvent::UserIndex { .. } => Some(0int),
                PollEvent::SlotRead { .. } => Some(listener.phase->slot + 1),
                PollEvent::PadConnected { .. } | PollEvent::ReportDone => None,
            };
            &&& event is Wake && creates ==> step.action is ConnectPad
            &&& event is Wake && listener.has_pad ==> step.action is QueryUserIndex
            &&& event is PadConnected ==> step.action is QueryUserIndex
            &&& event is ReportDone ==> step.action == (PollAction::Sleep { millis: 16 })
            &&& from matches Some(first) ==> match step.action {
                PollAction::ReadSlot { slot } => {
                    &&& first <= slot < 4
                    &&& step.listener.local_index != Some(slot)
                    &&& step.output.virtual_index != slot
                    &&& first <= i < slot ==> known
                },
                PollAction::SubmitReport { .. } => step.listener.has_pad && (first <= i < 4
                    ==> known),
                PollAction::Sleep { millis } => millis == 16 && !step.listener.has_pad && (first
                    <= i < 4 ==> known),
                _ => false,
            }
        }),
{
    let step = listener.step(output, event);
    next_slot_is_first(0, None, step.output.virtual_index);
    if let PollEvent::UserIndex { index } = event {
        next_slot_is_first(0, index, step.output.virtual_index);
    }
    if let PollEvent::SlotRead { .. } = event {
        next_slot_is_first(
            listener.phase->slot + 1,
            listener.local_index,
            output.virtual_index,
        );
    }
    virtual_slots_are_the_known_ones(i, step.listener.local_index, step.output.virtual_index);
}

/// Where a listener looks for the virtual pad: where the driver said in this cycle,
/// and nowhere of its own where it has no virtual pad.
pub proof fn listener_takes_the_slot_of_this_cycle(
    listener: ListenerModel,
    output: OutputState,
    event: PollEvent,
)
    requires
        listener.wf(),
        listener.accepts(event),
    ensures
        ({
            let step = listener.step(output, event);
            &&& event matches PollEvent::UserIndex { index } ==> step.listener.local_index == index
            &&& event is PadFailed ==> step.listener.local_index is None
            &&& event is Wake && step.action !is ConnectPad && !listener.has_pad
                ==> step.listener.local_index is None
            &&& event is SlotRead || event is ReportDone ==> step.listener.local_index
                == listener.local_index
        }),
{
}

/// What a step does to what a listener remembers. A reading changes the slot that was
/// read and no other, and its controller is passed through if it is the cycle's first
/// to answer. Nothing else changes a slot or brings events. A new scan passes nothing
/// through at first.
pub proof fn steps_remember_what_was_read(
    listener: ListenerModel,
    output: OutputState,
    event: PollEvent,
    i: int,
)
    requires
        listener.wf(),
        listener.accepts(event),
        0 <= i < 4,
    ensures
        ({
            let step = listener.step(output, event);
            match event {
                PollEvent::SlotRead { reading } => {
                    let slot = listener.phase->slot;
                    &&& i != slot ==> step.listener.slots[i] == listener.slots[i]
                    &&& step.listener.slots[slot as int].connected <==> reading is Some
                    &&& reading matches Some(pad) ==> step.listener.slots[slot as int].buttons
                        == pad.buttons && step.listener.slots[slot as int].left_trigger
                        == pad.left_trigger && step.listener.slots[slot as int].right_trigger
                        == pad.right_trigger
                    &&& reading is None ==> step.listener.slots[slot as int].buttons == 0
                        && step.listener.slots[slot as int].left_trigger == 0
                        && step.listener.slots[slot as int].right_trigger == 0
                    &&& reading is None ==> step.edges.len() == 0
                    &&& step.edges == listener.slots[slot as int].edges(reading)
                    &&& listener.passthrough is None ==> step.listener.passthrough == reading
                    &&& listener.passthrough is Some ==> step.listener.passthrough
                        == listener.passthrough
                },
                _ => {
                    &&& step.listener.slots[i] == listener.slots[i]
                    &&& step.edges.len() == 0
                    &&& step.action is ReadSlot ==> step.listener.passthrough is None
                    &&& step.action is SubmitReport ==> step.listener.passthrough is None
                },
            }
        }),
{
}

/// What a listener submits is the report of the controller that it passes through,
/// with the macro keys and the suppression of that moment.
pub proof fn submitted_report_is_that_of_the_controller_passed_through(
    listener: ListenerModel,
    output: OutputState,
    event: PollEvent,
)
    ensures
        listener.step(output, event).action matches PollAction::SubmitReport { report } ==> report
            == output.report(listener.step(output, event).listener.passthrough),
{
    let next = listener.step(output, event).output;
    let passthrough = listener.step(output, event).listener.passthrough;
    steps_leave_the_macro_keys_alone(listener, output, event);
    output::report_ignores_the_pad_ownership(next, output, passthrough);
}

/// The report of a cycle shows the physical controller in the lowest slot that
/// answers, and no controller where none does. A controller in the virtual pad's slot
/// never counts.
pub proof fn report_shows_the_lowest_controller(
    listener: ListenerModel,
    output: OutputState,
    index: Option<u32>,
    readings: Seq<Option<PadState>>,
    s: int,
)
    requires
        listener.wf(),
        listener.has_pad,
        readings.len() == 4,
        0 <= s <= 4,
        s < 4 ==> index != Some(s as u32) && output.virtual_index != s && readings[s] is Some,
        forall|t: int|
            0 <= t < s ==> index == Some(t as u32) || output.virtual_index == t
                || #[trigger] readings[t] is None,
    ensures
        ({
            let (start, action) = listener.begin_scan(output, index);
            run_scan(start, action, output, readings).action == (PollAction::SubmitReport {
                report: output.report(
                    if s < 4 {
                        readings[s]
                    } else {
                        None
                    },
                ),
            })
        }),
{
    scan_reads_every_physical_slot(listener, output, index, readings);
    first_answer_is_the_lowest(readings, index, output.virtual_index, 0, s);
}

proof fn first_answer_is_the_lowest(
    readings: Seq<Option<PadState>>,
    local: Option<u32>,
    stored: i32,
    from: int,
    s: int,
)
    requires
        readings.len() == 4,
        0 <= from <= s <= 4,
        s < 4 ==> local != Some(s as u32) && stored != s && readings[s] is Some,
        forall|t: int|
            from <= t < s ==> local == Some(t as u32) || stored == t
                || #[trigger] readings[t] is None,
    ensures
        first_answer(readings, local, stored, from) == if s < 4 {
            readings[s]
        } else {
            None
        },
    decreases s - from,
{
    if from < s {
        assert(local == Some(from as u32) || stored == from || readings[from] is None);
        first_answer_is_the_lowest(readings, local, stored, from + 1, s);
    }
}

} // verus!
