//! Press and release events, found by comparing two readings of a controller.

use vstd::prelude::*;

use crate::gamepad::buttons;

verus! {

/// A trigger counts as pressed from this value on (the range is 0 to 255).
pub const TRIGGER_THRESHOLD: u8 = 30;

/// What a controller did.
#[derive(Debug)]
pub enum GamepadEvent {
    ButtonPressed { button: String },
    ButtonReleased { button: String },
}

impl Clone for GamepadEvent {
    fn clone(&self) -> (res: GamepadEvent)
        ensures
            res == *self,
    {
        match self {
            GamepadEvent::ButtonPressed { button } => GamepadEvent::ButtonPressed {
                button: button.clone(),
            },
            GamepadEvent::ButtonReleased { button } => GamepadEvent::ButtonReleased {
                button: button.clone(),
            },
        }
    }
}

/// A press or a release of a named button.
pub struct Edge {
    pub pressed: bool,
    pub button: Seq<char>,
}

impl View for GamepadEvent {
    type V = Edge;

    open spec fn view(&self) -> Edge {
        match self {
            GamepadEvent::ButtonPressed { button } => Edge { pressed: true, button: button@ },
            GamepadEvent::ButtonReleased { button } => Edge { pressed: false, button: button@ },
        }
    }
}

/// The edges that a list of events stands for.
pub open spec fn edges_of(events: Seq<GamepadEvent>) -> Seq<Edge> {
    events.map_values(|e: GamepadEvent| e@)
}

/// Every reported button: its mask and its event name, in the order in which
/// changes are reported.
pub open spec fn button_table() -> Seq<(u16, Seq<char>)> {
    seq![
        (buttons::XINPUT_GAMEPAD_DPAD_UP, "DUp"@),
        (buttons::XINPUT_GAMEPAD_DPAD_DOWN, "DDown"@),
        (buttons::XINPUT_GAMEPAD_DPAD_LEFT, "DLeft"@),
        (buttons::XINPUT_GAMEPAD_DPAD_RIGHT, "DRight"@),
        (buttons::XINPUT_GAMEPAD_START, "Start"@),
        (buttons::XINPUT_GAMEPAD_BACK, "Back"@),
        (buttons::XINPUT_GAMEPAD_LEFT_THUMB, "LS"@),
        (buttons::XINPUT_GAMEPAD_RIGHT_THUMB, "RS"@),
        (buttons::XINPUT_GAMEPAD_LEFT_SHOULDER, "LB"@),
        (buttons::XINPUT_GAMEPAD_RIGHT_SHOULDER, "RB"@),
        (buttons::XINPUT_GAMEPAD_A, "A"@),
        (buttons::XINPUT_GAMEPAD_B, "B"@),
        (buttons::XINPUT_GAMEPAD_X, "X"@),
        (buttons::XINPUT_GAMEPAD_Y, "Y"@),
        (buttons::XINPUT_GAMEPAD_GUIDE, "Guide"@),
    ]
}

/// The edges of the entries of `table` whose bit is in `changed`: a press where
/// the bit is now set, a release where it is not.
pub open spec fn table_edges(
    table: Seq<(u16, Seq<char>)>,
    current: u16,
    changed: u16,
) -> Seq<Edge> {
    table.filter(|e: (u16, Seq<char>)| changed & e.0 != 0).map_values(
        |e: (u16, Seq<char>)| Edge { pressed: current & e.0 != 0, button: e.1 },
    )
}

/// The edges between two button states, given the new state and the bits that differ.
pub open spec fn button_edges(current: u16, changed: u16) -> Seq<Edge> {
    table_edges(button_table(), current, changed)
}

/// A table that grows by one entry gives at most one edge more.
pub proof fn table_edges_push(
    table: Seq<(u16, Seq<char>)>,
    entry: (u16, Seq<char>),
    current: u16,
    changed: u16,
)
    ensures
        table_edges(table.push(entry), current, changed) == if changed & entry.0 != 0 {
            table_edges(table, current, changed).push(
                Edge { pressed: current & entry.0 != 0, button: entry.1 },
            )
        } else {
            table_edges(table, current, changed)
        },
{
    reveal(Seq::filter);
    assert(table.push(entry).drop_last() =~= table);
    assert(table_edges(table.push(entry), current, changed) =~= if changed & entry.0 != 0 {
        table_edges(table, current, changed).push(
            Edge { pressed: current & entry.0 != 0, button: entry.1 },
        )
    } else {
        table_edges(table, current, changed)
    });
}

/// Where no bit changed there is no edge.
pub proof fn no_change_no_edge(table: Seq<(u16, Seq<char>)>, current: u16)
    ensures
        table_edges(table, current, 0) == Seq::<Edge>::empty(),
    decreases table.len(),
{
    reveal(Seq::filter);
    if table.len() > 0 {
        let entry = table.last();
        let mask = entry.0;
        no_change_no_edge(table.drop_last(), current);
        table_edges_push(table.drop_last(), entry, current, 0);
        assert(table.drop_last().push(entry) =~= table);
        assert(0u16 & mask == 0) by (bit_vector);
    }
}

/// The events between two button states: `current` is the new state and `changed`
/// holds the bits in which it differs from the old one.
pub fn check_button_changes(current: u16, changed: u16) -> (events: Vec<GamepadEvent>)
    ensures
        edges_of(events@) == button_edges(current, changed),
{
    let table: [(u16, &str); 15] = [
        (buttons::XINPUT_GAMEPAD_DPAD_UP, "DUp"),
        (buttons::XINPUT_GAMEPAD_DPAD_DOWN, "DDown"),
        (buttons::XINPUT_GAMEPAD_DPAD_LEFT, "DLeft"),
        (buttons::XINPUT_GAMEPAD_DPAD_RIGHT, "DRight"),
        (buttons::XINPUT_GAMEPAD_START, "Start"),
        (buttons::XINPUT_GAMEPAD_BACK, "Back"),
        (buttons::XINPUT_GAMEPAD_LEFT_THUMB, "LS"),
        (buttons::XINPUT_GAMEPAD_RIGHT_THUMB, "RS"),
        (buttons::XINPUT_GAMEPAD_LEFT_SHOULDER, "LB"),
        (buttons::XINPUT_GAMEPAD_RIGHT_SHOULDER, "RB"),
        (buttons::XINPUT_GAMEPAD_A, "A"),
        (buttons::XINPUT_GAMEPAD_B, "B"),
        (buttons::XINPUT_GAMEPAD_X, "X"),
        (buttons::XINPUT_GAMEPAD_Y, "Y"),
        (buttons::XINPUT_GAMEPAD_GUIDE, "Guide"),
    ];
    let mut events: Vec<GamepadEvent> = Vec::new();
    let mut i: usize = 0;
    let ghost seen = button_table();
    assert(table@.map_values(|e: (u16, &str)| (e.0, e.1@)) =~= seen);
    assert(edges_of(events@) =~= table_edges(seen.take(0), current, changed)) by {
        reveal(Seq::filter);
    }
    while i < 15
        invariant
            i <= 15,
            table@.len() == 15,
            seen == button_table(),
            seen == table@.map_values(|e: (u16, &str)| (e.0, e.1@)),
            edges_of(events@) == table_edges(seen.take(i as int), current, changed),
        decreases 15 - i,
    {
        let (mask, name) = table[i];
        let ghost before = events@;
        proof {
            table_edges_push(seen.take(i as int), seen[i as int], current, changed);
            assert(seen.take(i as int).push(seen[i as int]) =~= seen.take(i + 1));
            assert(seen[i as int] == (mask, name@));
        }
        if changed & mask != 0 {
            let event = if current & mask != 0 {
                GamepadEvent::ButtonPressed { button: name.to_string() }
            } else {
                GamepadEvent::ButtonReleased { button: name.to_string() }
            };
            events.push(event);
            assert(edges_of(events@) =~= edges_of(before).push(event@));
        }
        i = i + 1;
    }
    assert(seen.take(15) =~= seen);
    events
}

/// Every event name is a button name, and stands for the very bit that changed.
pub proof fn event_names_are_button_names(i: int)
    requires
        0 <= i < button_table().len(),
    ensures
        buttons::name_mask(button_table()[i].1) == Some(button_table()[i].0),
{
    buttons::reported_names_have_masks();
}

/// The edge of a trigger named `name` whose value went from `prev` to `current`:
/// none as long as both lie on one side of the threshold.
pub open spec fn trigger_edge(name: Seq<char>, prev: u8, current: u8) -> Option<Edge> {
    if (prev >= TRIGGER_THRESHOLD) == (current >= TRIGGER_THRESHOLD) {
        None
    } else {
        Some(Edge { pressed: current >= TRIGGER_THRESHOLD, button: name })
    }
}

/// A trigger counts as pressed or released when its value crosses the threshold.
pub fn check_trigger_edge(name: &str, prev: u8, current: u8) -> (event: Option<GamepadEvent>)
    ensures
        event is Some <==> trigger_edge(name@, prev, current) is Some,
        event matches Some(e) ==> Some(e@) == trigger_edge(name@, prev, current),
{
    let was_down = prev >= TRIGGER_THRESHOLD;
    let is_down = current >= TRIGGER_THRESHOLD;
    if was_down == is_down {
        return None;
    }
    if is_down {
        Some(GamepadEvent::ButtonPressed { button: name.to_string() })
    } else {
        Some(GamepadEvent::ButtonReleased { button: name.to_string() })
    }
}

/// No two reported buttons share a bit or a name.
pub proof fn table_entries_differ(i: int, j: int)
    requires
        0 <= i < button_table().len(),
        0 <= j < button_table().len(),
        i != j,
    ensures
        button_table()[i].0 & button_table()[j].0 == 0,
        button_table()[i].0 != button_table()[j].0,
        button_table()[i].1 != button_table()[j].1,
{
    let a = button_table()[i].0;
    let b = button_table()[j].0;
    event_names_are_button_names(i);
    event_names_are_button_names(j);
    buttons::mask_is_a_single_bit(button_table()[i].1);
    buttons::mask_is_a_single_bit(button_table()[j].1);
    assert(a != b);
    assert(a & b == 0) by (bit_vector)
        requires
            a != b,
            a != 0 && a & (a - 1) as u16 == 0,
            b != 0 && b & (b - 1) as u16 == 0,
    ;
}

/// Every button name stands for a reported button.
pub proof fn every_mask_is_reported(name: Seq<char>)
    requires
        buttons::name_mask(name) is Some,
    ensures
        exists|i: int|
            0 <= i < button_table().len() && Some((#[trigger] button_table()[i]).0)
                == buttons::name_mask(name),
{
    let t = button_table();
    assert(t[0].0 == 0x0001 && t[1].0 == 0x0002 && t[2].0 == 0x0004 && t[3].0 == 0x0008);
    assert(t[4].0 == 0x0010 && t[5].0 == 0x0020 && t[6].0 == 0x0040 && t[7].0 == 0x0080);
    assert(t[8].0 == 0x0100 && t[9].0 == 0x0200 && t[10].0 == 0x1000 && t[11].0 == 0x2000);
    assert(t[12].0 == 0x4000 && t[13].0 == 0x8000 && t[14].0 == 0x0400);
}

/// Whether a button named `name` is held after some edges, if it was or was not
/// held before them.
pub open spec fn replay(held: bool, name: Seq<char>, edges: Seq<Edge>) -> bool
    decreases edges.len(),
{
    if edges.len() == 0 {
        held
    } else if edges.last().button == name {
        edges.last().pressed
    } else {
        replay(held, name, edges.drop_last())
    }
}

/// Edges for other buttons change nothing.
pub proof fn replay_of_others(held: bool, name: Seq<char>, edges: Seq<Edge>)
    requires
        forall|k: int| 0 <= k < edges.len() ==> (#[trigger] edges[k]).button != name,
    ensures
        replay(held, name, edges) == held,
    decreases edges.len(),
{
    if edges.len() > 0 {
        assert(edges.last() == edges[edges.len() - 1]);
        assert forall|k: int| 0 <= k < edges.drop_last().len() implies (
        #[trigger] edges.drop_last()[k]).button != name by {
            assert(edges.drop_last()[k] == edges[k]);
        }
        replay_of_others(held, name, edges.drop_last());
    }
}

/// Edges take effect one after the other.
pub proof fn replay_concat(held: bool, name: Seq<char>, first: Seq<Edge>, second: Seq<Edge>)
    ensures
        replay(held, name, first + second) == replay(replay(held, name, first), name, second),
    decreases second.len(),
{
    if second.len() == 0 {
        assert(first + second =~= first);
    } else {
        assert((first + second).drop_last() =~= first + second.drop_last());
        assert((first + second).last() == second.last());
        replay_concat(held, name, first, second.drop_last());
    }
}

proof fn replay_of_table(held: bool, i: int, n: int, current: u16, changed: u16)
    requires
        0 <= i < button_table().len(),
        0 <= n <= button_table().len(),
    ensures
        replay(held, button_table()[i].1, table_edges(button_table().take(n), current, changed))
            == if i < n && changed & button_table()[i].0 != 0 {
            current & button_table()[i].0 != 0
        } else {
            held
        },
    decreases n,
{
    let table = button_table();
    let name = table[i].1;
    if n == 0 {
        reveal(Seq::filter);
        assert(table_edges(table.take(0), current, changed) =~= seq![]);
    } else {
        let before = table_edges(table.take(n - 1), current, changed);
        let after = table_edges(table.take(n), current, changed);
        replay_of_table(held, i, n - 1, current, changed);
        table_edges_push(table.take(n - 1), table[n - 1], current, changed);
        assert(table.take(n - 1).push(table[n - 1]) =~= table.take(n));
        if i != n - 1 {
            table_entries_differ(i, n - 1);
        }
        if changed & table[n - 1].0 != 0 {
            assert(after.drop_last() =~= before);
        }
    }
}

/// The events between two button states tell the whole change: whoever follows
/// them knows of every reported button whether it is held.
pub proof fn button_edges_replay_to_current(i: int, prev: u16, current: u16)
    requires
        0 <= i < button_table().len(),
    ensures
        replay(
            prev & button_table()[i].0 != 0,
            button_table()[i].1,
            button_edges(current, current ^ prev),
        ) == (current & button_table()[i].0 != 0),
{
    let mask = button_table()[i].0;
    let n = button_table().len() as int;
    replay_of_table(prev & mask != 0, i, n, current, current ^ prev);
    assert(button_table().take(n) =~= button_table());
    assert((current ^ prev) & mask == 0 ==> (prev & mask != 0) == (current & mask != 0))
        by (bit_vector);
}

proof fn table_edge_source(k: int, n: int, prev: u16, current: u16) -> (i: int)
    requires
        0 <= n <= button_table().len(),
        0 <= k < table_edges(button_table().take(n), current, current ^ prev).len(),
    ensures
        0 <= i < n,
        ({
            let edge = table_edges(button_table().take(n), current, current ^ prev)[k];
            &&& edge.button == button_table()[i].1
            &&& edge.pressed == (current & button_table()[i].0 != 0)
            &&& edge.pressed == (prev & button_table()[i].0 == 0)
        }),
    decreases n,
{
    let table = button_table();
    let changed = current ^ prev;
    if n == 0 {
        reveal(Seq::filter);
        assert(table_edges(table.take(0), current, changed) =~= seq![]);
        0
    } else {
        let before = table_edges(table.take(n - 1), current, changed);
        let entry = table[n - 1];
        let mask = entry.0;
        table_edges_push(table.take(n - 1), entry, current, changed);
        assert(table.take(n - 1).push(entry) =~= table.take(n));
        if k < before.len() {
            table_edge_source(k, n - 1, prev, current)
        } else {
            event_names_are_button_names(n - 1);
            buttons::mask_is_a_single_bit(entry.1);
            assert((current & mask != 0) == (prev & mask == 0)) by (bit_vector)
                requires
                    (current ^ prev) & mask != 0,
                    mask != 0 && mask & (mask - 1) as u16 == 0,
            ;
            n - 1
        }
    }
}

/// An edge is a change of a reported button: it names one whose bit differs, and
/// says which way.
pub proof fn button_edges_are_changes(k: int, prev: u16, current: u16) -> (i: int)
    requires
        0 <= k < button_edges(current, current ^ prev).len(),
    ensures
        0 <= i < button_table().len(),
        ({
            let edge = button_edges(current, current ^ prev)[k];
            &&& edge.button == button_table()[i].1
            &&& edge.pressed == (current & button_table()[i].0 != 0)
            &&& edge.pressed == (prev & button_table()[i].0 == 0)
        }),
{
    let n = button_table().len() as int;
    assert(button_table().take(n) =~= button_table());
    table_edge_source(k, n, prev, current)
}

proof fn table_edges_differ(j: int, k: int, n: int, prev: u16, current: u16)
    requires
        0 <= n <= button_table().len(),
        0 <= j < k < table_edges(button_table().take(n), current, current ^ prev).len(),
    ensures
        ({
            let edges = table_edges(button_table().take(n), current, current ^ prev);
            edges[j].button != edges[k].button
        }),
    decreases n,
{
    let table = button_table();
    let changed = current ^ prev;
    if n == 0 {
        reveal(Seq::filter);
        assert(table_edges(table.take(0), current, changed) =~= seq![]);
    } else {
        let before = table_edges(table.take(n - 1), current, changed);
        table_edges_push(table.take(n - 1), table[n - 1], current, changed);
        assert(table.take(n - 1).push(table[n - 1]) =~= table.take(n));
        if k < before.len() {
            table_edges_differ(j, k, n - 1, prev, current);
        } else {
            let i = table_edge_source(j, n - 1, prev, current);
            table_entries_differ(i, n - 1);
        }
    }
}

/// Between two button states a button has one edge at most.
pub proof fn button_edges_name_a_button_once(j: int, k: int, prev: u16, current: u16)
    requires
        0 <= j < k < button_edges(current, current ^ prev).len(),
    ensures
        ({
            let edges = button_edges(current, current ^ prev);
            edges[j].button != edges[k].button
        }),
{
    let n = button_table().len() as int;
    assert(button_table().take(n) =~= button_table());
    table_edges_differ(j, k, n, prev, current);
}

proof fn table_edge_exists(i: int, n: int, current: u16, changed: u16) -> (k: int)
    requires
        0 <= i < n <= button_table().len(),
        changed & button_table()[i].0 != 0,
    ensures
        0 <= k < table_edges(button_table().take(n), current, changed).len(),
        table_edges(button_table().take(n), current, changed)[k] == (Edge {
            pressed: current & button_table()[i].0 != 0,
            button: button_table()[i].1,
        }),
    decreases n,
{
    let table = button_table();
    let before = table_edges(table.take(n - 1), current, changed);
    table_edges_push(table.take(n - 1), table[n - 1], current, changed);
    assert(table.take(n - 1).push(table[n - 1]) =~= table.take(n));
    if i == n - 1 {
        before.len() as int
    } else {
        table_edge_exists(i, n - 1, current, changed)
    }
}

proof fn table_entry_edges(i: int, current: u16, changed: u16)
    requires
        0 <= i < button_table().len(),
    ensures
        ({
            let (mask, name) = button_table()[i];
            let edges = button_edges(current, changed);
            &&& edges.contains(Edge { pressed: true, button: name }) <==> changed & mask != 0
                && current & mask != 0
            &&& edges.contains(Edge { pressed: false, button: name }) <==> changed & mask != 0
                && current & mask == 0
        }),
{
    let (mask, name) = button_table()[i];
    let edges = button_edges(current, changed);
    let n = button_table().len() as int;
    let prev = current ^ changed;
    assert(button_table().take(n) =~= button_table());
    assert(current ^ (current ^ changed) == changed) by (bit_vector);
    if changed & mask != 0 {
        let k = table_edge_exists(i, n, current, changed);
        assert(edges.contains(edges[k]));
    }
    assert forall|pressed: bool| #[trigger]
        edges.contains(Edge { pressed, button: name }) implies changed & mask != 0 && pressed == (
    current & mask != 0) by {
        let k = edges.index_of(Edge { pressed, button: name });
        let j = table_edge_source(k, n, prev, current);
        if j != i {
            table_entries_differ(i, j);
        }
        assert((current & mask != 0) == ((current ^ changed) & mask == 0) ==> changed & mask != 0)
            by (bit_vector);
    }
}

/// What the events between two button states are: each reported button is pressed,
/// or released, exactly where its bit changed and is now set, or clear.
pub proof fn button_edges_tell_each_change(current: u16, changed: u16)
    ensures
        ({
            let edges = button_edges(current, changed);
            &&& edges.contains(Edge { pressed: true, button: "DUp"@ }) <==> changed & 0x0001 != 0
                && current & 0x0001 != 0
            &&& edges.contains(Edge { pressed: false, button: "DUp"@ }) <==> changed & 0x0001 != 0
                && current & 0x0001 == 0
            &&& edges.contains(Edge { pressed: true, button: "DDown"@ }) <==> changed & 0x0002 != 0
                && current & 0x0002 != 0
            &&& edges.contains(Edge { pressed: false, button: "DDown"@ }) <==> changed & 0x0002 != 0
                && current & 0x0002 == 0
            &&& edges.contains(Edge { pressed: true, button: "DLeft"@ }) <==> changed & 0x0004 != 0
                && current & 0x0004 != 0
            &&& edges.contains(Edge { pressed: false, button: "DLeft"@ }) <==> changed & 0x0004 != 0
                && current & 0x0004 == 0
            &&& edges.contains(Edge { pressed: true, button: "DRight"@ }) <==> changed & 0x0008 != 0
                && current & 0x0008 != 0
            &&& edges.contains(Edge { pressed: false, button: "DRight"@ }) <==> changed & 0x0008 != 0
                && current & 0x0008 == 0
            &&& edges.contains(Edge { pressed: true, button: "Start"@ }) <==> changed & 0x0010 != 0
                && current & 0x0010 != 0
            &&& edges.contains(Edge { pressed: false, button: "Start"@ }) <==> changed & 0x0010 != 0
                && current & 0x0010 == 0
            &&& edges.contains(Edge { pressed: true, button: "Back"@ }) <==> changed & 0x0020 != 0
                && current & 0x0020 != 0
            &&& edges.contains(Edge { pressed: false, button: "Back"@ }) <==> changed & 0x0020 != 0
                && current & 0x0020 == 0
            &&& edges.contains(Edge { pressed: true, button: "LS"@ }) <==> changed & 0x0040 != 0
                && current & 0x0040 != 0
            &&& edges.contains(Edge { pressed: false, button: "LS"@ }) <==> changed & 0x0040 != 0
                && current & 0x0040 == 0
            &&& edges.contains(Edge { pressed: true, button: "RS"@ }) <==> changed & 0x0080 != 0
                && current & 0x0080 != 0
            &&& edges.contains(Edge { pressed: false, button: "RS"@ }) <==> changed & 0x0080 != 0
                && current & 0x0080 == 0
            &&& edges.contains(Edge { pressed: true, button: "LB"@ }) <==> changed & 0x0100 != 0
                && current & 0x0100 != 0
            &&& edges.contains(Edge { pressed: false, button: "LB"@ }) <==> changed & 0x0100 != 0
                && current & 0x0100 == 0
            &&& edges.contains(Edge { pressed: true, button: "RB"@ }) <==> changed & 0x0200 != 0
                && current & 0x0200 != 0
            &&& edges.contains(Edge { pressed: false, button: "RB"@ }) <==> changed & 0x0200 != 0
                && current & 0x0200 == 0
            &&& edges.contains(Edge { pressed: true, button: "A"@ }) <==> changed & 0x1000 != 0
                && current & 0x1000 != 0
            &&& edges.contains(Edge { pressed: false, button: "A"@ }) <==> changed & 0x1000 != 0
                && current & 0x1000 == 0
            &&& edges.contains(Edge { pressed: true, button: "B"@ }) <==> changed & 0x2000 != 0
                && current & 0x2000 != 0
            &&& edges.contains(Edge { pressed: false, button: "B"@ }) <==> changed & 0x2000 != 0
                && current & 0x2000 == 0
            &&& edges.contains(Edge { pressed: true, button: "X"@ }) <==> changed & 0x4000 != 0
                && current & 0x4000 != 0
            &&& edges.contains(Edge { pressed: false, button: "X"@ }) <==> changed & 0x4000 != 0
                && current & 0x4000 == 0
            &&& edges.contains(Edge { pressed: true, button: "Y"@ }) <==> changed & 0x8000 != 0
                && current & 0x8000 != 0
            &&& edges.contains(Edge { pressed: false, button: "Y"@ }) <==> changed & 0x8000 != 0
                && current & 0x8000 == 0
            &&& edges.contains(Edge { pressed: true, button: "Guide"@ }) <==> changed & 0x0400 != 0
                && current & 0x0400 != 0
            &&& edges.contains(Edge { pressed: false, button: "Guide"@ }) <==> changed & 0x0400 != 0
                && current & 0x0400 == 0
        }),
{
    table_entry_edges(0, current, changed);
    table_entry_edges(1, current, changed);
    table_entry_edges(2, current, changed);
    table_entry_edges(3, current, changed);
    table_entry_edges(4, current, changed);
    table_entry_edges(5, current, changed);
    table_entry_edges(6, current, changed);
    table_entry_edges(7, current, changed);
    table_entry_edges(8, current, changed);
    table_entry_edges(9, current, changed);
    table_entry_edges(10, current, changed);
    table_entry_edges(11, current, changed);
    table_entry_edges(12, current, changed);
    table_entry_edges(13, current, changed);
    table_entry_edges(14, current, changed);
    assert(button_table()[0] == (0x0001u16, "DUp"@));
    assert(button_table()[1] == (0x0002u16, "DDown"@));
    assert(button_table()[2] == (0x0004u16, "DLeft"@));
    assert(button_table()[3] == (0x0008u16, "DRight"@));
    assert(button_table()[4] == (0x0010u16, "Start"@));
    assert(button_table()[5] == (0x0020u16, "Back"@));
    assert(button_table()[6] == (0x0040u16, "LS"@));
    assert(button_table()[7] == (0x0080u16, "RS"@));
    assert(button_table()[8] == (0x0100u16, "LB"@));
    assert(button_table()[9] == (0x0200u16, "RB"@));
    assert(button_table()[10] == (0x1000u16, "A"@));
    assert(button_table()[11] == (0x2000u16, "B"@));
    assert(button_table()[12] == (0x4000u16, "X"@));
    assert(button_table()[13] == (0x8000u16, "Y"@));
    assert(button_table()[14] == (0x0400u16, "Guide"@));
}

proof fn table_edges_ordered(j: int, k: int, n: int, current: u16, changed: u16) -> (sources: (
    int,
    int,
))
    requires
        0 <= n <= button_table().len(),
        0 <= j < k < table_edges(button_table().take(n), current, changed).len(),
    ensures
        ({
            let edges = table_edges(button_table().take(n), current, changed);
            let (a, b) = sources;
            &&& 0 <= a < b < n
            &&& edges[j].button == button_table()[a].1
            &&& edges[k].button == button_table()[b].1
        }),
    decreases n,
{
    let table = button_table();
    let prev = current ^ changed;
    assert(current ^ (current ^ changed) == changed) by (bit_vector);
    if n == 0 {
        reveal(Seq::filter);
        assert(table_edges(table.take(0), current, changed) =~= seq![]);
        (0, 0)
    } else {
        let before = table_edges(table.take(n - 1), current, changed);
        table_edges_push(table.take(n - 1), table[n - 1], current, changed);
        assert(table.take(n - 1).push(table[n - 1]) =~= table.take(n));
        if k < before.len() {
            table_edges_ordered(j, k, n - 1, current, changed)
        } else {
            (table_edge_source(j, n - 1, prev, current), n - 1)
        }
    }
}

/// Events come in the fixed order of the buttons, and none comes twice: of any two
/// events, the earlier one names a button that stands earlier.
pub proof fn button_edges_keep_the_order(j: int, k: int, current: u16, changed: u16) -> (places: (
    int,
    int,
))
    requires
        0 <= j < k < button_edges(current, changed).len(),
    ensures
        ({
            let names = seq![
                "DUp"@, "DDown"@, "DLeft"@, "DRight"@, "Start"@, "Back"@, "LS"@, "RS"@, "LB"@,
                "RB"@, "A"@, "B"@, "X"@, "Y"@, "Guide"@,
            ];
            let (a, b) = places;
            &&& 0 <= a < b < names.len()
            &&& button_edges(current, changed)[j].button == names[a]
            &&& button_edges(current, changed)[k].button == names[b]
        }),
{
    let n = button_table().len() as int;
    assert(button_table().take(n) =~= button_table());
    table_edges_ordered(j, k, n, current, changed)
}

/// Every event names one of the buttons.
pub proof fn button_edges_name_a_button(k: int, current: u16, changed: u16) -> (place: int)
    requires
        0 <= k < button_edges(current, changed).len(),
    ensures
        ({
            let names = seq![
                "DUp"@, "DDown"@, "DLeft"@, "DRight"@, "Start"@, "Back"@, "LS"@, "RS"@, "LB"@,
                "RB"@, "A"@, "B"@, "X"@, "Y"@, "Guide"@,
            ];
            &&& 0 <= place < names.len()
            &&& button_edges(current, changed)[k].button == names[place]
        }),
{
    let prev = current ^ changed;
    assert(current ^ (current ^ changed) == changed) by (bit_vector);
    button_edges_are_changes(k, prev, current)
}

/// A trigger is pressed exactly where its value rises to 30 or above from below,
/// released exactly where it falls below 30, and the event bears its name.
pub proof fn trigger_edges_tell_each_crossing(name: Seq<char>, prev: u8, current: u8)
    ensures
        prev < 30 <= current <==> trigger_edge(name, prev, current) == Some(
            Edge { pressed: true, button: name },
        ),
        current < 30 <= prev <==> trigger_edge(name, prev, current) == Some(
            Edge { pressed: false, button: name },
        ),
        trigger_edge(name, prev, current) matches Some(edge) ==> edge.button == name,
{
}

/// Events are read one by one: a press event stands for a press of its button, a
/// release event for a release.
pub proof fn events_are_read_one_by_one(events: Seq<GamepadEvent>, i: int)
    requires
        0 <= i < events.len(),
    ensures
        edges_of(events).len() == events.len(),
        events[i] matches GamepadEvent::ButtonPressed { button } ==> edges_of(events)[i].pressed
            && edges_of(events)[i].button == button@,
        events[i] matches GamepadEvent::ButtonReleased { button } ==> !edges_of(events)[i].pressed
            && edges_of(events)[i].button == button@,
{
}

/// Two edges of a trigger in a row are a press and a release, or a release and a
/// press.
pub proof fn trigger_edges_alternate(name: Seq<char>, a: u8, b: u8, c: u8)
    ensures
        trigger_edge(name, a, b) matches Some(first) ==> trigger_edge(name, b, c) matches Some(
            second,
        ) ==> first.pressed != second.pressed,
{
}

} // verus!
