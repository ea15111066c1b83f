//! What the virtual gamepad shows: the physical pad, less the suppressed trigger
//! keys, plus the keys that macros hold down.

use vstd::prelude::*;

use crate::config;
use crate::config::{Config, HotkeyConfig, TriggerSource};
use crate::gamepad::buttons;
use crate::text;

verus! {

/// The state of a gamepad: buttons, triggers and thumb sticks.
#[derive(Debug, Clone, Copy, PartialEq, Eq, Structural)]
pub struct PadState {
    pub buttons: u16,
    pub left_trigger: u8,
    pub right_trigger: u8,
    pub thumb_lx: i16,
    pub thumb_ly: i16,
    pub thumb_rx: i16,
    pub thumb_ry: i16,
}

/// Output state shared by the macros, the configuration and every listener.
#[derive(Debug, Clone, Copy, PartialEq, Eq, Structural)]
pub struct OutputState {
    /// Buttons that macros hold down.
    pub extra_buttons: u16,
    /// Left trigger value that macros ask for.
    pub extra_lt: u8,
    /// Right trigger value that macros ask for.
    pub extra_rt: u8,
    /// Physical buttons that are not passed through.
    pub suppress_buttons: u16,
    /// Whether the physical left trigger is not passed through.
    pub suppress_lt: bool,
    /// Whether the physical right trigger is not passed through.
    pub suppress_rt: bool,
    /// Whether the configuration needs a virtual pad.
    pub vigem_wanted: bool,
    /// Whether a failure to create the virtual pad was reported already.
    pub vigem_warned: bool,
    /// Whether some listener has, or is creating, the virtual pad.
    pub vigem_owner: bool,
    /// XInput slot of the virtual pad; negative while it is unknown.
    pub virtual_index: i32,
}

impl OutputState {
    /// The state at program start.
    pub open spec fn initial() -> OutputState {
        OutputState {
            extra_buttons: 0,
            extra_lt: 0,
            extra_rt: 0,
            suppress_buttons: 0,
            suppress_lt: false,
            suppress_rt: false,
            vigem_wanted: false,
            vigem_warned: false,
            vigem_owner: false,
            virtual_index: (-1) as i32,
        }
    }

    /// No macro key held, nothing suppressed, no virtual pad wanted or known.
    pub fn new() -> (out: OutputState)
        ensures
            out == OutputState::initial(),
    {
        OutputState {
            extra_buttons: 0,
            extra_lt: 0,
            extra_rt: 0,
            suppress_buttons: 0,
            suppress_lt: false,
            suppress_rt: false,
            vigem_wanted: false,
            vigem_warned: false,
            vigem_owner: false,
            virtual_index: -1,
        }
    }

    /// The state after a press of a canonical key; `None` for an unknown key.
    pub open spec fn pressed(self, canonical: Seq<char>) -> Option<OutputState> {
        if canonical == "LT"@ {
            Some(OutputState { extra_lt: 255, ..self })
        } else if canonical == "RT"@ {
            Some(OutputState { extra_rt: 255, ..self })
        } else {
            match buttons::name_mask(canonical) {
                Some(mask) => Some(
                    OutputState { extra_buttons: self.extra_buttons | mask, ..self },
                ),
                None => None,
            }
        }
    }

    /// The state after a release of a canonical key; `None` for an unknown key.
    pub open spec fn released(self, canonical: Seq<char>) -> Option<OutputState> {
        if canonical == "LT"@ {
            Some(OutputState { extra_lt: 0, ..self })
        } else if canonical == "RT"@ {
            Some(OutputState { extra_rt: 0, ..self })
        } else {
            match buttons::name_mask(canonical) {
                Some(mask) => Some(
                    OutputState { extra_buttons: self.extra_buttons & !mask, ..self },
                ),
                None => None,
            }
        }
    }

    /// The state with no macro key held.
    pub open spec fn cleared(self) -> OutputState {
        OutputState { extra_buttons: 0, extra_lt: 0, extra_rt: 0, ..self }
    }

    /// The state in which the given canonical keys, and no others, are suppressed.
    pub open spec fn suppressing(self, keys: Seq<Seq<char>>) -> OutputState {
        OutputState {
            suppress_buttons: keys_mask(keys),
            suppress_lt: keys.contains("LT"@),
            suppress_rt: keys.contains("RT"@),
            ..self
        }
    }

    /// The report of the virtual pad, given the physical pad that is passed
    /// through, if there is one.
    pub open spec fn report(self, passthrough: Option<PadState>) -> PadState {
        match passthrough {
            Some(pad) => PadState {
                buttons: (pad.buttons & !self.suppress_buttons) | self.extra_buttons,
                left_trigger: trigger_value(pad.left_trigger, self.extra_lt, self.suppress_lt),
                right_trigger: trigger_value(pad.right_trigger, self.extra_rt, self.suppress_rt),
                ..pad
            },
            None => PadState {
                buttons: self.extra_buttons,
                left_trigger: self.extra_lt,
                right_trigger: self.extra_rt,
                thumb_lx: 0,
                thumb_ly: 0,
                thumb_rx: 0,
                thumb_ry: 0,
            },
        }
    }
}

/// The mask of a key; no bits for a trigger or an unknown key.
pub open spec fn key_bits(key: Seq<char>) -> u16 {
    match buttons::name_mask(key) {
        Some(mask) => mask,
        None => 0,
    }
}

/// The masks of all keys together.
pub open spec fn keys_mask(keys: Seq<Seq<char>>) -> u16
    decreases keys.len(),
{
    if keys.len() == 0 {
        0
    } else {
        keys_mask(keys.drop_last()) | key_bits(keys.last())
    }
}

/// The larger of the physical and the macro value of a trigger, or the macro
/// value alone where the physical trigger is suppressed.
pub open spec fn trigger_value(physical: u8, extra: u8, suppress: bool) -> u8 {
    if suppress || extra >= physical {
        extra
    } else {
        physical
    }
}

/// The message for a key that is no gamepad key.
pub open spec fn unknown_key_message(name: Seq<char>) -> Seq<char> {
    "未知手柄按键: "@ + name
}

fn unknown_key(name: &str) -> (message: String)
    ensures
        message@ == unknown_key_message(name@),
{
    let mut message = "未知手柄按键: ".to_string();
    message.append(name);
    message
}

/// Holds down a key, given by its canonical name, on the virtual pad. `name` is
/// what the user wrote; it appears in the error for an unknown key.
pub fn press_canonical_key(out: &mut OutputState, canonical: &str, name: &str) -> (res: Result<
    (),
    String,
>)
    ensures
        match old(out).pressed(canonical@) {
            Some(after) => res is Ok && *final(out) == after,
            None => *final(out) == *old(out) && (res matches Err(message) && message@
                == unknown_key_message(name@)),
        },
{
    if text::same_text(canonical, "LT") {
        out.extra_lt = 255;
    } else if text::same_text(canonical, "RT") {
        out.extra_rt = 255;
    } else {
        match buttons::button_name_to_mask(canonical) {
            Some(mask) => {
                out.extra_buttons = out.extra_buttons | mask;
            },
            None => {
                return Err(unknown_key(name));
            },
        }
    }
    Ok(())
}

/// Lets go of a key, given by its canonical name, on the virtual pad. `name` is
/// what the user wrote; it appears in the error for an unknown key.
pub fn release_canonical_key(out: &mut OutputState, canonical: &str, name: &str) -> (res: Result<
    (),
    String,
>)
    ensures
        match old(out).released(canonical@) {
            Some(after) => res is Ok && *final(out) == after,
            None => *final(out) == *old(out) && (res matches Err(message) && message@
                == unknown_key_message(name@)),
        },
{
    if text::same_text(canonical, "LT") {
        out.extra_lt = 0;
    } else if text::same_text(canonical, "RT") {
        out.extra_rt = 0;
    } else {
        match buttons::button_name_to_mask(canonical) {
            Some(mask) => {
                out.extra_buttons = out.extra_buttons & !mask;
            },
            None => {
                return Err(unknown_key(name));
            },
        }
    }
    Ok(())
}

/// `canonical` is a canonical name that `canonicalize` may return for `key`.
pub open spec fn canonicalizes<F: Fn(&str) -> String>(
    canonicalize: F,
    key: Seq<char>,
    canonical: Seq<char>,
) -> bool {
    exists|k: &str, c: String|
        k@ == key && c@ == canonical && #[trigger] call_ensures(canonicalize, (k,), c)
}

/// `canonical` holds, key by key, canonical names that `canonicalize` may return.
pub open spec fn canonicalizes_all<F: Fn(&str) -> String>(
    canonicalize: F,
    keys: Seq<Seq<char>>,
    canonical: Seq<Seq<char>>,
) -> bool {
    &&& keys.len() == canonical.len()
    &&& forall|i: int|
        0 <= i < keys.len() ==> canonicalizes(canonicalize, #[trigger] keys[i], canonical[i])
}

/// Holds down a key on the virtual pad, on top of what is passed through.
/// `canonicalize` maps a key name of the configuration to its canonical name.
pub fn press_gamepad_button<F: Fn(&str) -> String>(
    out: &mut OutputState,
    canonicalize: &F,
    name: &str,
) -> (res: Result<(), String>)
    requires
        call_requires(*canonicalize, (name,)),
    ensures
        exists|canonical: Seq<char>| #[trigger]
            canonicalizes(*canonicalize, name@, canonical) && match old(out).pressed(canonical) {
                Some(after) => res is Ok && *final(out) == after,
                None => *final(out) == *old(out) && (res matches Err(message) && message@
                    == unknown_key_message(name@)),
            },
{
    let canonical = canonicalize(name);
    assert(canonicalizes(*canonicalize, name@, canonical@));
    press_canonical_key(out, canonical.as_str(), name)
}

/// Lets go of a key on the virtual pad. `canonicalize` maps a key name of the
/// configuration to its canonical name.
pub fn release_gamepad_button<F: Fn(&str) -> String>(
    out: &mut OutputState,
    canonicalize: &F,
    name: &str,
) -> (res: Result<(), String>)
    requires
        call_requires(*canonicalize, (name,)),
    ensures
        exists|canonical: Seq<char>| #[trigger]
            canonicalizes(*canonicalize, name@, canonical) && match old(out).released(canonical) {
                Some(after) => res is Ok && *final(out) == after,
                None => *final(out) == *old(out) && (res matches Err(message) && message@
                    == unknown_key_message(name@)),
            },
{
    let canonical = canonicalize(name);
    assert(canonicalizes(*canonicalize, name@, canonical@));
    release_canonical_key(out, canonical.as_str(), name)
}

/// Lets go of every key that a macro left held down.
pub fn clear_extra_buttons(out: &mut OutputState)
    ensures
        *final(out) == old(out).cleared(),
{
    out.extra_buttons = 0;
    out.extra_lt = 0;
    out.extra_rt = 0;
}

/// Stops passing through the given canonical keys, and passes through all others.
pub fn suppress_canonical_keys(out: &mut OutputState, keys: &Vec<String>)
    ensures
        *final(out) == old(out).suppressing(text::texts(keys@)),
{
    let ghost all = text::texts(keys@);
    let mut mask: u16 = 0;
    let mut lt = false;
    let mut rt = false;
    let mut i: usize = 0;
    assert(all.take(0) =~= seq![]);
    while i < keys.len()
        invariant
            i <= keys.len(),
            all == text::texts(keys@),
            mask == keys_mask(all.take(i as int)),
            lt == all.take(i as int).contains("LT"@),
            rt == all.take(i as int).contains("RT"@),
        decreases keys.len() - i,
    {
        let key = keys[i].as_str();
        let ghost before = all.take(i as int);
        let ghost after = all.take(i + 1);
        proof {
            assert(after.drop_last() =~= before);
            assert(after.last() == key@);
            assert(after =~= before.push(key@));
            assert forall|k: Seq<char>| #[trigger]
                after.contains(k) <==> before.contains(k) || k == key@ by {
                assert(after[i as int] == key@);
                if before.contains(k) {
                    let j = choose|j: int| 0 <= j < before.len() && before[j] == k;
                    assert(after[j] == k);
                }
            }
            buttons::trigger_names();
            assert(mask | 0 == mask) by (bit_vector);
        }
        if text::same_text(key, "LT") {
            lt = true;
        } else if text::same_text(key, "RT") {
            rt = true;
        } else {
            match buttons::button_name_to_mask(key) {
                Some(bits) => {
                    mask = mask | bits;
                },
                None => {},
            }
        }
        i = i + 1;
    }
    assert(all.take(i as int) =~= all);
    out.suppress_buttons = mask;
    out.suppress_lt = lt;
    out.suppress_rt = rt;
}

/// Follows a configuration: a virtual pad is wanted where the configuration writes
/// to a gamepad, and the physical keys that start a hold loop are suppressed.
/// `canonicalize` maps a key name of the configuration to its canonical name.
pub fn apply_output_config<Step, Other, F: Fn(&str) -> String>(
    out: &mut OutputState,
    config: &Config<Step, Other>,
    needs_virtual_gamepad: bool,
    canonicalize: &F,
)
    requires
        forall|key: &str| call_requires(*canonicalize, (key,)),
    ensures
        exists|keys: Seq<Seq<char>>|
            {
                &&& canonicalizes_all(
                    *canonicalize,
                    config::hold_loop_keys(config.hotkeys@),
                    keys,
                )
                &&& *final(out) == (OutputState {
                    vigem_wanted: needs_virtual_gamepad,
                    ..*old(out)
                }).suppressing(keys)
            },
{
    let mut keys: Vec<String> = Vec::new();
    let mut i: usize = 0;
    let ghost hotkeys = config.hotkeys@;
    assert(config::hold_loop_keys(hotkeys.take(0)) =~= seq![]) by {
        reveal(Seq::filter);
    }
    while i < config.hotkeys.len()
        invariant
            i <= config.hotkeys.len(),
            hotkeys == config.hotkeys@,
            forall|key: &str| call_requires(*canonicalize, (key,)),
            canonicalizes_all(
                *canonicalize,
                config::hold_loop_keys(hotkeys.take(i as int)),
                text::texts(keys@),
            ),
        decreases config.hotkeys.len() - i,
    {
        let hotkey = &config.hotkeys[i];
        let ghost raw = config::hold_loop_keys(hotkeys.take(i as int));
        let ghost before = text::texts(keys@);
        proof {
            config::hold_loop_keys_push(hotkeys.take(i as int), *hotkey);
            assert(hotkeys.take(i as int).push(*hotkey) =~= hotkeys.take(i + 1));
        }
        if hotkey.enabled && text::same_text(hotkey.action.as_str(), "hold_loop") {
            match &hotkey.trigger {
                TriggerSource::Gamepad { key } => {
                    let canonical = canonicalize(key.as_str());
                    assert(canonicalizes(*canonicalize, key@, canonical@));
                    keys.push(canonical);
                    assert(text::texts(keys@) =~= before.push(canonical@));
                    assert(canonicalizes_all(
                        *canonicalize,
                        raw.push(key@),
                        before.push(canonical@),
                    ));
                },
                TriggerSource::Keyboard { .. } => {},
            }
        }
        i = i + 1;
    }
    assert(hotkeys.take(i as int) =~= hotkeys);
    out.vigem_wanted = needs_virtual_gamepad;
    suppress_canonical_keys(out, &keys);
}

fn merge_trigger(physical: u8, extra: u8, suppress: bool) -> (value: u8)
    ensures
        value == trigger_value(physical, extra, suppress),
{
    if suppress || extra >= physical {
        extra
    } else {
        physical
    }
}

/// The report to submit to the virtual pad.
pub fn compose_report(out: &OutputState, passthrough: Option<PadState>) -> (report: PadState)
    ensures
        report == out.report(passthrough),
{
    match passthrough {
        Some(pad) => PadState {
            buttons: (pad.buttons & !out.suppress_buttons) | out.extra_buttons,
            left_trigger: merge_trigger(pad.left_trigger, out.extra_lt, out.suppress_lt),
            right_trigger: merge_trigger(pad.right_trigger, out.extra_rt, out.suppress_rt),
            thumb_lx: pad.thumb_lx,
            thumb_ly: pad.thumb_ly,
            thumb_rx: pad.thumb_rx,
            thumb_ry: pad.thumb_ry,
        },
        None => PadState {
            buttons: out.extra_buttons,
            left_trigger: out.extra_lt,
            right_trigger: out.extra_rt,
            thumb_lx: 0,
            thumb_ly: 0,
            thumb_rx: 0,
            thumb_ry: 0,
        },
    }
}

/// The keys that can be pressed are the keys that can be released: the triggers
/// and the buttons with a mask.
pub proof fn press_and_release_know_the_same_keys(a: OutputState, b: OutputState, key: Seq<char>)
    ensures
        a.pressed(key) is Some <==> b.released(key) is Some,
        a.pressed(key) is Some <==> key == "LT"@ || key == "RT"@ || buttons::name_mask(
            key,
        ) is Some,
{
}

/// A key that a macro holds down is in every report, whatever the physical pad
/// does and whatever is suppressed.
pub proof fn pressed_key_is_in_every_report(
    out: OutputState,
    key: Seq<char>,
    passthrough: Option<PadState>,
)
    requires
        out.pressed(key) is Some,
    ensures
        ({
            let report = out.pressed(key)->0.report(passthrough);
            &&& key == "LT"@ ==> report.left_trigger == 255
            &&& key == "RT"@ ==> report.right_trigger == 255
            &&& buttons::name_mask(key) matches Some(mask) ==> report.buttons & mask == mask
        }),
{
    buttons::trigger_names();
    if let Some(mask) = buttons::name_mask(key) {
        let extra = out.extra_buttons;
        assert((extra | mask) & mask == mask) by (bit_vector);
        if let Some(pad) = passthrough {
            let physical = pad.buttons & !out.suppress_buttons;
            assert((physical | (extra | mask)) & mask == mask) by (bit_vector);
        }
    }
}

/// Whether a macro holds down any part of a key.
pub open spec fn holds_key(out: OutputState, key: Seq<char>) -> bool {
    if key == "LT"@ {
        out.extra_lt != 0
    } else if key == "RT"@ {
        out.extra_rt != 0
    } else {
        out.extra_buttons & key_bits(key) != 0
    }
}

/// A release undoes a press: what is left is what a release alone would leave,
/// and the state before the press where the key was not held then.
pub proof fn release_undoes_press(out: OutputState, key: Seq<char>)
    requires
        out.pressed(key) is Some,
    ensures
        out.pressed(key)->0.released(key) == out.released(key),
        !holds_key(out, key) ==> out.pressed(key)->0.released(key) == Some(out),
{
    if let Some(mask) = buttons::name_mask(key) {
        let extra = out.extra_buttons;
        assert((extra | mask) & !mask == extra & !mask) by (bit_vector);
        assert(extra & mask == 0 ==> extra & !mask == extra) by (bit_vector);
    }
}

/// Pressing a held key again changes nothing.
pub proof fn press_is_idempotent(out: OutputState, key: Seq<char>)
    requires
        out.pressed(key) is Some,
    ensures
        out.pressed(key)->0.pressed(key) == out.pressed(key),
{
    if let Some(mask) = buttons::name_mask(key) {
        let extra = out.extra_buttons;
        assert((extra | mask) | mask == extra | mask) by (bit_vector);
    }
}

/// The order in which keys are pressed does not matter.
pub proof fn press_order_does_not_matter(out: OutputState, a: Seq<char>, b: Seq<char>)
    requires
        out.pressed(a) is Some,
        out.pressed(b) is Some,
    ensures
        out.pressed(a)->0.pressed(b) == out.pressed(b)->0.pressed(a),
{
    let extra = out.extra_buttons;
    if let (Some(m), Some(n)) = (buttons::name_mask(a), buttons::name_mask(b)) {
        assert((extra | m) | n == (extra | n) | m) by (bit_vector);
    }
}

/// Macro keys and suppression leave the ownership and the slot of the virtual pad
/// alone, and suppression leaves the macro keys alone.
pub proof fn keys_leave_the_pad_alone(out: OutputState, key: Seq<char>, keys: Seq<Seq<char>>)
    ensures
        forall|next: OutputState|
            out.pressed(key) == Some(next) || out.released(key) == Some(next) || next
                == out.cleared() || next == out.suppressing(keys) ==> {
                &&& #[trigger] next.vigem_owner == out.vigem_owner
                &&& next.vigem_wanted == out.vigem_wanted
                &&& next.vigem_warned == out.vigem_warned
                &&& next.virtual_index == out.virtual_index
            },
        out.suppressing(keys).cleared() == out.cleared().suppressing(keys),
        out.suppressing(keys).extra_buttons == out.extra_buttons,
        out.suppressing(keys).extra_lt == out.extra_lt,
        out.suppressing(keys).extra_rt == out.extra_rt,
{
}

/// A bit is in the mask of some keys exactly where one of them brings it.
pub proof fn keys_mask_is_the_union(keys: Seq<Seq<char>>, bit: u16)
    ensures
        keys_mask(keys) & bit != 0 <==> exists|i: int|
            0 <= i < keys.len() && key_bits(#[trigger] keys[i]) & bit != 0,
    decreases keys.len(),
{
    if keys.len() == 0 {
        assert(0u16 & bit == 0) by (bit_vector);
    } else {
        let rest = keys.drop_last();
        let a = keys_mask(rest);
        let b = key_bits(keys.last());
        keys_mask_is_the_union(rest, bit);
        assert((a | b) & bit != 0 <==> a & bit != 0 || b & bit != 0) by (bit_vector);
        if a & bit != 0 {
            let i = choose|i: int|
                0 <= i < rest.len() && key_bits(#[trigger] rest[i]) & bit != 0;
            assert(key_bits(keys[i]) & bit != 0);
        }
        if exists|i: int| 0 <= i < keys.len() && key_bits(#[trigger] keys[i]) & bit != 0 {
            let i = choose|i: int|
                0 <= i < keys.len() && key_bits(#[trigger] keys[i]) & bit != 0;
            if i < rest.len() {
                assert(key_bits(rest[i]) & bit != 0);
            }
        }
        assert(keys[keys.len() - 1] == keys.last());
    }
}

/// Of a canonical key, the report holds only what macros hold down.
pub open spec fn hides_key(out: OutputState, key: Seq<char>, pad: PadState) -> bool {
    let report = out.report(Some(pad));
    &&& key == "LT"@ ==> report.left_trigger == out.extra_lt
    &&& key == "RT"@ ==> report.right_trigger == out.extra_rt
    &&& buttons::name_mask(key) matches Some(mask) ==> report.buttons & mask == out.extra_buttons
        & mask
}

/// A suppressed key is hidden, whatever the physical pad does.
pub proof fn suppressed_key_is_hidden(
    out: OutputState,
    keys: Seq<Seq<char>>,
    i: int,
    pad: PadState,
)
    requires
        0 <= i < keys.len(),
    ensures
        hides_key(out.suppressing(keys), keys[i], pad),
{
    if let Some(mask) = buttons::name_mask(keys[i]) {
        let hidden = keys_mask(keys);
        let extra = out.extra_buttons;
        let physical = pad.buttons;
        buttons::mask_is_a_single_bit(keys[i]);
        assert(mask & mask == mask) by (bit_vector);
        assert(key_bits(keys[i]) & mask != 0);
        keys_mask_is_the_union(keys, mask);
        assert(((physical & !hidden) | extra) & mask == extra & mask) by (bit_vector)
            requires
                hidden & mask != 0,
                mask != 0 && mask & (mask - 1) as u16 == 0,
        ;
    }
}

/// The game does not see the key that starts a hold loop: for every enabled hold
/// loop on a gamepad key, the canonical name of its key is hidden.
pub proof fn hold_loop_key_is_hidden<Step, Other>(
    out: OutputState,
    hotkeys: Seq<HotkeyConfig<Step, Other>>,
    canonical: Seq<Seq<char>>,
    i: int,
    pad: PadState,
)
    requires
        canonical.len() == config::hold_loop_keys(hotkeys).len(),
        0 <= i < hotkeys.len(),
        hotkeys[i].hold_loop_key() is Some,
    ensures
        exists|k: int|
            {
                &&& 0 <= k < canonical.len()
                &&& Some(config::hold_loop_keys(hotkeys)[k]) == hotkeys[i].hold_loop_key()
                &&& hides_key(out.suppressing(canonical), #[trigger] canonical[k], pad)
            },
{
    let k = config::hold_loop_is_among_the_keys(hotkeys, i);
    suppressed_key_is_hidden(out, canonical, k, pad);
    assert(hides_key(out.suppressing(canonical), canonical[k], pad));
}

/// What is neither suppressed nor held by a macro is passed through: buttons,
/// triggers and, always, the thumb sticks.
pub proof fn the_rest_passes_through(out: OutputState, pad: PadState, mask: u16)
    ensures
        ({
            let report = out.report(Some(pad));
            &&& mask & out.suppress_buttons == 0 && mask & out.extra_buttons == 0
                ==> report.buttons & mask == pad.buttons & mask
            &&& !out.suppress_lt && out.extra_lt == 0 ==> report.left_trigger
                == pad.left_trigger
            &&& !out.suppress_rt && out.extra_rt == 0 ==> report.right_trigger
                == pad.right_trigger
            &&& report.thumb_lx == pad.thumb_lx
            &&& report.thumb_ly == pad.thumb_ly
            &&& report.thumb_rx == pad.thumb_rx
            &&& report.thumb_ry == pad.thumb_ry
        }),
{
    let hidden = out.suppress_buttons;
    let extra = out.extra_buttons;
    let physical = pad.buttons;
    assert(mask & hidden == 0 && mask & extra == 0 ==> ((physical & !hidden) | extra) & mask
        == physical & mask) by (bit_vector);
}

/// With no macro key held and nothing suppressed the virtual pad mirrors the
/// physical one.
pub proof fn idle_report_mirrors_the_pad(out: OutputState, pad: PadState)
    ensures
        out.cleared().suppressing(seq![]).report(Some(pad)) == pad,
{
    let physical = pad.buttons;
    assert((physical & !0u16) | 0 == physical) by (bit_vector);
}

/// A press sets its own key and nothing else: a trigger goes to its full value, a
/// button gets its bit, every other macro key and all the rest stay.
pub proof fn press_touches_its_key_only(out: OutputState, key: Seq<char>, bit: u16)
    requires
        out.pressed(key) is Some,
    ensures
        ({
            let next = out.pressed(key)->0;
            &&& next.extra_lt == if key == "LT"@ {
                255
            } else {
                out.extra_lt
            }
            &&& next.extra_rt == if key == "RT"@ {
                255
            } else {
                out.extra_rt
            }
            &&& buttons::name_mask(key) is None ==> next.extra_buttons == out.extra_buttons
            &&& buttons::name_mask(key) matches Some(mask) ==> next.extra_buttons & mask == mask
                && (bit & mask == 0 ==> next.extra_buttons & bit == out.extra_buttons & bit)
            &&& next.suppress_buttons == out.suppress_buttons
            &&& next.suppress_lt == out.suppress_lt
            &&& next.suppress_rt == out.suppress_rt
            &&& next.vigem_wanted == out.vigem_wanted
            &&& next.vigem_warned == out.vigem_warned
            &&& next.vigem_owner == out.vigem_owner
            &&& next.virtual_index == out.virtual_index
        }),
{
    buttons::trigger_names();
    if let Some(mask) = buttons::name_mask(key) {
        let extra = out.extra_buttons;
        assert((extra | mask) & mask == mask) by (bit_vector);
        assert(bit & mask == 0 ==> (extra | mask) & bit == extra & bit) by (bit_vector);
    }
}

/// A release takes back its own key and nothing else: a trigger goes to zero, a
/// button loses its bit, every other macro key and all the rest stay.
pub proof fn release_touches_its_key_only(out: OutputState, key: Seq<char>, bit: u16)
    requires
        out.released(key) is Some,
    ensures
        ({
            let next = out.released(key)->0;
            &&& next.extra_lt == if key == "LT"@ {
                0
            } else {
                out.extra_lt
            }
            &&& next.extra_rt == if key == "RT"@ {
                0
            } else {
                out.extra_rt
            }
            &&& buttons::name_mask(key) is None ==> next.extra_buttons == out.extra_buttons
            &&& buttons::name_mask(key) matches Some(mask) ==> next.extra_buttons & mask == 0 && (
            bit & mask == 0 ==> next.extra_buttons & bit == out.extra_buttons & bit)
            &&& next.suppress_buttons == out.suppress_buttons
            &&& next.suppress_lt == out.suppress_lt
            &&& next.suppress_rt == out.suppress_rt
            &&& next.vigem_wanted == out.vigem_wanted
            &&& next.vigem_warned == out.vigem_warned
            &&& next.vigem_owner == out.vigem_owner
            &&& next.virtual_index == out.virtual_index
        }),
{
    buttons::trigger_names();
    if let Some(mask) = buttons::name_mask(key) {
        let extra = out.extra_buttons;
        assert((extra & !mask) & mask == 0) by (bit_vector);
        assert(bit & mask == 0 ==> (extra & !mask) & bit == extra & bit) by (bit_vector);
    }
}

/// Clearing lets go of every macro key and touches nothing else.
pub proof fn clearing_touches_macro_keys_only(out: OutputState)
    ensures
        out.cleared().extra_buttons == 0,
        out.cleared().extra_lt == 0,
        out.cleared().extra_rt == 0,
        out.cleared().suppress_buttons == out.suppress_buttons,
        out.cleared().suppress_lt == out.suppress_lt,
        out.cleared().suppress_rt == out.suppress_rt,
        out.cleared().vigem_wanted == out.vigem_wanted,
        out.cleared().vigem_warned == out.vigem_warned,
        out.cleared().vigem_owner == out.vigem_owner,
        out.cleared().virtual_index == out.virtual_index,
{
}

/// At program start nothing is held, suppressed, wanted or known.
pub proof fn initial_output_is_at_rest()
    ensures
        OutputState::initial().cleared() == OutputState::initial(),
        OutputState::initial().suppressing(seq![]) == OutputState::initial(),
        !OutputState::initial().vigem_wanted,
        !OutputState::initial().vigem_warned,
        !OutputState::initial().vigem_owner,
        OutputState::initial().virtual_index < 0,
{
}

/// Every bit of a report: a button is down exactly where a macro holds it, or the
/// physical pad does and it is not suppressed.
pub proof fn report_button_by_button(out: OutputState, pad: PadState, bit: u16)
    requires
        bit != 0,
        bit & (bit - 1) as u16 == 0,
    ensures
        out.report(Some(pad)).buttons & bit != 0 <==> out.extra_buttons & bit != 0 || (pad.buttons
            & bit != 0 && out.suppress_buttons & bit == 0),
        out.report(None).buttons & bit != 0 <==> out.extra_buttons & bit != 0,
{
    let physical = pad.buttons;
    let hidden = out.suppress_buttons;
    let extra = out.extra_buttons;
    assert(((physical & !hidden) | extra) & bit != 0 <==> extra & bit != 0 || (physical & bit != 0
        && hidden & bit == 0)) by (bit_vector)
        requires
            bit != 0,
            bit & (bit - 1) as u16 == 0,
    ;
}

/// The triggers of a report: a suppressed one shows the macro value; any other shows
/// no less than either value, and one of the two.
pub proof fn report_triggers(out: OutputState, pad: PadState)
    ensures
        ({
            let report = out.report(Some(pad));
            &&& out.suppress_lt ==> report.left_trigger == out.extra_lt
            &&& !out.suppress_lt ==> report.left_trigger >= out.extra_lt && report.left_trigger
                >= pad.left_trigger && (report.left_trigger == out.extra_lt
                || report.left_trigger == pad.left_trigger)
            &&& out.suppress_rt ==> report.right_trigger == out.extra_rt
            &&& !out.suppress_rt ==> report.right_trigger >= out.extra_rt && report.right_trigger
                >= pad.right_trigger && (report.right_trigger == out.extra_rt
                || report.right_trigger == pad.right_trigger)
        }),
{
}

/// Without a physical pad the report holds what macros hold and nothing else; it is
/// the report of a pad at rest.
pub proof fn report_without_a_pad_is_that_of_a_pad_at_rest(out: OutputState, mask: u16)
    ensures
        ({
            let report = out.report(None);
            let rest = PadState {
                buttons: 0,
                left_trigger: 0,
                right_trigger: 0,
                thumb_lx: 0,
                thumb_ly: 0,
                thumb_rx: 0,
                thumb_ry: 0,
            };
            &&& report == out.report(Some(rest))
            &&& report.buttons & mask == out.extra_buttons & mask
            &&& report.left_trigger == out.extra_lt
            &&& report.right_trigger == out.extra_rt
            &&& out.cleared().report(None) == rest
        }),
{
    let hidden = out.suppress_buttons;
    let extra = out.extra_buttons;
    assert((0u16 & !hidden) | extra == extra) by (bit_vector);
}

/// Left and right are alike: exchanging the two triggers everywhere exchanges them
/// in the report and changes nothing else.
pub proof fn report_is_the_same_for_both_triggers(out: OutputState, passthrough: Option<PadState>)
    ensures
        ({
            let mirrored = OutputState {
                extra_lt: out.extra_rt,
                extra_rt: out.extra_lt,
                suppress_lt: out.suppress_rt,
                suppress_rt: out.suppress_lt,
                ..out
            };
            let mirrored_pad = match passthrough {
                Some(pad) => Some(
                    PadState {
                        left_trigger: pad.right_trigger,
                        right_trigger: pad.left_trigger,
                        ..pad
                    },
                ),
                None => None,
            };
            let report = out.report(passthrough);
            mirrored.report(mirrored_pad) == (PadState {
                left_trigger: report.right_trigger,
                right_trigger: report.left_trigger,
                ..report
            })
        }),
{
}

/// The report depends on the macro keys, the suppression and the pad only.
pub proof fn report_ignores_the_pad_ownership(
    out: OutputState,
    other: OutputState,
    passthrough: Option<PadState>,
)
    requires
        out.extra_buttons == other.extra_buttons,
        out.extra_lt == other.extra_lt,
        out.extra_rt == other.extra_rt,
        out.suppress_buttons == other.suppress_buttons,
        out.suppress_lt == other.suppress_lt,
        out.suppress_rt == other.suppress_rt,
    ensures
        out.report(passthrough) == other.report(passthrough),
{
}

/// Exactly the given keys are suppressed: a trigger where its name is among them, a
/// bit where it belongs to a button among them. The macro keys and the virtual pad
/// are left alone.
pub proof fn suppression_hides_the_given_keys_only(
    out: OutputState,
    keys: Seq<Seq<char>>,
    bit: u16,
)
    ensures
        ({
            let next = out.suppressing(keys);
            &&& next.suppress_lt <==> exists|i: int| 0 <= i < keys.len() && #[trigger] keys[i] == "LT"@
            &&& next.suppress_rt <==> exists|i: int| 0 <= i < keys.len() && #[trigger] keys[i] == "RT"@
            &&& next.suppress_buttons & bit != 0 <==> exists|i: int|
                0 <= i < keys.len() && (buttons::name_mask(#[trigger] keys[i]) matches Some(mask)
                    && mask & bit != 0)
            &&& next.extra_buttons == out.extra_buttons
            &&& next.extra_lt == out.extra_lt
            &&& next.extra_rt == out.extra_rt
            &&& next.vigem_wanted == out.vigem_wanted
            &&& next.vigem_warned == out.vigem_warned
            &&& next.vigem_owner == out.vigem_owner
            &&& next.virtual_index == out.virtual_index
        }),
{
    let next = out.suppressing(keys);
    keys_mask_is_the_union(keys, bit);
    assert(0u16 & bit == 0) by (bit_vector);
    if exists|i: int| 0 <= i < keys.len() && key_bits(#[trigger] keys[i]) & bit != 0 {
        let i = choose|i: int| 0 <= i < keys.len() && key_bits(#[trigger] keys[i]) & bit != 0;
        assert(buttons::name_mask(keys[i]) is Some);
    }
    if exists|i: int|
        0 <= i < keys.len() && (buttons::name_mask(#[trigger] keys[i]) matches Some(mask) && mask
            & bit != 0) {
        let i = choose|i: int|
            0 <= i < keys.len() && (buttons::name_mask(#[trigger] keys[i]) matches Some(mask)
                && mask & bit != 0);
        assert(key_bits(keys[i]) & bit != 0);
    }
}

/// What is not among the suppressed keys reaches the game: its trigger value, or its
/// buttons, where no macro holds them.
pub proof fn other_keys_reach_the_game(
    out: OutputState,
    keys: Seq<Seq<char>>,
    pad: PadState,
    mask: u16,
)
    ensures
        ({
            let report = out.suppressing(keys).report(Some(pad));
            &&& !keys.contains("LT"@) && out.extra_lt == 0 ==> report.left_trigger
                == pad.left_trigger
            &&& !keys.contains("RT"@) && out.extra_rt == 0 ==> report.right_trigger
                == pad.right_trigger
            &&& out.extra_buttons & mask == 0 && (forall|i: int|
                0 <= i < keys.len() ==> (buttons::name_mask(#[trigger] keys[i]) matches Some(own)
                    ==> own & mask == 0)) ==> report.buttons & mask == pad.buttons & mask
        }),
{
    let next = out.suppressing(keys);
    suppression_hides_the_given_keys_only(out, keys, mask);
    if forall|i: int|
        0 <= i < keys.len() ==> (buttons::name_mask(#[trigger] keys[i]) matches Some(own) ==> own
            & mask == 0) {
        assert(next.suppress_buttons & mask == 0);
    }
    let hidden = next.suppress_buttons;
    let extra = out.extra_buttons;
    let physical = pad.buttons;
    assert(hidden & mask == 0 && extra & mask == 0 ==> ((physical & !hidden) | extra) & mask
        == physical & mask) by (bit_vector);
}

/// Where the mapping of key names is a function, a canonical name is its value.
pub proof fn canonical_name_is_what_the_mapping_returns<F: Fn(&str) -> String>(
    canonicalize: F,
    mapping: spec_fn(Seq<char>) -> Seq<char>,
    key: Seq<char>,
    canonical: Seq<char>,
)
    requires
        forall|k: &str, c: String| #[trigger]
            call_ensures(canonicalize, (k,), c) ==> c@ == mapping(k@),
        canonicalizes(canonicalize, key, canonical),
    ensures
        canonical == mapping(key),
{
}

/// Key by key, the canonical names of a list are what the mapping returns.
pub proof fn canonical_names_are_what_the_mapping_returns<F: Fn(&str) -> String>(
    canonicalize: F,
    mapping: spec_fn(Seq<char>) -> Seq<char>,
    keys: Seq<Seq<char>>,
    canonical: Seq<Seq<char>>,
)
    requires
        forall|k: &str, c: String| #[trigger]
            call_ensures(canonicalize, (k,), c) ==> c@ == mapping(k@),
        canonicalizes_all(canonicalize, keys, canonical),
    ensures
        canonical == keys.map_values(mapping),
{
    assert forall|i: int| 0 <= i < keys.len() implies #[trigger] canonical[i] == mapping(
        keys[i],
    ) by {
        assert(canonicalizes(canonicalize, keys[i], canonical[i]));
    }
    assert(canonical =~= keys.map_values(mapping));
}

/// The message for an unknown key ends with the name that the user wrote, and names
/// that differ have messages that differ.
pub proof fn unknown_key_message_ends_with_the_name(a: Seq<char>, b: Seq<char>)
    ensures
        ({
            let prefix = "未知手柄按键: "@;
            let message = unknown_key_message(a);
            &&& message.len() == prefix.len() + a.len()
            &&& message.take(prefix.len() as int) == prefix
            &&& message.skip(prefix.len() as int) == a
        }),
        unknown_key_message(a) == unknown_key_message(b) ==> a == b,
{
    let prefix = "未知手柄按键: "@;
    assert(unknown_key_message(a).take(prefix.len() as int) =~= prefix);
    assert(unknown_key_message(a).skip(prefix.len() as int) =~= a);
    assert(unknown_key_message(b).skip(prefix.len() as int) =~= b);
}

} // verus!
