//! The part of the configuration that the gamepad output and the macro list read.

use vstd::prelude::*;

verus! {

/// What starts a macro.
#[derive(Debug)]
pub enum TriggerSource {
    Keyboard { key: String },
    Gamepad { key: String },
}

impl TriggerSource {
    /// The name of the key.
    pub open spec fn key(self) -> Seq<char> {
        match self {
            TriggerSource::Keyboard { key } => key@,
            TriggerSource::Gamepad { key } => key@,
        }
    }
}

impl Clone for TriggerSource {
    fn clone(&self) -> (res: TriggerSource)
        ensures
            res == *self,
    {
        match self {
            TriggerSource::Keyboard { key } => TriggerSource::Keyboard { key: key.clone() },
            TriggerSource::Gamepad { key } => TriggerSource::Gamepad { key: key.clone() },
        }
    }
}

/// The steps of a sequence macro; `Step` is the type of one step.
#[derive(Debug)]
pub struct SequenceParams<Step> {
    pub steps: Vec<Step>,
}

/// The parameters of a macro. `Other` stands for those of the actions that are
/// no sequence.
#[derive(Debug)]
pub enum ActionParams<Step, Other> {
    Sequence(SequenceParams<Step>),
    Other(Other),
}

impl<Step, Other> ActionParams<Step, Other> {
    /// `copy` is a copy of these parameters, as far as the parts copy themselves.
    pub open spec fn copied_as(self, copy: ActionParams<Step, Other>) -> bool where
        Step: Clone,
        Other: Clone,
     {
        match (self, copy) {
            (ActionParams::Sequence(a), ActionParams::Sequence(b)) => {
                &&& a.steps@.len() == b.steps@.len()
                &&& forall|i: int|
                    0 <= i < a.steps@.len() ==> cloned(#[trigger] a.steps@[i], b.steps@[i])
            },
            (ActionParams::Other(a), ActionParams::Other(b)) => cloned(a, b),
            _ => false,
        }
    }
}

impl<Step: Clone, Other: Clone> Clone for ActionParams<Step, Other> {
    fn clone(&self) -> (res: ActionParams<Step, Other>)
        ensures
            self.copied_as(res),
    {
        match self {
            ActionParams::Sequence(params) => ActionParams::Sequence(
                SequenceParams { steps: params.steps.clone() },
            ),
            ActionParams::Other(other) => ActionParams::Other(other.clone()),
        }
    }
}

/// One macro.
#[derive(Debug)]
pub struct HotkeyConfig<Step, Other> {
    pub trigger: TriggerSource,
    pub enabled: bool,
    pub action: String,
    pub params: ActionParams<Step, Other>,
}

impl<Step, Other> HotkeyConfig<Step, Other> {
    /// `copy` is a copy of this macro.
    pub open spec fn copied_as(self, copy: HotkeyConfig<Step, Other>) -> bool where
        Step: Clone,
        Other: Clone,
     {
        &&& copy.trigger == self.trigger
        &&& copy.enabled == self.enabled
        &&& copy.action == self.action
        &&& self.params.copied_as(copy.params)
    }

    /// The key of an enabled macro that loops while a gamepad key is held.
    pub open spec fn hold_loop_key(self) -> Option<Seq<char>> {
        match self.trigger {
            TriggerSource::Gamepad { key } => if self.enabled && self.action@ == "hold_loop"@ {
                Some(key@)
            } else {
                None
            },
            TriggerSource::Keyboard { .. } => None,
        }
    }
}

impl<Step: Clone, Other: Clone> Clone for HotkeyConfig<Step, Other> {
    fn clone(&self) -> (res: HotkeyConfig<Step, Other>)
        ensures
            self.copied_as(res),
    {
        HotkeyConfig {
            trigger: self.trigger.clone(),
            enabled: self.enabled,
            action: self.action.clone(),
            params: self.params.clone(),
        }
    }
}

/// The macros of a configuration, in the order of the list.
#[derive(Debug)]
pub struct Config<Step, Other> {
    pub hotkeys: Vec<HotkeyConfig<Step, Other>>,
}

/// The keys of the enabled macros that loop while a gamepad key is held, in the
/// order of the list.
pub open spec fn hold_loop_keys<Step, Other>(
    hotkeys: Seq<HotkeyConfig<Step, Other>>,
) -> Seq<Seq<char>> {
    hotkeys.filter(|h: HotkeyConfig<Step, Other>| h.hold_loop_key() is Some).map_values(
        |h: HotkeyConfig<Step, Other>| h.hold_loop_key()->0,
    )
}

/// A list that grows by one macro has at most one key more.
pub proof fn hold_loop_keys_push<Step, Other>(
    hotkeys: Seq<HotkeyConfig<Step, Other>>,
    hotkey: HotkeyConfig<Step, Other>,
)
    ensures
        hold_loop_keys(hotkeys.push(hotkey)) == match hotkey.hold_loop_key() {
            Some(key) => hold_loop_keys(hotkeys).push(key),
            None => hold_loop_keys(hotkeys),
        },
{
    reveal(Seq::filter);
    assert(hotkeys.push(hotkey).drop_last() =~= hotkeys);
    assert(hold_loop_keys(hotkeys.push(hotkey)) =~= match hotkey.hold_loop_key() {
        Some(key) => hold_loop_keys(hotkeys).push(key),
        None => hold_loop_keys(hotkeys),
    });
}

/// Every enabled hold loop on a gamepad key is among the keys.
pub proof fn hold_loop_is_among_the_keys<Step, Other>(
    hotkeys: Seq<HotkeyConfig<Step, Other>>,
    i: int,
) -> (k: int)
    requires
        0 <= i < hotkeys.len(),
        hotkeys[i].hold_loop_key() is Some,
    ensures
        0 <= k < hold_loop_keys(hotkeys).len(),
        Some(hold_loop_keys(hotkeys)[k]) == hotkeys[i].hold_loop_key(),
    decreases hotkeys.len(),
{
    let rest = hotkeys.drop_last();
    hold_loop_keys_push(rest, hotkeys.last());
    assert(rest.push(hotkeys.last()) =~= hotkeys);
    if i == rest.len() {
        hold_loop_keys(rest).len() as int
    } else {
        hold_loop_is_among_the_keys(rest, i)
    }
}

/// Every one of the keys starts an enabled hold loop.
pub proof fn key_belongs_to_a_hold_loop<Step, Other>(
    hotkeys: Seq<HotkeyConfig<Step, Other>>,
    k: int,
) -> (i: int)
    requires
        0 <= k < hold_loop_keys(hotkeys).len(),
    ensures
        0 <= i < hotkeys.len(),
        Some(hold_loop_keys(hotkeys)[k]) == hotkeys[i].hold_loop_key(),
    decreases hotkeys.len(),
{
    reveal(Seq::filter);
    let rest = hotkeys.drop_last();
    hold_loop_keys_push(rest, hotkeys.last());
    assert(rest.push(hotkeys.last()) =~= hotkeys);
    if k == hold_loop_keys(rest).len() {
        rest.len() as int
    } else {
        key_belongs_to_a_hold_loop(rest, k)
    }
}

/// The keys of two lists in a row are the keys of the first and then those of the
/// second.
pub proof fn hold_loop_keys_of_two_lists<Step, Other>(
    first: Seq<HotkeyConfig<Step, Other>>,
    second: Seq<HotkeyConfig<Step, Other>>,
)
    ensures
        hold_loop_keys(first + second) == hold_loop_keys(first) + hold_loop_keys(second),
    decreases second.len(),
{
    if second.len() == 0 {
        reveal(Seq::filter);
        assert(first + second =~= first);
        assert(hold_loop_keys(second) =~= seq![]);
        assert(hold_loop_keys(first) + hold_loop_keys(second) =~= hold_loop_keys(first));
    } else {
        let rest = second.drop_last();
        let last = second.last();
        hold_loop_keys_of_two_lists(first, rest);
        hold_loop_keys_push(first + rest, last);
        hold_loop_keys_push(rest, last);
        assert((first + rest).push(last) =~= first + second);
        assert(rest.push(last) =~= second);
        assert(hold_loop_keys(first + second) =~= hold_loop_keys(first) + hold_loop_keys(second));
    }
}

/// One macro brings its key exactly where it is enabled, its action is `hold_loop`
/// and a gamepad key starts it; its steps play no part.
pub proof fn hold_loop_keys_of_one_macro<Step, Other>(hotkey: HotkeyConfig<Step, Other>)
    ensures
        hotkey.trigger matches TriggerSource::Gamepad { key } ==> hotkey.enabled
            && hotkey.action@ == "hold_loop"@ ==> hold_loop_keys(seq![hotkey]) == seq![key@],
        hotkey.trigger is Keyboard || !hotkey.enabled || hotkey.action@ != "hold_loop"@
            ==> hold_loop_keys(seq![hotkey]).len() == 0,
{
    reveal(Seq::filter);
    let none = Seq::<HotkeyConfig<Step, Other>>::empty();
    hold_loop_keys_push(none, hotkey);
    assert(none.push(hotkey) =~= seq![hotkey]);
    assert(hold_loop_keys(none) =~= seq![]);
    if let TriggerSource::Gamepad { key } = hotkey.trigger {
        assert(hold_loop_keys(none).push(key@) =~= seq![key@]);
    }
}

/// Where steps and other parameters copy to equal values, so does the whole macro.
pub proof fn copy_of_equal_parts_is_equal<Step: Clone, Other: Clone>(
    hotkey: HotkeyConfig<Step, Other>,
    copy: HotkeyConfig<Step, Other>,
)
    requires
        hotkey.copied_as(copy),
        forall|a: Step, b: Step| #[trigger] cloned(a, b) ==> a == b,
        forall|a: Other, b: Other| #[trigger] cloned(a, b) ==> a == b,
    ensures
        copy.trigger is Keyboard <==> hotkey.trigger is Keyboard,
        copy.trigger.key() == hotkey.trigger.key(),
        copy.enabled == hotkey.enabled,
        copy.action@ == hotkey.action@,
        hotkey.params matches ActionParams::Sequence(ours) ==> (copy.params
            matches ActionParams::Sequence(theirs) && theirs.steps@ == ours.steps@),
        hotkey.params matches ActionParams::Other(ours) ==> (copy.params
            matches ActionParams::Other(theirs) && theirs == ours),
{
    if let ActionParams::Sequence(ours) = hotkey.params {
        if let ActionParams::Sequence(theirs) = copy.params {
            assert(theirs.steps@ =~= ours.steps@);
        }
    }
}

/// The key of a trigger is the one that its device names.
pub proof fn trigger_key_is_the_device_key(trigger: TriggerSource)
    ensures
        trigger matches TriggerSource::Keyboard { key } ==> trigger.key() == key@,
        trigger matches TriggerSource::Gamepad { key } ==> trigger.key() == key@,
{
}

} // verus!
