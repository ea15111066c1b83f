//! The macro list: its rows, and adding, copying, deleting, enabling and
//! selecting macros.

use vstd::prelude::*;

use crate::config::{ActionParams, HotkeyConfig, SequenceParams, TriggerSource};
use crate::text;
use crate::visual_editor::VisualEditor;

verus! {

/// One row of the list.
#[derive(Debug)]
pub struct MacroRow {
    pub is_selected: bool,
    /// A disabled macro is drawn in a weak colour.
    pub is_enabled: bool,
    pub label: String,
}

/// The mark of an action in the list.
pub open spec fn action_mark(action: Seq<char>) -> Seq<char> {
    if action == "auto_repeat"@ {
        "🔁 连发"@
    } else if action == "hold_loop"@ {
        "🔄 循环"@
    } else {
        "📝 序列"@
    }
}

/// The symbol of the device that starts a macro.
pub open spec fn device_symbol(trigger: TriggerSource) -> Seq<char> {
    if trigger is Keyboard {
        "⌨"@
    } else {
        "🎮"@
    }
}

/// The name of the device that starts a macro.
pub open spec fn device_name(trigger: TriggerSource) -> Seq<char> {
    if trigger is Keyboard {
        "键盘"@
    } else {
        "手柄"@
    }
}

/// The text of a macro: device, key and action, with a pause sign in front where
/// the macro is disabled.
pub open spec fn macro_label<Step, Other>(hotkey: HotkeyConfig<Step, Other>) -> Seq<char> {
    let text = device_symbol(hotkey.trigger) + " "@ + hotkey.trigger.key() + " → "@ + action_mark(
        hotkey.action@,
    );
    if hotkey.enabled {
        text
    } else {
        "⏸ "@ + text
    }
}

/// The message for a macro that was switched on or off.
pub open spec fn enabled_message(trigger: TriggerSource, enabled: bool) -> Seq<char> {
    (if enabled {
        "已启用宏: "@
    } else {
        "已禁用宏: "@
    }) + device_name(trigger) + " "@ + trigger.key()
}

/// A line of the log.
pub open spec fn info_line(message: Seq<char>) -> Seq<char> {
    "[INFO] "@ + message
}

fn device_symbol_text(trigger: &TriggerSource) -> (res: &'static str)
    ensures
        res@ == device_symbol(*trigger),
{
    match trigger {
        TriggerSource::Keyboard { .. } => "⌨",
        TriggerSource::Gamepad { .. } => "🎮",
    }
}

fn device_name_text(trigger: &TriggerSource) -> (res: &'static str)
    ensures
        res@ == device_name(*trigger),
{
    match trigger {
        TriggerSource::Keyboard { .. } => "键盘",
        TriggerSource::Gamepad { .. } => "手柄",
    }
}

fn action_mark_text(action: &str) -> (res: &'static str)
    ensures
        res@ == action_mark(action@),
{
    if text::same_text(action, "auto_repeat") {
        "🔁 连发"
    } else if text::same_text(action, "hold_loop") {
        "🔄 循环"
    } else {
        "📝 序列"
    }
}

fn trigger_key(trigger: &TriggerSource) -> (res: &str)
    ensures
        res@ == trigger.key(),
{
    match trigger {
        TriggerSource::Keyboard { key } => key.as_str(),
        TriggerSource::Gamepad { key } => key.as_str(),
    }
}

/// The hint that is shown in place of an empty list.
pub fn empty_list_hint<Step, Other>(editor: &VisualEditor<Step, Other>) -> (hint: Option<
    &'static str,
>)
    ensures
        hint is Some <==> editor.macros().len() == 0,
        hint matches Some(h) ==> h@ == "暂无宏配置，点击下方'+'添加"@,
{
    if editor.config.hotkeys.len() == 0 {
        Some("暂无宏配置，点击下方'+'添加")
    } else {
        None
    }
}

/// The row of the macro at position `i`.
pub fn macro_row<Step, Other>(editor: &VisualEditor<Step, Other>, i: usize) -> (row: MacroRow)
    requires
        i < editor.macros().len(),
    ensures
        row.is_selected == (editor.selected_macro == Some(i)),
        row.is_enabled == editor.macros()[i as int].enabled,
        row.label@ == macro_label(editor.macros()[i as int]),
{
    let hotkey = &editor.config.hotkeys[i];
    let mut label = if hotkey.enabled {
        String::new()
    } else {
        "⏸ ".to_string()
    };
    label.append(device_symbol_text(&hotkey.trigger));
    label.append(" ");
    label.append(trigger_key(&hotkey.trigger));
    label.append(" → ");
    label.append(action_mark_text(hotkey.action.as_str()));
    assert(label@ =~= macro_label(*hotkey));
    let is_selected = match editor.selected_macro {
        Some(selected) => selected == i,
        None => false,
    };
    MacroRow { is_selected, is_enabled: hotkey.enabled, label }
}

/// The help text of the check box of a macro.
pub fn enabled_hover_text(enabled: bool) -> (res: &'static str)
    ensures
        res@ == if enabled {
            "禁用此宏（不影响全局总开关）"@
        } else {
            "启用此宏"@
        },
{
    if enabled {
        "禁用此宏（不影响全局总开关）"
    } else {
        "启用此宏"
    }
}

/// Adds a line to the log and shows the same message as the status.
fn announce(message: String, status_message: &mut String, log_messages: &mut Vec<String>)
    ensures
        final(status_message)@ == message@,
        text::texts(final(log_messages)@) == text::texts(old(log_messages)@).push(
            info_line(message@),
        ),
{
    let mut line = "[INFO] ".to_string();
    line.append(message.as_str());
    let ghost last = line@;
    log_messages.push(line);
    assert(text::texts(log_messages@) =~= text::texts(old(log_messages)@).push(last));
    *status_message = message;
}

/// Switches the macro at position `i` on or off.
pub fn set_macro_enabled<Step, Other>(
    editor: &mut VisualEditor<Step, Other>,
    i: usize,
    enabled: bool,
    status_message: &mut String,
    log_messages: &mut Vec<String>,
)
    requires
        i < old(editor).macros().len(),
    ensures
        final(editor).macros() == old(editor).macros().update(
            i as int,
            (HotkeyConfig { enabled, ..old(editor).macros()[i as int] }),
        ),
        final(editor).selected_macro == old(editor).selected_macro,
        final(editor).config_changed,
        final(status_message)@ == enabled_message(
            old(editor).macros()[i as int].trigger,
            enabled,
        ),
        text::texts(final(log_messages)@) == text::texts(old(log_messages)@).push(
            info_line(enabled_message(old(editor).macros()[i as int].trigger, enabled)),
        ),
        old(editor).selection_in_list() ==> final(editor).selection_in_list(),
{
    editor.config.hotkeys[i].enabled = enabled;
    editor.config_changed = true;
    let hotkey = &editor.config.hotkeys[i];
    let mut message = if enabled {
        "已启用宏: ".to_string()
    } else {
        "已禁用宏: ".to_string()
    };
    message.append(device_name_text(&hotkey.trigger));
    message.append(" ");
    message.append(trigger_key(&hotkey.trigger));
    assert(message@ =~= enabled_message(hotkey.trigger, enabled));
    announce(message, status_message, log_messages);
}

/// Selects the macro at position `i`; its edit state is then to be loaded.
pub fn select_macro<Step, Other>(editor: &mut VisualEditor<Step, Other>, i: usize)
    requires
        i < old(editor).macros().len(),
    ensures
        final(editor).selected_macro == Some(i),
        final(editor).config == old(editor).config,
        final(editor).config_changed == old(editor).config_changed,
        final(editor).selection_in_list(),
{
    editor.selected_macro = Some(i);
}

/// `hotkey` is the macro that a click on "add" creates: an enabled, empty sequence
/// on the key F1.
pub open spec fn is_new_macro<Step, Other>(hotkey: HotkeyConfig<Step, Other>) -> bool {
    &&& hotkey.trigger is Keyboard
    &&& hotkey.trigger.key() == "F1"@
    &&& hotkey.enabled
    &&& hotkey.action@ == "sequence"@
    &&& (hotkey.params matches ActionParams::Sequence(params) && params.steps@.len() == 0)
}

/// Adds a new macro at the end of the list.
pub fn add_macro<Step, Other>(
    editor: &mut VisualEditor<Step, Other>,
    status_message: &mut String,
    log_messages: &mut Vec<String>,
)
    ensures
        final(editor).macros().len() == old(editor).macros().len() + 1,
        final(editor).macros().drop_last() == old(editor).macros(),
        is_new_macro(final(editor).macros().last()),
        final(editor).selected_macro == old(editor).selected_macro,
        final(editor).config_changed == old(editor).config_changed,
        final(status_message)@ == "已添加新宏"@,
        text::texts(final(log_messages)@) == text::texts(old(log_messages)@).push(
            "[INFO] 添加新宏配置"@,
        ),
        old(editor).selection_in_list() ==> final(editor).selection_in_list(),
{
    let hotkey = HotkeyConfig {
        trigger: TriggerSource::Keyboard { key: "F1".to_string() },
        enabled: true,
        action: "sequence".to_string(),
        params: ActionParams::Sequence(SequenceParams { steps: Vec::new() }),
    };
    editor.config.hotkeys.push(hotkey);
    assert(editor.macros().drop_last() =~= old(editor).macros());
    *status_message = "已添加新宏".to_string();
    push_line(log_messages, "[INFO] 添加新宏配置");
}

fn push_line(log_messages: &mut Vec<String>, line: &str)
    ensures
        text::texts(final(log_messages)@) == text::texts(old(log_messages)@).push(line@),
{
    log_messages.push(line.to_string());
    assert(text::texts(log_messages@) =~= text::texts(old(log_messages)@).push(line@));
}

/// The selected macro, where the selection still is a macro of the list: it can
/// be copied and deleted.
pub fn selected_position<Step, Other>(editor: &VisualEditor<Step, Other>) -> (position: Option<
    usize,
>)
    ensures
        position == match editor.selected_macro {
            Some(i) if i < editor.macros().len() => Some(i),
            _ => None,
        },
{
    match editor.selected_macro {
        Some(i) => if i < editor.config.hotkeys.len() {
            Some(i)
        } else {
            None
        },
        None => None,
    }
}

/// Inserts a copy of the macro at position `i` right behind it.
pub fn copy_macro<Step: Clone, Other: Clone>(
    editor: &mut VisualEditor<Step, Other>,
    i: usize,
    status_message: &mut String,
    log_messages: &mut Vec<String>,
)
    requires
        i < old(editor).macros().len(),
    ensures
        final(editor).macros().len() == old(editor).macros().len() + 1,
        final(editor).macros() == old(editor).macros().insert(
            i + 1,
            final(editor).macros()[i + 1],
        ),
        old(editor).macros()[i as int].copied_as(final(editor).macros()[i + 1]),
        final(editor).selected_macro == old(editor).selected_macro,
        final(editor).config_changed == old(editor).config_changed,
        final(status_message)@ == "已复制宏"@,
        text::texts(final(log_messages)@) == text::texts(old(log_messages)@).push(
            "[INFO] 复制宏配置"@,
        ),
        old(editor).selection_in_list() ==> final(editor).selection_in_list(),
{
    assert(i < editor.config.hotkeys.len());
    let copy = editor.config.hotkeys[i].clone();
    editor.config.hotkeys.insert(i + 1, copy);
    *status_message = "已复制宏".to_string();
    push_line(log_messages, "[INFO] 复制宏配置");
}

/// Deletes the macro at position `i`; nothing is selected any more.
pub fn delete_macro<Step, Other>(
    editor: &mut VisualEditor<Step, Other>,
    i: usize,
    status_message: &mut String,
    log_messages: &mut Vec<String>,
)
    requires
        i < old(editor).macros().len(),
    ensures
        final(editor).macros() == old(editor).macros().remove(i as int),
        final(editor).selected_macro is None,
        final(editor).config_changed == old(editor).config_changed,
        final(status_message)@ == "已删除宏"@,
        text::texts(final(log_messages)@) == text::texts(old(log_messages)@).push(
            "[INFO] 删除宏配置"@,
        ),
        old(editor).selection_in_list() ==> final(editor).selection_in_list(),
{
    editor.config.hotkeys.remove(i);
    editor.selected_macro = None;
    *status_message = "已删除宏".to_string();
    push_line(log_messages, "[INFO] 删除宏配置");
}

/// A copy that is deleted leaves the list as it was; deleting the macro that was
/// copied leaves the copy in its place.
pub proof fn delete_after_copy<Step, Other>(
    macros: Seq<HotkeyConfig<Step, Other>>,
    i: int,
    copy: HotkeyConfig<Step, Other>,
)
    requires
        0 <= i < macros.len(),
    ensures
        macros.insert(i + 1, copy).remove(i + 1) == macros,
        macros.insert(i + 1, copy).remove(i) == macros.update(i, copy),
{
    assert(macros.insert(i + 1, copy).remove(i + 1) =~= macros);
    assert(macros.insert(i + 1, copy).remove(i) =~= macros.update(i, copy));
}

/// A new macro that is deleted leaves the list as it was.
pub proof fn delete_after_add<Step, Other>(
    before: Seq<HotkeyConfig<Step, Other>>,
    after: Seq<HotkeyConfig<Step, Other>>,
)
    requires
        after.len() == before.len() + 1,
        after.drop_last() == before,
    ensures
        after.remove(after.len() - 1) == before,
{
    assert(after.remove(after.len() - 1) =~= after.drop_last());
}

/// Switching a macro and switching it back leaves the list as it was.
pub proof fn switching_back_restores<Step, Other>(
    macros: Seq<HotkeyConfig<Step, Other>>,
    i: int,
    enabled: bool,
)
    requires
        0 <= i < macros.len(),
    ensures
        ({
            let switched = macros.update(i, HotkeyConfig { enabled, ..macros[i] });
            switched.update(i, HotkeyConfig { enabled: macros[i].enabled, ..switched[i] })
                == macros
        }),
{
    let switched = macros.update(i, HotkeyConfig { enabled, ..macros[i] });
    assert(switched.update(i, HotkeyConfig { enabled: macros[i].enabled, ..switched[i] })
        =~= macros);
}

/// How a row reads: device and key in front, the mark of the macro's own action at the
/// end whatever the device, and a pause sign first where the macro is disabled.
pub proof fn label_reads_device_key_and_action<Step, Other>(hotkey: HotkeyConfig<Step, Other>)
    ensures
        ({
            let key = match hotkey.trigger {
                TriggerSource::Keyboard { key } => key@,
                TriggerSource::Gamepad { key } => key@,
            };
            let front = match (hotkey.trigger, hotkey.enabled) {
                (TriggerSource::Keyboard { .. }, true) => "⌨ "@,
                (TriggerSource::Keyboard { .. }, false) => "⏸ ⌨ "@,
                (TriggerSource::Gamepad { .. }, true) => "🎮 "@,
                (TriggerSource::Gamepad { .. }, false) => "⏸ 🎮 "@,
            };
            &&& hotkey.action@ == "auto_repeat"@ ==> macro_label(hotkey) == front + key
                + " → 🔁 连发"@
            &&& hotkey.action@ == "hold_loop"@ ==> macro_label(hotkey) == front + key
                + " → 🔄 循环"@
            &&& hotkey.action@ != "auto_repeat"@ && hotkey.action@ != "hold_loop"@
                ==> macro_label(hotkey) == front + key + " → 📝 序列"@
        }),
{
    reveal_strlit("auto_repeat");
    reveal_strlit("hold_loop");
    assert("auto_repeat"@.len() != "hold_loop"@.len());
    reveal_strlit(" ");
    reveal_strlit("⌨");
    reveal_strlit("⌨ ");
    reveal_strlit("⏸ ");
    reveal_strlit("⏸ ⌨ ");
    reveal_strlit("🎮");
    reveal_strlit("🎮 ");
    reveal_strlit("⏸ 🎮 ");
    reveal_strlit(" → ");
    reveal_strlit("🔁 连发");
    reveal_strlit("🔄 循环");
    reveal_strlit("📝 序列");
    reveal_strlit(" → 🔁 连发");
    reveal_strlit(" → 🔄 循环");
    reveal_strlit(" → 📝 序列");
    let key = hotkey.trigger.key();
    let mark = action_mark(hotkey.action@);
    let text = device_symbol(hotkey.trigger) + " "@ + key + " → "@ + mark;
    assert("⌨ "@ =~= "⌨"@ + " "@);
    assert("🎮 "@ =~= "🎮"@ + " "@);
    assert("⏸ ⌨ "@ =~= "⏸ "@ + "⌨ "@);
    assert("⏸ 🎮 "@ =~= "⏸ "@ + "🎮 "@);
    assert(" → 🔁 连发"@ =~= " → "@ + "🔁 连发"@);
    assert(" → 🔄 循环"@ =~= " → "@ + "🔄 循环"@);
    assert(" → 📝 序列"@ =~= " → "@ + "📝 序列"@);
    assert(text =~= (device_symbol(hotkey.trigger) + " "@) + key + (" → "@ + mark));
    assert("⏸ "@ + text =~= ("⏸ "@ + (device_symbol(hotkey.trigger) + " "@)) + key + (" → "@
        + mark));
}

/// Two macros that differ in device only have rows that differ in the device symbol
/// only; steps and other parameters play no part in a row.
pub proof fn rows_differ_in_the_device_symbol_only<Step, Other>(
    a: HotkeyConfig<Step, Other>,
    b: HotkeyConfig<Step, Other>,
)
    requires
        a.enabled == b.enabled,
        a.action@ == b.action@,
        a.trigger.key() == b.trigger.key(),
    ensures
        (a.trigger is Keyboard <==> b.trigger is Keyboard) ==> macro_label(a) == macro_label(b),
        a.enabled && a.trigger is Keyboard && b.trigger is Gamepad ==> {
            let rest = macro_label(a).skip("⌨"@.len() as int);
            macro_label(a) == "⌨"@ + rest && macro_label(b) == "🎮"@ + rest
        },
{
    if a.enabled && a.trigger is Keyboard && b.trigger is Gamepad {
        let rest = macro_label(a).skip("⌨"@.len() as int);
        assert(macro_label(a) =~= "⌨"@ + rest);
        assert(macro_label(b) =~= "🎮"@ + rest);
    }
}

/// Switching a macro off puts the pause sign in front of its row.
pub proof fn disabling_puts_the_pause_sign_in_front<Step, Other>(
    hotkey: HotkeyConfig<Step, Other>,
)
    ensures
        macro_label(HotkeyConfig { enabled: false, ..hotkey }) == "⏸ "@ + macro_label(
            HotkeyConfig { enabled: true, ..hotkey },
        ),
{
}

/// What is said when a macro is switched: which way, on which device and which key.
pub proof fn switching_message_names_device_and_key(trigger: TriggerSource)
    ensures
        trigger matches TriggerSource::Keyboard { key } ==> enabled_message(trigger, true)
            == "已启用宏: 键盘 "@ + key@ && enabled_message(trigger, false) == "已禁用宏: 键盘 "@
            + key@,
        trigger matches TriggerSource::Gamepad { key } ==> enabled_message(trigger, true)
            == "已启用宏: 手柄 "@ + key@ && enabled_message(trigger, false) == "已禁用宏: 手柄 "@
            + key@,
{
    reveal_strlit("已启用宏: ");
    reveal_strlit("已禁用宏: ");
    reveal_strlit("键盘");
    reveal_strlit("手柄");
    reveal_strlit(" ");
    reveal_strlit("已启用宏: 键盘 ");
    reveal_strlit("已禁用宏: 键盘 ");
    reveal_strlit("已启用宏: 手柄 ");
    reveal_strlit("已禁用宏: 手柄 ");
    assert("已启用宏: 键盘 "@ =~= "已启用宏: "@ + "键盘"@ + " "@);
    assert("已禁用宏: 键盘 "@ =~= "已禁用宏: "@ + "键盘"@ + " "@);
    assert("已启用宏: 手柄 "@ =~= "已启用宏: "@ + "手柄"@ + " "@);
    assert("已禁用宏: 手柄 "@ =~= "已禁用宏: "@ + "手柄"@ + " "@);
}

/// A line of the log is the message behind its level, so different messages give
/// different lines.
pub proof fn log_line_is_the_message_behind_its_level(a: Seq<char>, b: Seq<char>)
    ensures
        info_line(a).take(7) == "[INFO] "@,
        info_line(a).skip(7) == a,
        info_line(a) == info_line(b) ==> a == b,
{
    reveal_strlit("[INFO] ");
    assert("[INFO] "@.len() == 7);
    assert(info_line(a).take(7) =~= "[INFO] "@);
    assert(info_line(a).skip(7) =~= a);
    assert(info_line(b).skip(7) =~= b);
}

/// A new macro is switched on, sits on the keyboard key F1, is shown as a sequence, has
/// no step yet, and hides no gamepad key.
pub proof fn new_macro_is_an_empty_sequence_on_f1<Step, Other>(hotkey: HotkeyConfig<Step, Other>)
    requires
        is_new_macro(hotkey),
    ensures
        hotkey.trigger matches TriggerSource::Keyboard { key } && key@ == "F1"@,
        hotkey.enabled,
        hotkey.action@ == "sequence"@,
        hotkey.params matches ActionParams::Sequence(params) && params.steps@ == Seq::<
            Step,
        >::empty(),
        macro_label(hotkey) == "⌨ F1 → 📝 序列"@,
        hotkey.hold_loop_key() is None,
{
    reveal_strlit("auto_repeat");
    reveal_strlit("hold_loop");
    reveal_strlit("sequence");
    reveal_strlit("F1");
    reveal_strlit("⌨ ");
    reveal_strlit(" → 📝 序列");
    reveal_strlit("⌨ F1 → 📝 序列");
    assert("sequence"@.len() == 8 && "hold_loop"@.len() == 9 && "auto_repeat"@.len() == 11);
    label_reads_device_key_and_action(hotkey);
    assert("⌨ F1 → 📝 序列"@ =~= "⌨ "@ + "F1"@ + " → 📝 序列"@);
    if let ActionParams::Sequence(params) = hotkey.params {
        assert(params.steps@ =~= Seq::<Step>::empty());
    }
}

/// The list is the list of the configuration, and a selection is in it exactly where
/// it is below the number of macros.
pub proof fn selection_counts_the_macros_of_the_configuration<Step, Other>(
    editor: VisualEditor<Step, Other>,
)
    ensures
        editor.macros() == editor.config.hotkeys@,
        editor.selected_macro is None ==> editor.selection_in_list(),
        editor.selected_macro matches Some(i) ==> (editor.selection_in_list() <==> i
            < editor.config.hotkeys@.len()),
{
}

} // verus!
