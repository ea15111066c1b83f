use keymacro::config::{ActionParams, Config, HotkeyConfig, SequenceParams, TriggerSource};
use keymacro::visual_editor::macro_list::{
    add_macro, copy_macro, delete_macro, empty_list_hint, enabled_hover_text, macro_row,
    select_macro, selected_position, set_macro_enabled,
};
use keymacro::visual_editor::VisualEditor;

type Editor = VisualEditor<u32, String>;

fn hotkey(trigger: TriggerSource, enabled: bool, action: &str) -> HotkeyConfig<u32, String> {
    HotkeyConfig {
        trigger,
        enabled,
        action: action.to_string(),
        params: ActionParams::Sequence(SequenceParams { steps: vec![1, 2] }),
    }
}

fn editor() -> Editor {
    VisualEditor {
        config: Config {
            hotkeys: vec![
                hotkey(TriggerSource::Keyboard { key: "F5".to_string() }, true, "sequence"),
                hotkey(TriggerSource::Gamepad { key: "X".to_string() }, false, "hold_loop"),
                hotkey(TriggerSource::Gamepad { key: "LB".to_string() }, true, "auto_repeat"),
            ],
        },
        selected_macro: None,
        config_changed: false,
    }
}

fn shown(editor: &Editor) -> String {
    format!("{:?}", editor.config)
}

fn labels(editor: &Editor) -> Vec<String> {
    (0..editor.config.hotkeys.len()).map(|i| macro_row(editor, i).label).collect()
}

#[test]
fn rows_show_device_key_and_action() {
    assert_eq!(labels(&editor()), ["⌨ F5 → 📝 序列", "⏸ 🎮 X → 🔄 循环", "🎮 LB → 🔁 连发"]);
}

#[test]
fn rows_know_selection_and_state() {
    let mut editor = editor();
    select_macro(&mut editor, 1);
    let rows: Vec<(bool, bool)> = (0..3)
        .map(|i| {
            let row = macro_row(&editor, i);
            (row.is_selected, row.is_enabled)
        })
        .collect();
    assert_eq!(rows, [(false, true), (true, false), (false, true)]);
}

#[test]
fn an_empty_list_has_a_hint() {
    assert_eq!(empty_list_hint(&editor()), None);
    let empty: Editor = VisualEditor {
        config: Config { hotkeys: vec![] },
        selected_macro: None,
        config_changed: false,
    };
    assert_eq!(empty_list_hint(&empty), Some("暂无宏配置，点击下方'+'添加"));
}

#[test]
fn hover_text_names_the_other_state() {
    assert_eq!(enabled_hover_text(true), "禁用此宏（不影响全局总开关）");
    assert_eq!(enabled_hover_text(false), "启用此宏");
}

#[test]
fn switching_a_macro() {
    let mut editor = editor();
    let before = shown(&editor);
    let mut status = String::new();
    let mut log = vec!["first".to_string()];
    set_macro_enabled(&mut editor, 1, true, &mut status, &mut log);
    assert!(editor.config.hotkeys[1].enabled && editor.config_changed);
    assert_eq!(status, "已启用宏: 手柄 X");
    set_macro_enabled(&mut editor, 0, false, &mut status, &mut log);
    assert_eq!(status, "已禁用宏: 键盘 F5");
    assert_eq!(log, ["first", "[INFO] 已启用宏: 手柄 X", "[INFO] 已禁用宏: 键盘 F5"]);
    set_macro_enabled(&mut editor, 0, true, &mut status, &mut log);
    set_macro_enabled(&mut editor, 1, false, &mut status, &mut log);
    assert_eq!(shown(&editor), before);
}

#[test]
fn adding_a_macro() {
    let mut editor = editor();
    select_macro(&mut editor, 2);
    let mut status = String::new();
    let mut log = vec![];
    add_macro(&mut editor, &mut status, &mut log);
    assert_eq!(editor.config.hotkeys.len(), 4);
    let added = &editor.config.hotkeys[3];
    assert!(matches!(&added.trigger, TriggerSource::Keyboard { key } if key == "F1"));
    assert!(added.enabled);
    assert_eq!(added.action, "sequence");
    assert!(matches!(&added.params, ActionParams::Sequence(p) if p.steps.is_empty()));
    assert_eq!(editor.selected_macro, Some(2));
    assert!(!editor.config_changed);
    assert_eq!(status, "已添加新宏");
    assert_eq!(log, ["[INFO] 添加新宏配置"]);
}

#[test]
fn an_added_macro_can_be_deleted_again() {
    let mut editor = editor();
    let before = shown(&editor);
    let mut status = String::new();
    let mut log = vec![];
    add_macro(&mut editor, &mut status, &mut log);
    delete_macro(&mut editor, 3, &mut status, &mut log);
    assert_eq!(shown(&editor), before);
}

#[test]
fn copying_a_macro() {
    let mut editor = editor();
    select_macro(&mut editor, 1);
    let mut status = String::new();
    let mut log = vec![];
    copy_macro(&mut editor, 1, &mut status, &mut log);
    assert_eq!(
        labels(&editor),
        ["⌨ F5 → 📝 序列", "⏸ 🎮 X → 🔄 循环", "⏸ 🎮 X → 🔄 循环", "🎮 LB → 🔁 连发"]
    );
    let hotkeys = &editor.config.hotkeys;
    assert_eq!(format!("{:?}", hotkeys[1]), format!("{:?}", hotkeys[2]));
    assert_eq!(editor.selected_macro, Some(1));
    assert!(!editor.config_changed);
    assert_eq!(status, "已复制宏");
    assert_eq!(log, ["[INFO] 复制宏配置"]);
}

#[test]
fn copying_keeps_other_parameters() {
    let mut editor = editor();
    editor.config.hotkeys[0].params = ActionParams::Other("every 5 s".to_string());
    let mut status = String::new();
    let mut log = vec![];
    copy_macro(&mut editor, 0, &mut status, &mut log);
    assert!(matches!(
        &editor.config.hotkeys[1].params,
        ActionParams::Other(text) if text == "every 5 s"
    ));
}

#[test]
fn a_copy_can_be_deleted_again() {
    let mut editor = editor();
    let before = shown(&editor);
    let mut status = String::new();
    let mut log = vec![];
    copy_macro(&mut editor, 0, &mut status, &mut log);
    delete_macro(&mut editor, 1, &mut status, &mut log);
    assert_eq!(shown(&editor), before);
    copy_macro(&mut editor, 0, &mut status, &mut log);
    delete_macro(&mut editor, 0, &mut status, &mut log);
    assert_eq!(shown(&editor), before);
}

#[test]
fn deleting_a_macro() {
    let mut editor = editor();
    select_macro(&mut editor, 0);
    let mut status = String::new();
    let mut log = vec![];
    delete_macro(&mut editor, 0, &mut status, &mut log);
    assert_eq!(labels(&editor), ["⏸ 🎮 X → 🔄 循环", "🎮 LB → 🔁 连发"]);
    assert_eq!(editor.selected_macro, None);
    assert!(!editor.config_changed);
    assert_eq!(status, "已删除宏");
    assert_eq!(log, ["[INFO] 删除宏配置"]);
}

#[test]
fn only_a_selection_in_the_list_counts() {
    let mut editor = editor();
    assert_eq!(selected_position(&editor), None);
    select_macro(&mut editor, 2);
    assert_eq!(selected_position(&editor), Some(2));
    editor.selected_macro = Some(3);
    assert_eq!(selected_position(&editor), None);
    let mut status = String::new();
    let mut log = vec![];
    add_macro(&mut editor, &mut status, &mut log);
    assert_eq!(selected_position(&editor), Some(3));
}
