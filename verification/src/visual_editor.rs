//! The state of the visual editor that the macro list works on.

use vstd::prelude::*;

use crate::config::{Config, HotkeyConfig};

pub mod macro_list;

verus! {

/// The configuration under edit and what the list shows of it.
#[derive(Debug)]
pub struct VisualEditor<Step, Other> {
    pub config: Config<Step, Other>,
    /// The position of the selected macro.
    pub selected_macro: Option<usize>,
    /// Whether there are edits to save.
    pub config_changed: bool,
}

impl<Step, Other> VisualEditor<Step, Other> {
    /// The macros in the order of the list.
    pub open spec fn macros(self) -> Seq<HotkeyConfig<Step, Other>> {
        self.config.hotkeys@
    }

    /// The selection, if there is one, is a macro of the list.
    pub open spec fn selection_in_list(self) -> bool {
        self.selected_macro matches Some(i) ==> i < self.macros().len()
    }
}

} // verus!
