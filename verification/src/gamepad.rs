//! Gamepad input and virtual gamepad output.
//!
//! A physical controller cannot be written to, so macros play on a virtual one.
//! A listener polls the physical controllers, turns changes into events, and
//! mirrors the first controller onto the virtual pad. On the way the keys that
//! start a hold loop are taken out and the keys that macros hold down are put in.

pub mod buttons;
pub mod edges;
pub mod listener;
pub mod output;

pub use self::buttons::{button_name_to_mask, button_to_key_name};
pub use self::edges::GamepadEvent;
pub use self::output::{
    apply_output_config, clear_extra_buttons, press_gamepad_button, release_gamepad_button,
};
