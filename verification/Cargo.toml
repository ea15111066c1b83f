[package]
name = "keymacro"
version = "0.1.0"
edition = "2021"
publish = false

[dependencies]
egui = "=0.29.1"
log = "=0.4.35"
vigem-client = "=0.1.4"
windows = { version = "0.52", features = ["Win32_Foundation", "Win32_System_LibraryLoader", "Win32_UI_Input_XboxController"] }
