//! Verified core of a keyboard and gamepad macro tool.
//!
//! [`gamepad`] turns polled controller states into button events and composes
//! the report of the virtual pad; [`visual_editor`] holds the rules of the
//! macro list. Device access and drawing stay outside this crate.

pub mod config;
pub mod gamepad;
pub mod text;
pub mod visual_editor;
