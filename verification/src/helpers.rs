//! Helpers built from the widgets.

pub mod keyboard;
