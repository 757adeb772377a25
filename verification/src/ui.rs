//! What the controls at the side of the screen decide.

pub mod toggle_switch;
