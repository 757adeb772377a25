//! The rules of a small planetary system shown on a screen: which bodies
//! pull on which, how the star answers when a body joins or leaves, the
//! trails that the bodies leave, the ruler's unit and the switches.

pub mod gravity;
pub mod membership;
pub mod ruler;
pub mod trace;
pub mod ui;
