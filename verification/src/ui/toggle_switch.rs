//! A switch with two positions, and how it looks in each.

use vstd::prelude::*;

verus! {

/// The position of a switch: `true` when it is on.
#[derive(Clone, Copy, Debug)]
pub struct ToggleState(pub bool);

impl ToggleState {
    /// Flips the switch.
    pub fn toggle(&mut self)
        ensures
            final(self).0 == !old(self).0,
    {
        self.0 = !self.0;
    }
}

/// Flipping a switch twice leaves it as it was.
pub proof fn lemma_toggle_twice(state: ToggleState)
    ensures
        ToggleState(!ToggleState(!state.0).0) == state,
{
}

/// The end of its track at which the slider of a switch rests.
#[derive(Clone, Copy, Debug, PartialEq, Eq, Structural)]
pub enum SliderSide {
    FlexStart,
    FlexEnd,
}

/// The slider rests at the far end of its track when the switch is on, at
/// the near end when it is off.
pub fn slider_keeper_justify_content(state: &ToggleState) -> (side: SliderSide)
    ensures
        side == if state.0 {
            SliderSide::FlexEnd
        } else {
            SliderSide::FlexStart
        },
{
    if state.0 {
        SliderSide::FlexEnd
    } else {
        SliderSide::FlexStart
    }
}

/// The paints of a switch, each of a kind `H` that the drawing layer knows.
pub struct Materials<H> {
    pub slider_enabled: H,
    pub slider_disabled: H,
    pub border_disabled: H,
    pub border_enabled: H,
    pub bg: H,
}

/// The paint of the slider's border: the enabled one when the switch is on.
pub fn slider_border_color<'a, H>(state: &ToggleState, materials: &'a Materials<H>) -> (paint: &'a H)
    ensures
        *paint == if state.0 {
            materials.border_enabled
        } else {
            materials.border_disabled
        },
{
    if state.0 {
        &materials.border_enabled
    } else {
        &materials.border_disabled
    }
}

/// The paint of the slider's body: the enabled one when the switch is on.
pub fn slider_body_color<'a, H>(state: &ToggleState, materials: &'a Materials<H>) -> (paint: &'a H)
    ensures
        *paint == if state.0 {
            materials.slider_enabled
        } else {
            materials.slider_disabled
        },
{
    if state.0 {
        &materials.slider_enabled
    } else {
        &materials.slider_disabled
    }
}

} // verus!
