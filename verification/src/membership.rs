//! What follows when a body joins or leaves the system.
//!
//! The star answers for the momentum of the whole system: whenever a body
//! joins or leaves, the star's velocity is corrected by that body's momentum
//! over the star's mass, against the body's motion when it joins and with it
//! when it leaves. There is never more than one star.

use vstd::prelude::*;
use crate::ui::toggle_switch::ToggleState;

verus! {

/// How the set of bodies has changed.
#[derive(Clone, Copy, Debug, PartialEq, Eq, Structural)]
pub enum SystemChanged {
    BodyAdded,
    BodyRemoved,
}

impl SystemChanged {
    /// The direction of the star's correction along the body's velocity:
    /// `-1` for a body that joined, `1` for one that left.
    pub open spec fn sign_of(self) -> int {
        match self {
            SystemChanged::BodyAdded => -1,
            SystemChanged::BodyRemoved => 1,
        }
    }

    /// The change that undoes this one.
    pub open spec fn reverse_of(self) -> SystemChanged {
        match self {
            SystemChanged::BodyAdded => SystemChanged::BodyRemoved,
            SystemChanged::BodyRemoved => SystemChanged::BodyAdded,
        }
    }

    /// The direction of the star's correction along the body's velocity.
    pub fn sign(&self) -> (sign: i32)
        ensures
            sign == self.sign_of(),
    {
        match self {
            SystemChanged::BodyAdded => -1,
            SystemChanged::BodyRemoved => 1,
        }
    }
}

/// One part of the star's velocity after the correction for `change`, in
/// exact arithmetic, where `adjustment` is that part of the body's momentum
/// over the star's mass.
pub open spec fn corrected(velocity: int, change: SystemChanged, adjustment: int) -> int {
    velocity + change.sign_of() * adjustment
}

/// A change and the change that undoes it correct the star in opposite
/// directions. So a body that joins and then leaves with the same mass and
/// velocity, or leaves and then joins, gives the star in exact arithmetic
/// the velocity that it had.
pub proof fn lemma_round_trip(velocity: int, change: SystemChanged, adjustment: int)
    ensures
        change.sign_of() + change.reverse_of().sign_of() == 0,
        corrected(corrected(velocity, change, adjustment), change.reverse_of(), adjustment)
            == velocity,
{
    assert(change.sign_of() * adjustment + change.reverse_of().sign_of() * adjustment == 0)
        by (nonlinear_arith)
        requires
            change.sign_of() + change.reverse_of().sign_of() == 0,
    ;
}

/// What is to be done about the star.
#[derive(Clone, Copy, Debug, PartialEq, Eq, Structural)]
pub enum SunChange {
    /// Take the star out of the system.
    Remove,
    /// Put a star into the system.
    Add,
    /// Leave the system as it is.
    Keep,
}

/// Whether the system has a star once `change` is carried out.
pub open spec fn sun_present_after(is_sun_present: bool, change: SunChange) -> bool {
    match change {
        SunChange::Remove => false,
        SunChange::Add => true,
        SunChange::Keep => is_sun_present,
    }
}

/// Decides what to do about the star. `toggle` is the new position of the
/// star's switch if it has just been moved, and `None` otherwise. The star
/// is removed when the switch went off while there is one, and added when
/// the switch went on while there is none.
pub fn sun_change(is_sun_present: bool, toggle: Option<ToggleState>) -> (change: SunChange)
    ensures
        change == match toggle {
            Some(state) => if is_sun_present && !state.0 {
                SunChange::Remove
            } else if !is_sun_present && state.0 {
                SunChange::Add
            } else {
                SunChange::Keep
            },
            None => SunChange::Keep,
        },
        toggle matches Some(state) ==> sun_present_after(is_sun_present, change) == state.0,
        change == SunChange::Add ==> !is_sun_present,
{
    match toggle {
        Some(state) => {
            if is_sun_present && !state.0 {
                SunChange::Remove
            } else if !is_sun_present && state.0 {
                SunChange::Add
            } else {
                SunChange::Keep
            }
        },
        None => SunChange::Keep,
    }
}

} // verus!
