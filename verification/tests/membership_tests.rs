use solar_sim::membership::{sun_change, SunChange, SystemChanged};
use solar_sim::ui::toggle_switch::ToggleState;

#[test]
fn a_body_that_joins_pushes_the_star_back() {
    assert_eq!(SystemChanged::BodyAdded.sign(), -1);
}

#[test]
fn a_body_that_leaves_gives_the_push_back() {
    assert_eq!(SystemChanged::BodyRemoved.sign(), 1);
}

#[test]
fn joining_and_leaving_cancel() {
    assert_eq!(SystemChanged::BodyAdded.sign() + SystemChanged::BodyRemoved.sign(), 0);
}

#[test]
fn joining_and_leaving_give_the_star_its_velocity_back() {
    let star_mass = 1.989e30_f64;
    let mass = 3.285e23_f64;
    let velocity = 38.7e3_f64;
    let diff = velocity * mass / star_mass;
    let start = 12.5_f64;
    let joined = start + f64::from(SystemChanged::BodyAdded.sign()) * diff;
    assert!(joined < start);
    let left = joined + f64::from(SystemChanged::BodyRemoved.sign()) * diff;
    assert!((left - start).abs() <= 1e-12 * start.abs());
}

#[test]
fn the_star_goes_when_its_switch_goes_off() {
    assert_eq!(sun_change(true, Some(ToggleState(false))), SunChange::Remove);
}

#[test]
fn a_star_comes_when_its_switch_goes_on() {
    assert_eq!(sun_change(false, Some(ToggleState(true))), SunChange::Add);
}

#[test]
fn there_is_never_a_second_star() {
    assert_eq!(sun_change(true, Some(ToggleState(true))), SunChange::Keep);
}

#[test]
fn a_star_that_is_gone_cannot_go_again() {
    assert_eq!(sun_change(false, Some(ToggleState(false))), SunChange::Keep);
}

#[test]
fn nothing_happens_while_the_switch_rests() {
    assert_eq!(sun_change(true, None), SunChange::Keep);
    assert_eq!(sun_change(false, None), SunChange::Keep);
}
