use three_body_viewer::control::{
    selected_preset, speed, Boost, FrameDecision, FrameInput, ViewerControl, INITIAL_BOOST,
    MAX_BOOST, MIN_BOOST,
};

fn no_keys() -> FrameInput {
    FrameInput {
        preset_keys: [false; 10],
        raise_boost: false,
        lower_boost: false,
        fast_forward: false,
    }
}

#[test]
fn boost_starts_at_eight() {
    assert_eq!(INITIAL_BOOST, 8);
    assert_eq!(Boost::new().multiplier(), 8);
}

#[test]
fn boost_doubles_up_to_the_cap() {
    let b = Boost::new().up();
    assert_eq!(b.multiplier(), 16);
    let b = b.up();
    assert_eq!(b.multiplier(), 32);
    let b = b.up();
    assert_eq!(b.multiplier(), MAX_BOOST);
}

#[test]
fn boost_halves_down_to_the_floor() {
    let b = Boost::new().down();
    assert_eq!(b.multiplier(), 4);
    let b = b.down();
    assert_eq!(b.multiplier(), 2);
    let b = b.down();
    assert_eq!(b.multiplier(), MIN_BOOST);
}

#[test]
fn boost_up_then_down_round_trips_below_the_cap() {
    let mut b = Boost::new().down().down();
    for _ in 0..4 {
        assert_eq!(b.up().down().multiplier(), b.multiplier());
        b = b.up();
    }
    assert_eq!(b.multiplier(), 32);
    assert_eq!(b.down().up().multiplier(), 32);
    assert_eq!(b.up().down().multiplier(), 16);
}

#[test]
fn speed_is_boost_only_while_held() {
    let b = Boost::new().up();
    assert_eq!(speed(b, true), 16);
    assert_eq!(speed(b, false), 1);
}

#[test]
fn no_preset_key_selects_nothing() {
    assert_eq!(selected_preset(&[false; 10]), None);
}

#[test]
fn last_pressed_preset_key_wins() {
    let mut keys = [false; 10];
    keys[2] = true;
    assert_eq!(selected_preset(&keys), Some(2));
    keys[7] = true;
    assert_eq!(selected_preset(&keys), Some(7));
    keys[9] = true;
    assert_eq!(selected_preset(&keys), Some(9));
    keys[0] = true;
    assert_eq!(selected_preset(&keys), Some(9));
}

#[test]
fn viewer_starts_on_first_preset_at_real_time() {
    let mut control = ViewerControl::new();
    assert_eq!(control.preset_index(), 0);
    assert_eq!(control.boost().multiplier(), 8);
    let d = control.on_frame(&no_keys());
    assert_eq!(d, FrameDecision { restart: None, speed: 1 });
    assert_eq!(control.preset_index(), 0);
}

#[test]
fn pressing_a_preset_key_restarts_that_preset() {
    let mut control = ViewerControl::new();
    let mut input = no_keys();
    input.preset_keys[3] = true;
    let d = control.on_frame(&input);
    assert_eq!(d.restart, Some(3));
    assert_eq!(control.preset_index(), 3);
    let d = control.on_frame(&no_keys());
    assert_eq!(d.restart, None);
    assert_eq!(control.preset_index(), 3);
    input.preset_keys[3] = false;
    input.preset_keys[9] = true;
    assert_eq!(control.on_frame(&input).restart, Some(9));
    assert_eq!(control.preset_index(), 9);
}

#[test]
fn raise_then_lower_in_one_frame() {
    let mut control = ViewerControl::new();
    let mut input = no_keys();
    input.raise_boost = true;
    input.lower_boost = true;
    input.fast_forward = true;
    assert_eq!(control.on_frame(&input).speed, 8);
    input.lower_boost = false;
    control.on_frame(&input);
    control.on_frame(&input);
    assert_eq!(control.boost().multiplier(), 32);
    input.lower_boost = true;
    let d = control.on_frame(&input);
    assert_eq!(d.speed, 16);
    assert_eq!(control.boost().multiplier(), 16);
}

#[test]
fn fast_forward_uses_current_boost() {
    let mut control = ViewerControl::new();
    let mut input = no_keys();
    input.lower_boost = true;
    input.fast_forward = true;
    assert_eq!(control.on_frame(&input).speed, 4);
    input.lower_boost = false;
    input.fast_forward = false;
    assert_eq!(control.on_frame(&input).speed, 1);
}
