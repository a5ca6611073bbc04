use ogc_rs::pad::{
    button_intersection, button_union, button_xor, mask_and, mask_is, Button, Controller, Pad,
    PadSample,
};

const ALL_BUTTONS: [Button; 13] = [
    Button::NoButton,
    Button::Left,
    Button::Right,
    Button::Down,
    Button::Up,
    Button::Z,
    Button::R,
    Button::L,
    Button::A,
    Button::B,
    Button::X,
    Button::Y,
    Button::Start,
];

fn held_only(held: u16) -> PadSample {
    PadSample {
        held,
        ..PadSample::default()
    }
}

#[test]
fn button_masks_match_the_wire_layout() {
    assert_eq!(Button::NoButton.mask(), 0);
    assert_eq!(Button::Left.mask(), 1);
    assert_eq!(Button::Right.mask(), 2);
    assert_eq!(Button::Down.mask(), 4);
    assert_eq!(Button::Up.mask(), 8);
    assert_eq!(Button::Z.mask(), 16);
    assert_eq!(Button::R.mask(), 32);
    assert_eq!(Button::L.mask(), 64);
    assert_eq!(Button::A.mask(), 256);
    assert_eq!(Button::B.mask(), 512);
    assert_eq!(Button::X.mask(), 1024);
    assert_eq!(Button::Y.mask(), 2048);
    assert_eq!(Button::Start.mask(), 4096);
}

#[test]
fn union_then_intersection_recovers_each_operand() {
    for &b1 in ALL_BUTTONS.iter() {
        for &b2 in ALL_BUTTONS.iter() {
            if b1 != b2 {
                let u = button_union(b1, b2);
                assert_eq!(u & b1.mask(), b1.mask());
                assert_eq!(u & b2.mask(), b2.mask());
            }
        }
    }
}

#[test]
fn intersection_is_idempotent_and_no_button_is_the_identity() {
    for &b in ALL_BUTTONS.iter() {
        assert_eq!(button_intersection(b, b), b.mask());
        assert_eq!(button_union(Button::NoButton, b), b.mask());
    }
}

#[test]
fn xor_of_a_button_with_itself_clears() {
    for &b in ALL_BUTTONS.iter() {
        assert_eq!(button_xor(b, b), 0);
    }
    assert_eq!(button_xor(Button::Up, Button::A), 8 | 256);
}

#[test]
fn chorded_sample_needs_explicit_masking() {
    let sampled = Button::Up.mask() | Button::A.mask();
    assert!(!mask_is(sampled, Button::A));
    assert_eq!(mask_and(sampled, Button::A), Button::A.mask());
    assert!(mask_is(mask_and(sampled, Button::A), Button::A));
}

#[test]
fn combined_equality_rejects_a_partial_match() {
    let combo = button_union(Button::Up, Button::A);
    let held = Button::Up.mask();
    assert!(held != combo);
    assert_eq!(held == combo, false);
}

#[test]
fn controller_indices_cover_the_four_ports() {
    assert_eq!(Controller::One.index(), 0);
    assert_eq!(Controller::Two.index(), 1);
    assert_eq!(Controller::Three.index(), 2);
    assert_eq!(Controller::Four.index(), 3);
}

#[test]
fn init_starts_with_everything_released() {
    let pad = Pad::init();
    assert_eq!(pad.buttons_held(Controller::One), 0);
    assert_eq!(pad.buttons_down(Controller::Three), 0);
    assert_eq!(pad.buttons_up(Controller::Four), 0);
    assert_eq!(pad.stick_x(Controller::Two), 0);
    assert_eq!(pad.trigger_r(Controller::One), 0);
    assert!(pad.sampling_callback.is_none());
    assert_eq!(pad.scans, 0);
}

#[test]
fn scan_decodes_edges_against_the_previous_cycle() {
    let mut pad = Pad::init();
    let up = Button::Up.mask();
    let up_a = Button::Up.mask() | Button::A.mask();

    let idle = PadSample::default();
    pad.scan_pads(held_only(up), idle, idle, idle);
    assert_eq!(pad.buttons_held(Controller::One), up);
    assert_eq!(pad.buttons_down(Controller::One), up);
    assert_eq!(pad.buttons_up(Controller::One), 0);

    pad.scan_pads(held_only(up_a), idle, idle, idle);
    assert_eq!(pad.buttons_held(Controller::One), up_a);
    assert_eq!(pad.buttons_down(Controller::One), Button::A.mask());
    assert_eq!(pad.buttons_up(Controller::One), 0);

    pad.scan_pads(held_only(0), idle, idle, idle);
    assert_eq!(pad.buttons_held(Controller::One), 0);
    assert_eq!(pad.buttons_down(Controller::One), 0);
    assert_eq!(pad.buttons_up(Controller::One), up_a);
}

#[test]
fn queries_without_a_rescan_return_the_prior_cycle() {
    let mut pad = Pad::init();
    pad.set_sampling_callback(7);
    let idle = PadSample::default();
    let n = pad.scan_pads(held_only(Button::Up.mask()), idle, idle, idle);
    assert_eq!(n, 1);

    let first = pad.buttons_down(Controller::One);
    assert_eq!(first, Button::Up.mask());
    // A later cycle begins but no scan is issued: the query must answer
    // with the prior cycle's value, not a fresh sample.
    let second = pad.buttons_down(Controller::One);
    assert_eq!(second, first);
    assert_eq!(pad.scans, 1);
    assert_eq!(pad.sampling_callback, Some(7));
}

#[test]
fn analog_values_pass_through_each_port() {
    let mut pad = Pad::init();
    let s1 = PadSample {
        held: 0,
        stick_x: -100,
        stick_y: 100,
        sub_stick_x: -5,
        sub_stick_y: 5,
        trigger_l: 17,
        trigger_r: 255,
    };
    let s2 = PadSample {
        held: Button::B.mask(),
        stick_x: 3,
        stick_y: -3,
        sub_stick_x: 0,
        sub_stick_y: 0,
        trigger_l: 0,
        trigger_r: 1,
    };
    let idle = PadSample::default();
    pad.scan_pads(s1, s2, idle, idle);
    assert_eq!(pad.stick_x(Controller::One), -100);
    assert_eq!(pad.stick_y(Controller::One), 100);
    assert_eq!(pad.sub_stick_x(Controller::One), -5);
    assert_eq!(pad.sub_stick_y(Controller::One), 5);
    assert_eq!(pad.trigger_l(Controller::One), 17);
    assert_eq!(pad.trigger_r(Controller::One), 255);
    assert_eq!(pad.buttons_held(Controller::Two), Button::B.mask());
    assert_eq!(pad.stick_x(Controller::Two), 3);
    assert_eq!(pad.buttons_held(Controller::Three), 0);
}

#[test]
fn registering_a_sampling_callback_replaces_the_previous_one() {
    let mut pad = Pad::init();
    pad.set_sampling_callback(1);
    assert_eq!(pad.sampling_callback, Some(1));
    pad.set_sampling_callback(2);
    assert_eq!(pad.sampling_callback, Some(2));
}
