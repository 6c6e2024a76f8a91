use led_controller::{Clock, LedController, Nibble};

fn circuit_nibble(v: u8) -> Nibble {
    Nibble::new(v).expect("a four-bit value")
}

#[test]
fn circuit_powers_up_cleared() {
    let c = LedController::default();
    assert!(!c.clock.clk);
    assert_eq!(c.buttons.value(), 0u8);
    assert_eq!(c.leds.value(), 0u8);
}

#[test]
fn update_copies_buttons_to_leds_for_every_input() {
    let mut v: u8 = 0;
    while v < 16 {
        let mut c = LedController::default();
        c.buttons = circuit_nibble(v);
        c.update();
        assert_eq!(c.leds.value(), v);
        v += 1;
    }
}

#[test]
fn update_leaves_inputs_alone() {
    let mut c = LedController::default();
    c.buttons = circuit_nibble(11);
    c.clock = Clock { clk: true };
    c.update();
    assert_eq!(c.buttons, circuit_nibble(11));
    assert_eq!(c.clock, Clock { clk: true });
}

#[test]
fn update_does_not_depend_on_the_previous_output() {
    let mut a = LedController::default();
    a.leds = circuit_nibble(15);
    a.buttons = circuit_nibble(4);
    let mut b = LedController::default();
    b.leds = circuit_nibble(2);
    b.buttons = circuit_nibble(4);
    a.update();
    b.update();
    assert_eq!(a.leds, b.leds);
    assert_eq!(a.leds.value(), 4u8);
}

#[test]
fn update_settles_after_one_evaluation() {
    let mut c = LedController::default();
    c.buttons = circuit_nibble(6);
    c.update();
    let once = c;
    c.update();
    assert_eq!(c, once);
}

#[test]
fn clock_toggle_inverts_the_level() {
    let mut clock = Clock { clk: false };
    clock.toggle();
    assert!(clock.clk);
    clock.toggle();
    assert!(!clock.clk);
}
