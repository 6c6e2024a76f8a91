use led_controller::nibble::{Nibble, DOMAIN_SIZE, WIDTH};

#[test]
fn nibble_holds_every_four_bit_value() {
    let mut v: u8 = 0;
    while v < 16 {
        let n = Nibble::new(v).expect("a four-bit value");
        assert_eq!(n.value(), v);
        v += 1;
    }
}

#[test]
fn nibble_largest_value_is_fifteen() {
    assert_eq!(Nibble::new(15).map(|n| n.value()), Some(15u8));
}

#[test]
fn nibble_rejects_sixteen() {
    assert_eq!(Nibble::new(16), None);
}

#[test]
fn nibble_rejects_every_wider_value() {
    let mut v: u8 = 16;
    loop {
        assert!(Nibble::new(v).is_none(), "{} does not fit in four bits", v);
        if v == u8::MAX {
            break;
        }
        v += 1;
    }
}

#[test]
fn nibble_default_is_zero() {
    assert_eq!(Nibble::default().value(), 0u8);
    assert_eq!(Some(Nibble::default()), Nibble::new(0));
}

#[test]
fn nibble_equality_goes_by_value() {
    assert_eq!(Nibble::new(9), Nibble::new(9));
    assert_ne!(Nibble::new(9), Nibble::new(6));
}

#[test]
fn nibble_domain_is_two_to_the_width() {
    assert_eq!(WIDTH, 4u32);
    assert_eq!(u32::from(DOMAIN_SIZE), 1u32 << WIDTH);
}
