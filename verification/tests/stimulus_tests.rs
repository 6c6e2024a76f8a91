use led_controller::{stimulus_sequence, LedController, StimulusVector};

#[test]
fn stimulus_has_sixteen_vectors() {
    assert_eq!(stimulus_sequence().len(), 16usize);
}

#[test]
fn stimulus_is_ascending_from_zero_to_fifteen() {
    let inputs: Vec<u8> = stimulus_sequence().iter().map(|v| v.input.value()).collect();
    assert_eq!(inputs, vec![0u8, 1, 2, 3, 4, 5, 6, 7, 8, 9, 10, 11, 12, 13, 14, 15]);
}

#[test]
fn stimulus_holds_each_value_exactly_once() {
    let vectors = stimulus_sequence();
    let mut v: u8 = 0;
    while v < 16 {
        let hits: usize = vectors.iter().filter(|x| x.input.value() == v).count();
        assert_eq!(hits, 1usize, "value {}", v);
        v += 1;
    }
}

#[test]
fn stimulus_expects_the_input_back() {
    for vector in stimulus_sequence() {
        assert_eq!(vector.expected, vector.input);
    }
}

#[test]
fn stimulus_expects_what_the_circuit_computes() {
    for vector in stimulus_sequence() {
        let mut c = LedController::default();
        c.buttons = vector.input;
        c.update();
        assert_eq!(c.leds, vector.expected);
    }
}

#[test]
fn stimulus_is_the_same_on_every_call() {
    let first: Vec<StimulusVector> = stimulus_sequence();
    let second: Vec<StimulusVector> = stimulus_sequence();
    assert_eq!(first, second);
}
