use led_controller::mode::TRACE_CYCLES;
use led_controller::{
    stimulus_sequence, LedController, Mismatch, Nibble, RunReport, Sample, SimulationDriver,
    StimulusVector,
};

fn driver_nibble(v: u8) -> Nibble {
    Nibble::new(v).expect("a four-bit value")
}

fn driver_vector(input: u8, expected: u8) -> StimulusVector {
    StimulusVector { input: driver_nibble(input), expected: driver_nibble(expected) }
}

#[test]
fn new_driver_has_run_no_cycle() {
    let driver = SimulationDriver::new(LedController::default());
    assert_eq!(driver.cycle_count(), 0u64);
    assert_eq!(driver.sample_output().value(), 0u8);
    assert_eq!(driver.circuit(), LedController::default());
}

#[test]
fn one_cycle_passes_every_input_to_the_output() {
    let mut v: u8 = 0;
    while v < 16 {
        let mut driver = SimulationDriver::new(LedController::default());
        driver.apply_input(driver_nibble(v));
        driver.advance_one_cycle();
        assert_eq!(driver.sample_output().value(), v);
        assert_eq!(driver.cycle_count(), 1u64);
        v += 1;
    }
}

#[test]
fn input_is_not_seen_before_the_next_cycle() {
    let mut driver = SimulationDriver::new(LedController::default());
    driver.apply_input(driver_nibble(5));
    driver.advance_one_cycle();
    assert_eq!(driver.sample_output().value(), 5u8);
    driver.apply_input(driver_nibble(12));
    assert_eq!(driver.sample_output().value(), 5u8);
    driver.apply_input(driver_nibble(3));
    assert_eq!(driver.sample_output().value(), 5u8);
    assert_eq!(driver.cycle_count(), 1u64);
    driver.advance_one_cycle();
    assert_eq!(driver.sample_output().value(), 3u8);
}

#[test]
fn sampling_does_not_change_the_driver() {
    let mut driver = SimulationDriver::new(LedController::default());
    driver.apply_input(driver_nibble(8));
    driver.advance_one_cycle();
    let first = driver.sample_output();
    let second = driver.sample_output();
    assert_eq!(first, second);
    assert_eq!(driver.cycle_count(), 1u64);
    assert_eq!(driver.circuit().buttons.value(), 8u8);
}

#[test]
fn a_cycle_leaves_the_clock_at_its_level() {
    let mut driver = SimulationDriver::new(LedController::default());
    driver.advance_one_cycle();
    assert!(!driver.circuit().clock.clk);
}

#[test]
fn run_fixed_runs_exactly_the_cycles_asked_for() {
    let mut driver = SimulationDriver::new(LedController::default());
    driver.apply_input(driver_nibble(10));
    let samples = driver.run_fixed(5);
    assert_eq!(samples.len(), 5usize);
    assert_eq!(driver.cycle_count(), 5u64);
    assert_eq!(driver.sample_output().value(), 10u8);
}

#[test]
fn run_fixed_of_zero_cycles_does_nothing() {
    let mut driver = SimulationDriver::new(LedController::default());
    driver.apply_input(driver_nibble(10));
    let samples = driver.run_fixed(0);
    assert!(samples.is_empty());
    assert_eq!(driver.cycle_count(), 0u64);
    assert_eq!(driver.sample_output().value(), 0u8);
}

#[test]
fn run_fixed_samples_each_cycle_in_order() {
    let mut driver = SimulationDriver::new(LedController::default());
    driver.advance_one_cycle();
    driver.advance_one_cycle();
    driver.apply_input(driver_nibble(7));
    let samples = driver.run_fixed(3);
    let expected = vec![
        Sample { cycle: 2, buttons: driver_nibble(7), leds: driver_nibble(7) },
        Sample { cycle: 3, buttons: driver_nibble(7), leds: driver_nibble(7) },
        Sample { cycle: 4, buttons: driver_nibble(7), leds: driver_nibble(7) },
    ];
    assert_eq!(samples, expected);
    assert_eq!(driver.cycle_count(), 5u64);
}

#[test]
fn run_fixed_covers_a_whole_traced_run() {
    assert_eq!(TRACE_CYCLES, 40_000u64);
    let mut driver = SimulationDriver::new(LedController::default());
    let samples = driver.run_fixed(TRACE_CYCLES as usize);
    assert_eq!(samples.len() as u64, TRACE_CYCLES);
    assert_eq!(driver.cycle_count(), TRACE_CYCLES);
    assert_eq!(samples[39_999].cycle, 39_999u64);
}

#[test]
fn run_verified_passes_the_stimulus_sequence() {
    let mut driver = SimulationDriver::new(LedController::default());
    let report = driver.run_verified(stimulus_sequence());
    assert_eq!(report, RunReport::Success);
    assert!(report.passed());
    assert_eq!(driver.cycle_count(), 16u64);
    assert_eq!(driver.sample_output().value(), 15u8);
}

#[test]
fn run_verified_stops_at_the_first_mismatch() {
    let vectors = vec![
        driver_vector(1, 1),
        driver_vector(2, 2),
        driver_vector(3, 4),
        driver_vector(5, 6),
        driver_vector(7, 7),
    ];
    let mut driver = SimulationDriver::new(LedController::default());
    let report = driver.run_verified(vectors);
    let expected = Mismatch {
        cycle: 2,
        applied: driver_nibble(3),
        actual: driver_nibble(3),
        expected: driver_nibble(4),
    };
    assert_eq!(report, RunReport::Failed(expected));
    assert!(!report.passed());
    assert_eq!(driver.cycle_count(), 3u64);
    assert_eq!(driver.sample_output().value(), 3u8);
    assert_eq!(driver.circuit().buttons.value(), 3u8);
}

#[test]
fn run_verified_over_no_vectors_passes_without_a_cycle() {
    let mut driver = SimulationDriver::new(LedController::default());
    let report = driver.run_verified(Vec::new());
    assert_eq!(report, RunReport::Success);
    assert_eq!(driver.cycle_count(), 0u64);
}

#[test]
fn run_verified_counts_cycles_of_the_run_from_zero() {
    let mut driver = SimulationDriver::new(LedController::default());
    driver.run_fixed(9);
    let report = driver.run_verified(vec![driver_vector(4, 4), driver_vector(5, 0)]);
    let expected = Mismatch {
        cycle: 1,
        applied: driver_nibble(5),
        actual: driver_nibble(5),
        expected: driver_nibble(0),
    };
    assert_eq!(report, RunReport::Failed(expected));
    assert_eq!(driver.cycle_count(), 11u64);
}

#[test]
fn two_verification_runs_give_the_same_report() {
    let mut first = SimulationDriver::new(LedController::default());
    let mut second = SimulationDriver::new(LedController::default());
    second.apply_input(driver_nibble(13));
    second.run_fixed(4);
    let first_report = first.run_verified(stimulus_sequence());
    let second_report = second.run_verified(stimulus_sequence());
    assert_eq!(first_report, second_report);
    assert_eq!(format!("{:?}", first_report), format!("{:?}", second_report));
}
