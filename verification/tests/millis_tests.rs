use gridgames::millis::MillisCounter;
use gridgames::millis::MILLIS_INCREMENT;

#[test]
fn increment_is_four_milliseconds() {
    // 256 * 250 / 16_000 cycles at 16 MHz: four milliseconds per tick.
    assert_eq!(MILLIS_INCREMENT, 4);
}

#[test]
fn ticks_accumulate_the_step() {
    let mut c = MillisCounter::new();
    assert_eq!(c.millis(), 0);
    for _ in 0..250 {
        c.tick();
    }
    assert_eq!(c.millis(), 1000);
}

#[test]
fn counter_wraps_instead_of_failing() {
    let mut c = MillisCounter { ms: u32::MAX - 1 };
    c.tick();
    assert_eq!(c.millis(), 2);
}
