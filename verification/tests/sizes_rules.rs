use asio_driver::sizes::buffer_size_allowed;
use asio_driver::sizes::is_power_of_two_exec;
use asio_driver::sizes::GRANULARITY_POWER_OF_TWO;

#[test]
fn power_of_two_exact_values() {
    assert!(is_power_of_two_exec(1));
    assert!(is_power_of_two_exec(2));
    assert!(is_power_of_two_exec(512));
    assert!(is_power_of_two_exec(1024));
    assert!(is_power_of_two_exec(1 << 30));
    assert!(!is_power_of_two_exec(0));
    assert!(!is_power_of_two_exec(-8));
    assert!(!is_power_of_two_exec(3));
    assert!(!is_power_of_two_exec(6));
    assert!(!is_power_of_two_exec(384));
    assert!(!is_power_of_two_exec(i32::MAX));
}

#[test]
fn fixed_granularity_permits_single_size() {
    assert!(buffer_size_allowed(512, 512, 0, 512));
    assert!(!buffer_size_allowed(512, 512, 0, 256));
    assert!(!buffer_size_allowed(512, 512, 0, 1024));
}

#[test]
fn step_granularity_permits_steps_from_min() {
    assert!(buffer_size_allowed(64, 256, 32, 64));
    assert!(buffer_size_allowed(64, 256, 32, 96));
    assert!(buffer_size_allowed(64, 256, 32, 256));
    assert!(!buffer_size_allowed(64, 256, 32, 80));
    assert!(!buffer_size_allowed(64, 256, 32, 32));
    assert!(!buffer_size_allowed(64, 256, 32, 288));
}

#[test]
fn power_of_two_granularity_permits_powers_in_range() {
    assert!(buffer_size_allowed(64, 4096, GRANULARITY_POWER_OF_TWO, 64));
    assert!(buffer_size_allowed(64, 4096, GRANULARITY_POWER_OF_TWO, 512));
    assert!(buffer_size_allowed(64, 4096, GRANULARITY_POWER_OF_TWO, 4096));
    assert!(!buffer_size_allowed(64, 4096, GRANULARITY_POWER_OF_TWO, 384));
    assert!(!buffer_size_allowed(64, 4096, GRANULARITY_POWER_OF_TWO, 32));
    assert!(!buffer_size_allowed(64, 4096, GRANULARITY_POWER_OF_TWO, 8192));
}
