use host_health::binary32::Binary32;
use host_health::state::HealthState;
use host_health::thresholds::{
    classify_above, classify_below, classify_load, classify_memory, classify_temperature,
    CRITICAL_FREE_BYTES, CRITICAL_LOAD_BITS, CRITICAL_TEMPERATURE_BITS, UNHEALTHY_FREE_BYTES,
    UNHEALTHY_LOAD_BITS, UNHEALTHY_TEMPERATURE_BITS,
};

const MIB: u64 = 1024 * 1024;

fn number(value: f32) -> Binary32 {
    Binary32::from_bits(value.to_bits())
}

fn above(value: f32, unhealthy: f32, critical: f32) -> HealthState {
    if value > critical {
        HealthState::Critical
    } else if value > unhealthy {
        HealthState::Unhealthy
    } else {
        HealthState::Healthy
    }
}

fn sweep() -> Vec<f32> {
    let mut values = vec![f32::NAN, f32::INFINITY, f32::NEG_INFINITY, 0.0, -0.0, -5.0];
    let mut bits: u32 = 0;
    for _ in 0..4000 {
        values.push(f32::from_bits(bits));
        bits = bits.wrapping_add(0x0010_6247);
    }
    for base in [70.0f32, 90.0, 0.7, 0.999, 80.0, 95.0] {
        for offset in 0..8u32 {
            values.push(f32::from_bits(base.to_bits() + offset));
            values.push(f32::from_bits(base.to_bits() - offset));
        }
    }
    values
}

#[test]
fn bounds_have_the_patterns_of_their_numbers() {
    assert_eq!(CRITICAL_FREE_BYTES, 268_435_456);
    assert_eq!(UNHEALTHY_FREE_BYTES, 536_870_912);
    assert_eq!(CRITICAL_TEMPERATURE_BITS, 90.0f32.to_bits());
    assert_eq!(UNHEALTHY_TEMPERATURE_BITS, 70.0f32.to_bits());
    assert_eq!(CRITICAL_LOAD_BITS, 0.999f32.to_bits());
    assert_eq!(UNHEALTHY_LOAD_BITS, 0.7f32.to_bits());
}

#[test]
fn memory_is_classified_by_free_bytes() {
    assert_eq!(classify_memory(0), HealthState::Critical);
    assert_eq!(classify_memory(100 * MIB), HealthState::Critical);
    assert_eq!(classify_memory(256 * MIB - 1), HealthState::Critical);
    assert_eq!(classify_memory(256 * MIB), HealthState::Unhealthy);
    assert_eq!(classify_memory(400 * MIB), HealthState::Unhealthy);
    assert_eq!(classify_memory(512 * MIB - 1), HealthState::Unhealthy);
    assert_eq!(classify_memory(512 * MIB), HealthState::Healthy);
    assert_eq!(classify_memory(1024 * MIB), HealthState::Healthy);
    assert_eq!(classify_memory(u64::MAX), HealthState::Healthy);
}

#[test]
fn temperature_is_classified_by_degrees() {
    assert_eq!(classify_temperature(number(50.0)), HealthState::Healthy);
    assert_eq!(classify_temperature(number(70.0)), HealthState::Healthy);
    assert_eq!(classify_temperature(number(70.00001)), HealthState::Unhealthy);
    assert_eq!(classify_temperature(number(80.0)), HealthState::Unhealthy);
    assert_eq!(classify_temperature(number(90.0)), HealthState::Unhealthy);
    assert_eq!(classify_temperature(number(90.00001)), HealthState::Critical);
    assert_eq!(classify_temperature(number(150.0)), HealthState::Critical);
    assert_eq!(classify_temperature(number(f32::INFINITY)), HealthState::Critical);
    assert_eq!(classify_temperature(number(-40.0)), HealthState::Healthy);
    assert_eq!(classify_temperature(number(f32::NEG_INFINITY)), HealthState::Healthy);
    assert_eq!(classify_temperature(number(f32::NAN)), HealthState::Healthy);
}

#[test]
fn load_is_classified_by_busy_fraction() {
    assert_eq!(classify_load(number(0.0)), HealthState::Healthy);
    assert_eq!(classify_load(number(0.1)), HealthState::Healthy);
    assert_eq!(classify_load(number(0.7)), HealthState::Healthy);
    assert_eq!(classify_load(number(0.70001)), HealthState::Unhealthy);
    assert_eq!(classify_load(number(0.9)), HealthState::Unhealthy);
    assert_eq!(classify_load(number(0.999)), HealthState::Unhealthy);
    assert_eq!(classify_load(number(0.9991)), HealthState::Critical);
    assert_eq!(classify_load(number(1.0)), HealthState::Critical);
    assert_eq!(classify_load(number(-0.5)), HealthState::Healthy);
    assert_eq!(classify_load(number(f32::NAN)), HealthState::Healthy);
}

#[test]
fn load_next_to_its_bounds() {
    let critical = 0.999f32.to_bits();
    assert_eq!(classify_load(Binary32::from_bits(critical - 1)), HealthState::Unhealthy);
    assert_eq!(classify_load(Binary32::from_bits(critical)), HealthState::Unhealthy);
    assert_eq!(classify_load(Binary32::from_bits(critical + 1)), HealthState::Critical);
    let unhealthy = 0.7f32.to_bits();
    assert_eq!(classify_load(Binary32::from_bits(unhealthy - 1)), HealthState::Healthy);
    assert_eq!(classify_load(Binary32::from_bits(unhealthy)), HealthState::Healthy);
    assert_eq!(classify_load(Binary32::from_bits(unhealthy + 1)), HealthState::Unhealthy);
}

#[test]
fn classification_agrees_with_the_order_of_the_numbers() {
    for value in sweep() {
        assert_eq!(classify_temperature(number(value)), above(value, 70.0, 90.0), "{value:?}");
        assert_eq!(classify_load(number(value)), above(value, 0.7, 0.999), "{value:?}");
        assert_eq!(
            classify_above(number(value), number(80.0), number(95.0)),
            above(value, 80.0, 95.0),
            "{value:?}"
        );
    }
}

#[test]
fn classify_below_with_bounds_of_the_caller() {
    assert_eq!(classify_below(9, 100, 10), HealthState::Critical);
    assert_eq!(classify_below(10, 100, 10), HealthState::Unhealthy);
    assert_eq!(classify_below(99, 100, 10), HealthState::Unhealthy);
    assert_eq!(classify_below(100, 100, 10), HealthState::Healthy);
}
