//! The bounds that separate the states of each signal.

use vstd::prelude::*;
use vstd::arithmetic::power2::{pow2, lemma2_to64, lemma_pow2_adds};
use crate::binary32::{
    Binary32,
    lemma_exceeds_reaches_next,
    lemma_scaled_magnitude_order,
    scaled_ratio,
    unit_exponent,
};
use crate::state::HealthState;

verus! {

/// With less free memory than this, in bytes, the host is `Critical`: 256 MiB.
pub const CRITICAL_FREE_BYTES: u64 = 256 * 1024 * 1024;

/// With less free memory than this, in bytes, the host is `Unhealthy`: 512 MiB.
pub const UNHEALTHY_FREE_BYTES: u64 = 512 * 1024 * 1024;

/// Bit pattern of 90, the temperature in degrees Celsius above which the CPU
/// is `Critical`.
pub const CRITICAL_TEMPERATURE_BITS: u32 = 0x42B4_0000;

/// Bit pattern of 70, the temperature in degrees Celsius above which the CPU
/// is `Unhealthy`.
pub const UNHEALTHY_TEMPERATURE_BITS: u32 = 0x428C_0000;

/// Bit pattern of the single-precision number nearest to 999 thousandths,
/// the busy fraction above which the CPU is `Critical`.
pub const CRITICAL_LOAD_BITS: u32 = 0x3F7F_BE77;

/// Bit pattern of the single-precision number nearest to 7 tenths, the busy
/// fraction above which the CPU is `Unhealthy`.
pub const UNHEALTHY_LOAD_BITS: u32 = 0x3F33_3333;

/// The state of a quantity of which too little is bad.
pub open spec fn state_below(amount: u64, unhealthy_below: u64, critical_below: u64) -> HealthState {
    if amount < critical_below {
        HealthState::Critical
    } else if amount < unhealthy_below {
        HealthState::Unhealthy
    } else {
        HealthState::Healthy
    }
}

/// The state of a quantity of which too much is bad. A value that is not a
/// number exceeds nothing and is `Healthy`.
pub open spec fn state_above(
    value: Binary32,
    unhealthy_above: Binary32,
    critical_above: Binary32,
) -> HealthState {
    if value.exceeds(critical_above) {
        HealthState::Critical
    } else if value.exceeds(unhealthy_above) {
        HealthState::Unhealthy
    } else {
        HealthState::Healthy
    }
}

/// Classifies a quantity of which too little is bad.
pub fn classify_below(amount: u64, unhealthy_below: u64, critical_below: u64) -> (r: HealthState)
    ensures
        r == state_below(amount, unhealthy_below, critical_below),
{
    if amount < critical_below {
        HealthState::Critical
    } else if amount < unhealthy_below {
        HealthState::Unhealthy
    } else {
        HealthState::Healthy
    }
}

/// Classifies a quantity of which too much is bad.
pub fn classify_above(value: Binary32, unhealthy_above: Binary32, critical_above: Binary32) -> (r:
    HealthState)
    ensures
        r == state_above(value, unhealthy_above, critical_above),
{
    if value.exceeds(critical_above) {
        HealthState::Critical
    } else if value.exceeds(unhealthy_above) {
        HealthState::Unhealthy
    } else {
        HealthState::Healthy
    }
}

/// The state of the memory with `free` bytes free.
pub open spec fn memory_state(free: u64) -> HealthState {
    state_below(free, UNHEALTHY_FREE_BYTES, CRITICAL_FREE_BYTES)
}

/// The state of a CPU at `temperature` degrees Celsius.
pub open spec fn temperature_state(temperature: Binary32) -> HealthState {
    state_above(
        temperature,
        Binary32 { bits: UNHEALTHY_TEMPERATURE_BITS },
        Binary32 { bits: CRITICAL_TEMPERATURE_BITS },
    )
}

/// The state of a CPU that was busy for the fraction `busy` of a window.
pub open spec fn load_state(busy: Binary32) -> HealthState {
    state_above(
        busy,
        Binary32 { bits: UNHEALTHY_LOAD_BITS },
        Binary32 { bits: CRITICAL_LOAD_BITS },
    )
}

/// Classifies the memory by its free bytes: `Critical` below 256 MiB,
/// `Unhealthy` below 512 MiB, `Healthy` from there on.
pub fn classify_memory(free: u64) -> (r: HealthState)
    ensures
        r == memory_state(free),
        r == HealthState::Critical <==> free < 256 * 1024 * 1024,
        r == HealthState::Unhealthy <==> 256 * 1024 * 1024 <= free < 512 * 1024 * 1024,
        r == HealthState::Healthy <==> free >= 512 * 1024 * 1024,
{
    classify_below(free, UNHEALTHY_FREE_BYTES, CRITICAL_FREE_BYTES)
}

/// Classifies the CPU by its temperature in degrees Celsius: `Critical`
/// above 90, `Unhealthy` above 70, `Healthy` otherwise.
pub fn classify_temperature(temperature: Binary32) -> (r: HealthState)
    ensures
        r == temperature_state(temperature),
        temperature.is_nan() ==> r == HealthState::Healthy,
        !temperature.is_nan() ==> {
            &&& r == HealthState::Critical <==> temperature.scaled() > scaled_ratio(90, 0)
            &&& r == HealthState::Unhealthy <==> scaled_ratio(70, 0) < temperature.scaled()
                <= scaled_ratio(90, 0)
            &&& r == HealthState::Healthy <==> temperature.scaled() <= scaled_ratio(70, 0)
        },
{
    proof {
        lemma_temperature_state(temperature);
    }
    classify_above(
        temperature,
        Binary32 { bits: UNHEALTHY_TEMPERATURE_BITS },
        Binary32 { bits: CRITICAL_TEMPERATURE_BITS },
    )
}

/// Classifies the CPU by the fraction of a window that it was busy:
/// `Critical` above 999 thousandths, `Unhealthy` above 7 tenths, `Healthy`
/// otherwise, each bound taken as the nearest single-precision number.
pub fn classify_load(busy: Binary32) -> (r: HealthState)
    ensures
        r == load_state(busy),
        busy.is_nan() ==> r == HealthState::Healthy,
        !busy.is_nan() ==> {
            &&& r == HealthState::Critical <==> busy.scaled() > scaled_ratio(16760439, 24)
            &&& r == HealthState::Unhealthy <==> scaled_ratio(11744051, 24) < busy.scaled()
                <= scaled_ratio(16760439, 24)
            &&& r == HealthState::Healthy <==> busy.scaled() <= scaled_ratio(11744051, 24)
        },
{
    proof {
        lemma_load_state(busy);
    }
    classify_above(
        busy,
        Binary32 { bits: UNHEALTHY_LOAD_BITS },
        Binary32 { bits: CRITICAL_LOAD_BITS },
    )
}

/// The temperature bounds are the numbers 90 and 70, so a temperature that
/// is a number is `Critical` exactly above 90, `Unhealthy` exactly above 70
/// and up to 90, and `Healthy` exactly up to 70. One that is not a number is
/// `Healthy`.
pub proof fn lemma_temperature_state(temperature: Binary32)
    ensures
        temperature.is_nan() ==> temperature_state(temperature) == HealthState::Healthy,
        !temperature.is_nan() ==> {
            let degrees = temperature.scaled();
            &&& temperature_state(temperature) == HealthState::Critical <==> degrees
                > scaled_ratio(90, 0)
            &&& temperature_state(temperature) == HealthState::Unhealthy <==> scaled_ratio(70, 0)
                < degrees <= scaled_ratio(90, 0)
            &&& temperature_state(temperature) == HealthState::Healthy <==> degrees
                <= scaled_ratio(70, 0)
        },
{
    lemma2_to64();
    lemma_pow2_adds(17, 132);
    let critical = Binary32 { bits: CRITICAL_TEMPERATURE_BITS };
    let unhealthy = Binary32 { bits: UNHEALTHY_TEMPERATURE_BITS };
    assert(critical.scaled() == 11796480 * pow2(132));
    assert(unhealthy.scaled() == 9175040 * pow2(132));
    assert(scaled_ratio(90, 0) == 90 * (131072 * pow2(132)));
    assert(scaled_ratio(70, 0) == 70 * (131072 * pow2(132)));
}

/// The load bounds are the single-precision numbers 16760439 / 2^24 and
/// 11744051 / 2^24, so a busy fraction that is a number is `Critical` exactly
/// above the first, `Unhealthy` exactly above the second and up to the
/// first, and `Healthy` exactly up to the second. One that is not a number is
/// `Healthy`.
pub proof fn lemma_load_state(busy: Binary32)
    ensures
        busy.is_nan() ==> load_state(busy) == HealthState::Healthy,
        !busy.is_nan() ==> {
            let fraction = busy.scaled();
            &&& load_state(busy) == HealthState::Critical <==> fraction > scaled_ratio(
                16760439,
                24,
            )
            &&& load_state(busy) == HealthState::Unhealthy <==> scaled_ratio(11744051, 24)
                < fraction <= scaled_ratio(16760439, 24)
            &&& load_state(busy) == HealthState::Healthy <==> fraction <= scaled_ratio(
                11744051,
                24,
            )
        },
{
    let critical = Binary32 { bits: CRITICAL_LOAD_BITS };
    let unhealthy = Binary32 { bits: UNHEALTHY_LOAD_BITS };
    assert(critical.scaled() == 16760439 * pow2(125));
    assert(unhealthy.scaled() == 11744051 * pow2(125));
}

/// The load bounds against the decimal fractions that they stand for. Every
/// single-precision busy fraction above 7 tenths is at least `Unhealthy`, and
/// no other is. Every one above 999 thousandths is `Critical`, but for the
/// bound itself, which lies just above 999 thousandths; and no other is.
pub proof fn lemma_load_state_in_decimal(busy: Binary32)
    requires
        !busy.is_nan(),
    ensures
        load_state(busy) != HealthState::Healthy <==> 10 * busy.scaled() > 7 * pow2(
            unit_exponent(),
        ),
        load_state(busy) == HealthState::Critical <==> 1000 * busy.scaled() > 999 * pow2(
            unit_exponent(),
        ) && busy.bits != CRITICAL_LOAD_BITS,
{
    let critical = Binary32 { bits: CRITICAL_LOAD_BITS };
    let unhealthy = Binary32 { bits: UNHEALTHY_LOAD_BITS };
    let below_critical = Binary32 { bits: (CRITICAL_LOAD_BITS - 1) as u32 };
    let above_unhealthy = Binary32 { bits: (UNHEALTHY_LOAD_BITS + 1) as u32 };
    let unit = pow2(125);
    lemma2_to64();
    lemma_pow2_adds(24, 125);
    assert(pow2(unit_exponent()) == 16777216 * unit);
    assert(critical.scaled() == 16760439 * unit);
    assert(below_critical.scaled() == 16760438 * unit);
    assert(unhealthy.scaled() == 11744051 * unit);
    assert(above_unhealthy.scaled() == 11744052 * unit);
    lemma_exceeds_reaches_next(busy, unhealthy);
    lemma_exceeds_reaches_next(busy, below_critical);
    lemma_exceeds_reaches_next(busy, critical);
    lemma_load_state(busy);
    lemma_scaled_magnitude_order(busy.magnitude_bits(), critical.magnitude_bits());
}

} // verus!
