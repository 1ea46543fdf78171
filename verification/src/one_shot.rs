//! The one-shot report: memory and CPU temperature, measured once.
//!
//! It has bounds of its own, no verdict and no messages: a signal that could
//! not be measured is `Unknown`, with a zero value.

use vstd::prelude::*;
use crate::binary32::{Binary32, scaled_ratio};
use crate::reading::{MemoryReading, MemoryUsage};
use crate::state::HealthState;
use crate::thresholds::{classify_above, classify_below, state_above, state_below};
use vstd::arithmetic::power2::{pow2, lemma2_to64, lemma_pow2_adds};

verus! {

/// With less free memory than this, in bytes, the host is `Critical`: 10 MiB.
pub const CRITICAL_FREE_BYTES: u64 = 10 * 1024 * 1024;

/// With less free memory than this, in bytes, the host is `Unhealthy`: 100 MiB.
pub const UNHEALTHY_FREE_BYTES: u64 = 100 * 1024 * 1024;

/// Bit pattern of 95, the temperature in degrees Celsius above which the CPU
/// is `Critical`.
pub const CRITICAL_TEMPERATURE_BITS: u32 = 0x42BE_0000;

/// Bit pattern of 80, the temperature in degrees Celsius above which the CPU
/// is `Unhealthy`.
pub const UNHEALTHY_TEMPERATURE_BITS: u32 = 0x42A0_0000;

/// One measured signal: its classification and the measured value.
#[derive(Debug, PartialEq, Eq, Structural)]
pub struct OneShotValue<TValue> {
    pub state: HealthState,
    pub value: TValue,
}

/// The one-shot report on the host.
#[derive(Debug, PartialEq, Eq, Structural)]
pub struct OneShotHealth {
    pub memory: OneShotValue<MemoryUsage>,
    pub cpu_temperature: OneShotValue<Binary32>,
}

/// The memory reading that a measurement, where there is one, gives.
pub open spec fn memory_reading_of(measured: Option<MemoryReading>) -> OneShotValue<MemoryUsage> {
    match measured {
        Some(memory) => OneShotValue {
            state: state_below(memory.free_bytes(), UNHEALTHY_FREE_BYTES, CRITICAL_FREE_BYTES),
            value: memory.usage(),
        },
        None => OneShotValue {
            state: HealthState::Unknown,
            value: MemoryUsage { total: 0, used: 0 },
        },
    }
}

/// The temperature reading that a measurement, where there is one, gives.
pub open spec fn temperature_reading_of(measured: Option<Binary32>) -> OneShotValue<Binary32> {
    match measured {
        Some(temperature) => OneShotValue {
            state: state_above(
                temperature,
                Binary32 { bits: UNHEALTHY_TEMPERATURE_BITS },
                Binary32 { bits: CRITICAL_TEMPERATURE_BITS },
            ),
            value: temperature,
        },
        None => OneShotValue { state: HealthState::Unknown, value: Binary32 { bits: 0 } },
    }
}

/// The memory reading: `Critical` below 10 MiB free, `Unhealthy` below
/// 100 MiB, `Healthy` from there on; `Unknown` where nothing was measured.
pub fn get_memory_state(measured: Option<MemoryReading>) -> (r: OneShotValue<MemoryUsage>)
    ensures
        r == memory_reading_of(measured),
        measured matches Some(memory) ==> {
            &&& r.state == HealthState::Critical <==> memory.free_bytes() < 10 * 1024 * 1024
            &&& r.state == HealthState::Unhealthy <==> 10 * 1024 * 1024 <= memory.free_bytes() < 100
                * 1024 * 1024
            &&& r.state == HealthState::Healthy <==> memory.free_bytes() >= 100 * 1024 * 1024
        },
{
    match measured {
        Some(memory) => {
            let free = memory.free();
            OneShotValue {
                state: classify_below(free, UNHEALTHY_FREE_BYTES, CRITICAL_FREE_BYTES),
                value: MemoryUsage { total: memory.total(), used: memory.total() - free },
            }
        },
        None => OneShotValue {
            state: HealthState::Unknown,
            value: MemoryUsage { total: 0, used: 0 },
        },
    }
}

/// The temperature reading: `Critical` above 95 degrees Celsius, `Unhealthy`
/// above 80, `Healthy` otherwise; `Unknown` where nothing was measured.
pub fn get_cpu_temperature_state(measured: Option<Binary32>) -> (r: OneShotValue<Binary32>)
    ensures
        r == temperature_reading_of(measured),
{
    match measured {
        Some(cpu_temp) => OneShotValue {
            state: classify_above(
                cpu_temp,
                Binary32 { bits: UNHEALTHY_TEMPERATURE_BITS },
                Binary32 { bits: CRITICAL_TEMPERATURE_BITS },
            ),
            value: cpu_temp,
        },
        None => OneShotValue { state: HealthState::Unknown, value: Binary32 { bits: 0 } },
    }
}

/// The report that one measurement of each signal gives.
pub fn get_health_state(memory: Option<MemoryReading>, cpu_temperature: Option<Binary32>) -> (r:
    OneShotHealth)
    ensures
        r.memory == memory_reading_of(memory),
        r.cpu_temperature == temperature_reading_of(cpu_temperature),
{
    OneShotHealth {
        memory: get_memory_state(memory),
        cpu_temperature: get_cpu_temperature_state(cpu_temperature),
    }
}

/// The temperature bounds of the one-shot report are the numbers 95 and 80,
/// so a temperature that is a number is `Critical` exactly above 95,
/// `Unhealthy` exactly above 80 and up to 95, and `Healthy` exactly up to 80.
/// One that is not a number is `Healthy`.
pub proof fn lemma_temperature_reading(temperature: Binary32)
    ensures
        temperature.is_nan() ==> temperature_reading_of(Some(temperature)).state
            == HealthState::Healthy,
        !temperature.is_nan() ==> {
            let degrees = temperature.scaled();
            let state = temperature_reading_of(Some(temperature)).state;
            &&& state == HealthState::Critical <==> degrees > scaled_ratio(95, 0)
            &&& state == HealthState::Unhealthy <==> scaled_ratio(80, 0) < degrees <= scaled_ratio(
                95,
                0,
            )
            &&& state == HealthState::Healthy <==> degrees <= scaled_ratio(80, 0)
        },
{
    lemma2_to64();
    lemma_pow2_adds(17, 132);
    let critical = Binary32 { bits: CRITICAL_TEMPERATURE_BITS };
    let unhealthy = Binary32 { bits: UNHEALTHY_TEMPERATURE_BITS };
    assert(critical.scaled() == 12451840 * pow2(132));
    assert(unhealthy.scaled() == 10485760 * pow2(132));
    assert(scaled_ratio(95, 0) == 95 * (131072 * pow2(132)));
    assert(scaled_ratio(80, 0) == 80 * (131072 * pow2(132)));
}

} // verus!
