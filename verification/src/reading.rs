//! One measured signal: its state, its value, and what went wrong.

use vstd::prelude::*;
use crate::state::HealthState;

verus! {

/// One measured signal: its classification, the measured value, and the
/// description of the failure where the measurement could not be taken.
#[derive(Debug)]
pub struct HealthValue<TValue: Clone + Default> {
    pub state: HealthState,
    pub value: TValue,
    pub message: String,
}

/// What a `HealthValue` holds, with the message as a sequence of characters.
pub ghost struct HealthValueView<TValue> {
    pub state: HealthState,
    pub value: TValue,
    pub message: Seq<char>,
}

impl<TValue: Clone + Default> View for HealthValue<TValue> {
    type V = HealthValueView<TValue>;

    open spec fn view(&self) -> HealthValueView<TValue> {
        HealthValueView { state: self.state, value: self.value, message: self.message@ }
    }
}

impl<TValue: Clone + Default> HealthValue<TValue> {
    /// The reading of a signal that could not be measured: `Critical`, with
    /// the default value and the description of the failure.
    pub fn critical(message: String) -> (r: Self)
        ensures
            r.state == HealthState::Critical,
            r.message@ == message@,
            call_ensures(TValue::default, (), r.value),
    {
        HealthValue { state: HealthState::Critical, value: TValue::default(), message }
    }
}

impl<TValue: Clone + Default> Default for HealthValue<TValue> {
    /// The reading of a signal that has not been measured yet: `Unknown`,
    /// with the default value and no message.
    fn default() -> (r: Self)
        ensures
            r.state == HealthState::Unknown,
            r.message@ == Seq::<char>::empty(),
            call_ensures(TValue::default, (), r.value),
    {
        HealthValue { state: HealthState::Unknown, value: TValue::default(), message: String::new() }
    }
}

impl<TValue: Clone + Default> Clone for HealthValue<TValue> {
    fn clone(&self) -> (r: Self)
        ensures
            r.state == self.state,
            r.message@ == self.message@,
            cloned(self.value, r.value),
    {
        HealthValue {
            state: self.state,
            value: self.value.clone(),
            message: self.message.clone(),
        }
    }
}

/// Memory in use, in bytes.
#[derive(Clone, Copy, Debug, PartialEq, Eq, Structural)]
pub struct MemoryUsage {
    pub total: u64,
    pub used: u64,
}

impl Default for MemoryUsage {
    fn default() -> (r: Self)
        ensures
            r == (MemoryUsage { total: 0, used: 0 }),
    {
        MemoryUsage { total: 0, used: 0 }
    }
}

/// What the operating system reports of its memory, in bytes. The free part
/// never exceeds the total.
#[derive(Clone, Copy, Debug)]
pub struct MemoryReading {
    total: u64,
    free: u64,
}

impl MemoryReading {
    #[verifier::type_invariant]
    spec fn free_within_total(self) -> bool {
        self.free <= self.total
    }

    /// The total memory, in bytes.
    pub closed spec fn total_bytes(self) -> u64 {
        self.total
    }

    /// The free memory, in bytes.
    pub closed spec fn free_bytes(self) -> u64 {
        self.free
    }

    /// The memory in use: what is not free.
    pub open spec fn usage(self) -> MemoryUsage {
        MemoryUsage {
            total: self.total_bytes(),
            used: (self.total_bytes() - self.free_bytes()) as u64,
        }
    }

    /// A reading of `total` bytes of which `free` are free, unless `free`
    /// exceeds `total`.
    pub fn new(total: u64, free: u64) -> (r: Option<MemoryReading>)
        ensures
            free <= total ==> (r matches Some(reading) && reading.total_bytes() == total
                && reading.free_bytes() == free),
            free > total ==> r is None,
    {
        if free <= total {
            Some(MemoryReading { total, free })
        } else {
            None
        }
    }

    /// The total memory, in bytes.
    pub fn total(&self) -> (r: u64)
        ensures
            r == self.total_bytes(),
    {
        self.total
    }

    /// The free memory, in bytes.
    pub fn free(&self) -> (r: u64)
        ensures
            r == self.free_bytes(),
            r <= self.total_bytes(),
    {
        proof {
            use_type_invariant(self);
        }
        self.free
    }
}

/// The reading of a signal that was measured and classified: the message is
/// empty.
pub open spec fn measured_reading<TValue>(state: HealthState, value: TValue) -> HealthValueView<
    TValue,
> {
    HealthValueView { state, value, message: Seq::empty() }
}

/// The reading of a signal that could not be measured: `Critical`, with the
/// value `zero` and the description of the failure.
pub open spec fn failed_reading<TValue>(failure: Seq<char>, zero: TValue) -> HealthValueView<
    TValue,
> {
    HealthValueView { state: HealthState::Critical, value: zero, message: failure }
}

} // verus!
