//! The snapshot that combines the three signals, the pass that computes it,
//! and the cache that serves it.

use vstd::prelude::*;
use crate::binary32::Binary32;
use crate::reading::{
    HealthValue,
    HealthValueView,
    MemoryReading,
    MemoryUsage,
    failed_reading,
    measured_reading,
};
use crate::state::{HealthState, lemma_contains_of_three, overall, overall_of};
use crate::thresholds::{
    classify_memory,
    classify_temperature,
    memory_state,
    temperature_state,
};

verus! {

/// The memory reading that the outcome of a measurement gives.
pub open spec fn memory_reading_of(measured: Result<MemoryReading, String>) -> HealthValueView<
    MemoryUsage,
> {
    match measured {
        Ok(reading) => measured_reading(memory_state(reading.free_bytes()), reading.usage()),
        Err(failure) => failed_reading(failure@, MemoryUsage { total: 0, used: 0 }),
    }
}

/// The temperature reading that the outcome of a measurement gives.
pub open spec fn temperature_reading_of(measured: Result<Binary32, String>) -> HealthValueView<
    Binary32,
> {
    match measured {
        Ok(temperature) => measured_reading(temperature_state(temperature), temperature),
        Err(failure) => failed_reading(failure@, Binary32 { bits: 0 }),
    }
}

/// The complete report on the host at one point in time.
#[derive(Debug)]
pub struct Health {
    pub overall: HealthState,
    pub memory: HealthValue<MemoryUsage>,
    pub cpu_temperature: HealthValue<Binary32>,
    pub cpu_usage: HealthValue<Binary32>,
}

/// What a `Health` holds.
pub ghost struct HealthView {
    pub overall: HealthState,
    pub memory: HealthValueView<MemoryUsage>,
    pub cpu_temperature: HealthValueView<Binary32>,
    pub cpu_usage: HealthValueView<Binary32>,
}

impl View for Health {
    type V = HealthView;

    open spec fn view(&self) -> HealthView {
        HealthView {
            overall: self.overall,
            memory: self.memory@,
            cpu_temperature: self.cpu_temperature@,
            cpu_usage: self.cpu_usage@,
        }
    }
}

impl HealthView {
    /// The snapshot of three readings: its verdict is the most severe of
    /// their states.
    pub open spec fn from_states(
        memory: HealthValueView<MemoryUsage>,
        cpu_temperature: HealthValueView<Binary32>,
        cpu_usage: HealthValueView<Binary32>,
    ) -> HealthView {
        HealthView {
            overall: overall_of(memory.state, cpu_temperature.state, cpu_usage.state),
            memory,
            cpu_temperature,
            cpu_usage,
        }
    }

    /// Whether the verdict is the most severe of the three readings' states.
    pub open spec fn is_consistent(self) -> bool {
        self.overall == overall_of(
            self.memory.state,
            self.cpu_temperature.state,
            self.cpu_usage.state,
        )
    }

    /// The snapshot in which the verdict and every reading are `Critical`,
    /// with zero values and no messages.
    pub open spec fn critical() -> HealthView {
        HealthView {
            overall: HealthState::Critical,
            memory: HealthValueView {
                state: HealthState::Critical,
                value: MemoryUsage { total: 0, used: 0 },
                message: Seq::empty(),
            },
            cpu_temperature: HealthValueView {
                state: HealthState::Critical,
                value: Binary32 { bits: 0 },
                message: Seq::empty(),
            },
            cpu_usage: HealthValueView {
                state: HealthState::Critical,
                value: Binary32 { bits: 0 },
                message: Seq::empty(),
            },
        }
    }

    /// The snapshot before anything was measured: the verdict and every
    /// reading are `Unknown`, with zero values and no messages.
    pub open spec fn unknown() -> HealthView {
        HealthView {
            overall: HealthState::Unknown,
            memory: HealthValueView {
                state: HealthState::Unknown,
                value: MemoryUsage { total: 0, used: 0 },
                message: Seq::empty(),
            },
            cpu_temperature: HealthValueView {
                state: HealthState::Unknown,
                value: Binary32 { bits: 0 },
                message: Seq::empty(),
            },
            cpu_usage: HealthValueView {
                state: HealthState::Unknown,
                value: Binary32 { bits: 0 },
                message: Seq::empty(),
            },
        }
    }

    /// The snapshot that one pass over the signals gives: the memory and the
    /// temperature as just measured, and the latest published load reading.
    pub open spec fn evaluated(
        memory: Result<MemoryReading, String>,
        cpu_temperature: Result<Binary32, String>,
        cpu_usage: HealthValueView<Binary32>,
    ) -> HealthView {
        HealthView::from_states(
            memory_reading_of(memory),
            temperature_reading_of(cpu_temperature),
            cpu_usage,
        )
    }
}

impl Health {
    /// The fail-safe snapshot: the verdict and every reading are `Critical`.
    pub fn critical() -> (r: Health)
        ensures
            r@ == HealthView::critical(),
            r@.is_consistent(),
    {
        proof {
            lemma_contains_of_three(
                HealthState::Critical,
                HealthState::Critical,
                HealthState::Critical,
                HealthState::Critical,
            );
        }
        Health {
            overall: HealthState::Critical,
            memory: HealthValue {
                state: HealthState::Critical,
                value: MemoryUsage::default(),
                message: String::new(),
            },
            cpu_temperature: HealthValue {
                state: HealthState::Critical,
                value: Binary32::default(),
                message: String::new(),
            },
            cpu_usage: HealthValue {
                state: HealthState::Critical,
                value: Binary32::default(),
                message: String::new(),
            },
        }
    }

    /// Combines three readings into a snapshot whose verdict is the most
    /// severe of their states.
    pub fn from_states(
        memory: HealthValue<MemoryUsage>,
        cpu_temperature: HealthValue<Binary32>,
        cpu_usage: HealthValue<Binary32>,
    ) -> (r: Health)
        ensures
            r@ == HealthView::from_states(memory@, cpu_temperature@, cpu_usage@),
            r@.is_consistent(),
    {
        let lowest_health = overall(memory.state, cpu_temperature.state, cpu_usage.state);
        Health { overall: lowest_health, memory, cpu_temperature, cpu_usage }
    }
}

impl Default for Health {
    /// The snapshot before anything was measured.
    fn default() -> (r: Self)
        ensures
            r@ == HealthView::unknown(),
            r@.is_consistent(),
    {
        proof {
            lemma_contains_of_three(
                HealthState::Unknown,
                HealthState::Unknown,
                HealthState::Unknown,
                HealthState::Critical,
            );
            lemma_contains_of_three(
                HealthState::Unknown,
                HealthState::Unknown,
                HealthState::Unknown,
                HealthState::Unhealthy,
            );
            lemma_contains_of_three(
                HealthState::Unknown,
                HealthState::Unknown,
                HealthState::Unknown,
                HealthState::Unknown,
            );
        }
        Health {
            overall: HealthState::default(),
            memory: HealthValue::default(),
            cpu_temperature: HealthValue::default(),
            cpu_usage: HealthValue::default(),
        }
    }
}

impl Clone for Health {
    fn clone(&self) -> (r: Self)
        ensures
            r@ == self@,
    {
        Health {
            overall: self.overall,
            memory: self.memory.clone(),
            cpu_temperature: self.cpu_temperature.clone(),
            cpu_usage: self.cpu_usage.clone(),
        }
    }
}

/// A point in time, in nanoseconds since the Unix epoch; negative before it.
#[derive(Clone, Copy, Debug, PartialEq, Eq, Structural)]
pub struct Timestamp {
    pub nanos: i128,
}

/// For how long a snapshot is served before the signals are measured again,
/// in nanoseconds: one second.
pub const FRESH_FOR_NANOS: i128 = 1_000_000_000;

/// What the clock says of the stored snapshot when a request arrives.
#[derive(Clone, Copy, Debug, PartialEq, Eq, Structural)]
pub enum Freshness {
    /// Less than one second has passed since the last recomputation.
    Fresh,
    /// One second or more has passed since the last recomputation.
    Stale,
    /// The clock shows a time before the last recomputation.
    ClockFailure,
}

/// The freshness at `now` of a snapshot that was recomputed at `last_update`.
pub open spec fn freshness_of(last_update: int, now: int) -> Freshness {
    if now < last_update {
        Freshness::ClockFailure
    } else if now - last_update < FRESH_FOR_NANOS {
        Freshness::Fresh
    } else {
        Freshness::Stale
    }
}

/// The last snapshot and the time of its recomputation. It answers requests
/// from the stored snapshot for one second, and then asks for new
/// measurements.
pub struct HealthCheck {
    last_update_time: Timestamp,
    last_health: Health,
}

/// What a `HealthCheck` holds.
pub ghost struct HealthCheckView {
    pub last_update_time: int,
    pub last_health: HealthView,
}

impl View for HealthCheck {
    type V = HealthCheckView;

    closed spec fn view(&self) -> HealthCheckView {
        HealthCheckView {
            last_update_time: self.last_update_time.nanos as int,
            last_health: self.last_health@,
        }
    }
}

impl HealthCheckView {
    /// The cache at the start: nothing was measured, and the last
    /// recomputation is dated at the epoch.
    pub open spec fn initial() -> HealthCheckView {
        HealthCheckView { last_update_time: 0, last_health: HealthView::unknown() }
    }

    /// The freshness of the stored snapshot at `now`.
    pub open spec fn freshness(self, now: int) -> Freshness {
        freshness_of(self.last_update_time, now)
    }

    /// The answer to a request at `now` where the cache has one: the stored
    /// snapshot while it is fresh, the fail-safe snapshot on a clock failure.
    /// A stale cache has none.
    pub open spec fn answer(self, now: int) -> Option<HealthView> {
        match self.freshness(now) {
            Freshness::Fresh => Some(self.last_health),
            Freshness::ClockFailure => Some(HealthView::critical()),
            Freshness::Stale => None,
        }
    }

    /// The cache after a request at `now`: a stale cache dates its
    /// recomputation at `now`, any other stays as it is.
    pub open spec fn requested(self, now: int) -> HealthCheckView {
        match self.freshness(now) {
            Freshness::Stale => HealthCheckView { last_update_time: now, ..self },
            _ => self,
        }
    }

    /// The cache after `snapshot` was stored.
    pub open spec fn updated(self, snapshot: HealthView) -> HealthCheckView {
        HealthCheckView { last_health: snapshot, ..self }
    }

    /// The cache after a request at `now` was served in full, with
    /// `recomputed` as the snapshot that new measurements give.
    pub open spec fn served(self, now: int, recomputed: HealthView) -> HealthCheckView {
        match self.freshness(now) {
            Freshness::Stale => self.requested(now).updated(recomputed),
            _ => self,
        }
    }

    /// The snapshot that a request at `now` is answered with, with
    /// `recomputed` as the snapshot that new measurements give.
    pub open spec fn response(self, now: int, recomputed: HealthView) -> HealthView {
        match self.answer(now) {
            Some(snapshot) => snapshot,
            None => recomputed,
        }
    }

    /// How many of the requests that arrive at the times `arrivals`, taken one
    /// after the other in that order, find the cache stale.
    pub open spec fn recomputations(self, arrivals: Seq<int>) -> nat
        decreases arrivals.len(),
    {
        if arrivals.len() == 0 {
            0
        } else {
            let later = self.requested(arrivals[0]).recomputations(arrivals.drop_first());
            if self.freshness(arrivals[0]) == Freshness::Stale {
                1 + later
            } else {
                later
            }
        }
    }
}

impl HealthCheck {
    #[verifier::type_invariant]
    spec fn holds_consistent_snapshot(self) -> bool {
        self.last_health@.is_consistent()
    }

    /// A cache that holds the `Unknown` snapshot, dated at the epoch.
    pub fn new() -> (r: HealthCheck)
        ensures
            r@ == HealthCheckView::initial(),
    {
        HealthCheck { last_update_time: Timestamp { nanos: 0 }, last_health: Health::default() }
    }

    /// The freshness of the stored snapshot at `now`.
    pub fn freshness(&self, now: Timestamp) -> (r: Freshness)
        ensures
            r == self@.freshness(now.nanos as int),
    {
        let last: i128 = self.last_update_time.nanos;
        if now.nanos < last {
            Freshness::ClockFailure
        } else if last > i128::MAX - FRESH_FOR_NANOS || now.nanos < last + FRESH_FOR_NANOS {
            Freshness::Fresh
        } else {
            Freshness::Stale
        }
    }

    /// Answers a request that arrives at `now`. While the stored snapshot is
    /// fresh, the answer is that snapshot. When the clock shows a time before
    /// the last recomputation, the answer is the fail-safe snapshot. In both
    /// cases the cache stays as it is. When the stored snapshot is stale,
    /// there is no answer yet: the cache dates its recomputation at `now`, and
    /// the caller measures and calls `update`.
    pub fn get_current_health(&mut self, now: Timestamp) -> (r: Option<Health>)
        ensures
            final(self)@ == old(self)@.requested(now.nanos as int),
            match r {
                Some(snapshot) => old(self)@.answer(now.nanos as int) == Some(snapshot@)
                    && snapshot@.is_consistent(),
                None => old(self)@.answer(now.nanos as int) is None,
            },
    {
        proof {
            use_type_invariant(&*self);
        }
        match self.freshness(now) {
            Freshness::ClockFailure => Some(Health::critical()),
            Freshness::Fresh => Some(self.last_health.clone()),
            Freshness::Stale => {
                self.last_update_time = now;
                None
            },
        }
    }

    /// Takes one pass over the signals, stores the snapshot and returns it.
    /// The time of the recomputation stays as `get_current_health` set it.
    pub fn update(
        &mut self,
        memory: Result<MemoryReading, String>,
        cpu_temperature: Result<Binary32, String>,
        cpu_usage: HealthValue<Binary32>,
    ) -> (r: Health)
        ensures
            r@ == HealthView::evaluated(memory, cpu_temperature, cpu_usage@),
            r@.is_consistent(),
            final(self)@ == old(self)@.updated(r@),
    {
        let health = Self::get_health_state(memory, cpu_temperature, cpu_usage);
        self.last_health = health.clone();
        health
    }

    /// The snapshot that one pass over the signals gives: the memory and the
    /// temperature as just measured, and the latest published load reading.
    pub fn get_health_state(
        memory: Result<MemoryReading, String>,
        cpu_temperature: Result<Binary32, String>,
        cpu_usage: HealthValue<Binary32>,
    ) -> (r: Health)
        ensures
            r@ == HealthView::evaluated(memory, cpu_temperature, cpu_usage@),
            r@.is_consistent(),
    {
        Health::from_states(
            Self::get_memory_state(memory),
            Self::get_cpu_temperature_state(cpu_temperature),
            cpu_usage,
        )
    }

    /// The memory reading: classified by the free bytes where the measurement
    /// succeeded, `Critical` with the failure's description where it did not.
    pub fn get_memory_state(measured: Result<MemoryReading, String>) -> (r: HealthValue<
        MemoryUsage,
    >)
        ensures
            r@ == memory_reading_of(measured),
    {
        match measured {
            Ok(memory) => {
                let free = memory.free();
                HealthValue {
                    state: classify_memory(free),
                    value: MemoryUsage { total: memory.total(), used: memory.total() - free },
                    message: String::new(),
                }
            },
            Err(e) => HealthValue::critical(e),
        }
    }

    /// The temperature reading: classified by the degrees where the
    /// measurement succeeded, `Critical` with the failure's description where
    /// it did not.
    pub fn get_cpu_temperature_state(measured: Result<Binary32, String>) -> (r: HealthValue<
        Binary32,
    >)
        ensures
            r@ == temperature_reading_of(measured),
    {
        match measured {
            Ok(cpu_temp) => HealthValue {
                state: classify_temperature(cpu_temp),
                value: cpu_temp,
                message: String::new(),
            },
            Err(e) => HealthValue::critical(e),
        }
    }
}

/// The stored snapshot is served only while it is less than one second old,
/// counted from the request that had it recomputed.
pub proof fn lemma_stored_snapshot_is_served_young(cache: HealthCheckView, now: int)
    ensures
        cache.freshness(now) == Freshness::Fresh <==> 0 <= now - cache.last_update_time
            < 1_000_000_000,
        cache.freshness(now) == Freshness::Fresh <==> cache.answer(now) == Some(cache.last_health)
            && now >= cache.last_update_time,
        cache.freshness(now) == Freshness::ClockFailure <==> now < cache.last_update_time,
        cache.freshness(now) == Freshness::Stale <==> now - cache.last_update_time
            >= 1_000_000_000,
{
}

/// A request that finds the cache fresh is answered with the stored snapshot
/// and leaves the cache as it is: asking again changes nothing.
pub proof fn lemma_fresh_request_repeats(cache: HealthCheckView, now: int, recomputed: HealthView)
    requires
        cache.freshness(now) == Freshness::Fresh,
    ensures
        cache.response(now, recomputed) == cache.last_health,
        cache.served(now, recomputed) == cache,
{
}

/// Two requests in a row are answered with the same snapshot, and the second
/// measures nothing, where the second arrives less than one second after the
/// recomputation that the first one made or found. `first_recomputed` and
/// `second_recomputed` are the snapshots that measuring gives at each request.
pub proof fn lemma_requests_within_one_window_agree(
    cache: HealthCheckView,
    first: int,
    second: int,
    first_recomputed: HealthView,
    second_recomputed: HealthView,
)
    requires
        cache.freshness(first) != Freshness::ClockFailure,
        first <= second,
        second < cache.served(first, first_recomputed).last_update_time + FRESH_FOR_NANOS,
    ensures
        ({
            let between = cache.served(first, first_recomputed);
            &&& between.freshness(second) == Freshness::Fresh
            &&& between.response(second, second_recomputed) == cache.response(
                first,
                first_recomputed,
            )
            &&& between.served(second, second_recomputed) == between
        }),
{
}

/// A request that recomputes the snapshot dates it at its own arrival, so
/// every request in the second that follows is answered with that snapshot.
pub proof fn lemma_recomputed_snapshot_is_served_for_one_window(
    cache: HealthCheckView,
    first: int,
    second: int,
    first_recomputed: HealthView,
    second_recomputed: HealthView,
)
    requires
        cache.freshness(first) == Freshness::Stale,
        first <= second < first + FRESH_FOR_NANOS,
    ensures
        cache.response(first, first_recomputed) == first_recomputed,
        cache.served(first, first_recomputed).response(second, second_recomputed)
            == first_recomputed,
{
}

/// A request that arrives one second or more after another finds the cache
/// stale: it is answered with what was measured at its arrival, and the cache
/// holds that snapshot, dated at that arrival.
pub proof fn lemma_request_one_window_later_recomputes(
    cache: HealthCheckView,
    first: int,
    second: int,
    first_recomputed: HealthView,
    second_recomputed: HealthView,
)
    requires
        cache.freshness(first) != Freshness::ClockFailure,
        second >= first + FRESH_FOR_NANOS,
    ensures
        ({
            let between = cache.served(first, first_recomputed);
            &&& between.freshness(second) == Freshness::Stale
            &&& between.response(second, second_recomputed) == second_recomputed
            &&& between.served(second, second_recomputed) == HealthCheckView {
                last_update_time: second,
                last_health: second_recomputed,
            }
        }),
{
}

/// Requests that all arrive within the second after the last recomputation
/// find the cache fresh, every one of them.
pub proof fn lemma_no_recomputation_while_fresh(cache: HealthCheckView, arrivals: Seq<int>)
    requires
        forall|i: int|
            0 <= i < arrivals.len() ==> cache.freshness(#[trigger] arrivals[i]) == Freshness::Fresh,
    ensures
        cache.recomputations(arrivals) == 0,
    decreases arrivals.len(),
{
    if arrivals.len() > 0 {
        let rest = arrivals.drop_first();
        assert(cache.freshness(arrivals[0]) == Freshness::Fresh);
        assert forall|i: int| 0 <= i < rest.len() implies cache.freshness(#[trigger] rest[i])
            == Freshness::Fresh by {
            assert(rest[i] == arrivals[i + 1]);
        }
        lemma_no_recomputation_while_fresh(cache, rest);
    }
}

/// Of any number of requests that are served one after the other, the first
/// of which finds the cache stale and the others of which arrive less than one
/// second after the first, exactly one recomputes the snapshot.
pub proof fn lemma_one_recomputation_per_window(cache: HealthCheckView, arrivals: Seq<int>)
    requires
        arrivals.len() > 0,
        cache.freshness(arrivals[0]) == Freshness::Stale,
        forall|i: int|
            0 <= i < arrivals.len() ==> arrivals[0] <= #[trigger] arrivals[i] < arrivals[0]
                + FRESH_FOR_NANOS,
    ensures
        cache.recomputations(arrivals) == 1,
{
    let rest = arrivals.drop_first();
    let between = cache.requested(arrivals[0]);
    assert forall|i: int| 0 <= i < rest.len() implies between.freshness(#[trigger] rest[i])
        == Freshness::Fresh by {
        assert(rest[i] == arrivals[i + 1]);
    }
    lemma_no_recomputation_while_fresh(between, rest);
}

/// A failed read of one signal does not touch the others. Where the memory
/// cannot be read, the memory reading is `Critical` with the description of
/// the failure, and so is the verdict; where the temperature cannot be read,
/// the same holds of the temperature reading. In every case each of the three
/// readings is what its own signal gives.
pub proof fn lemma_read_failures_are_isolated(
    memory: Result<MemoryReading, String>,
    cpu_temperature: Result<Binary32, String>,
    cpu_usage: HealthValueView<Binary32>,
)
    ensures
        ({
            let snapshot = HealthView::evaluated(memory, cpu_temperature, cpu_usage);
            &&& snapshot.memory == memory_reading_of(memory)
            &&& snapshot.cpu_temperature == temperature_reading_of(cpu_temperature)
            &&& snapshot.cpu_usage == cpu_usage
            &&& snapshot.is_consistent()
            &&& memory matches Err(failure) ==> snapshot.overall == HealthState::Critical
                && snapshot.memory == failed_reading(failure@, MemoryUsage { total: 0, used: 0 })
            &&& cpu_temperature matches Err(failure) ==> snapshot.overall == HealthState::Critical
                && snapshot.cpu_temperature == failed_reading(failure@, Binary32 { bits: 0 })
        }),
{
    let snapshot = HealthView::evaluated(memory, cpu_temperature, cpu_usage);
    lemma_contains_of_three(
        snapshot.memory.state,
        snapshot.cpu_temperature.state,
        snapshot.cpu_usage.state,
        HealthState::Critical,
    );
}

} // verus!
