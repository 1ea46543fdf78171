//! Severity classification of a measured signal or of the whole host.

use vstd::prelude::*;

verus! {

/// How healthy one signal, or the host as a whole, is.
#[derive(Clone, Copy, Debug, PartialEq, Eq, Structural)]
pub enum HealthState {
    Healthy,
    Unhealthy,
    Critical,
    Unknown,
}

impl Default for HealthState {
    /// A signal that has not been measured yet is `Unknown`.
    fn default() -> (r: Self)
        ensures
            r == HealthState::Unknown,
    {
        HealthState::Unknown
    }
}

impl HealthState {
    /// Rank of a state in the precedence
    /// `Critical` > `Unhealthy` > `Unknown` > `Healthy`.
    pub open spec fn severity(self) -> nat {
        match self {
            HealthState::Healthy => 0,
            HealthState::Unknown => 1,
            HealthState::Unhealthy => 2,
            HealthState::Critical => 3,
        }
    }

    /// The more severe of two states.
    pub open spec fn worse_of(self, other: HealthState) -> HealthState {
        if other.severity() > self.severity() {
            other
        } else {
            self
        }
    }

    /// Returns the more severe of `self` and `other`.
    pub fn worse(self, other: HealthState) -> (r: HealthState)
        ensures
            r == self.worse_of(other),
    {
        match (self, other) {
            (HealthState::Critical, _) => self,
            (_, HealthState::Critical) => other,
            (HealthState::Unhealthy, _) => self,
            (_, HealthState::Unhealthy) => other,
            (HealthState::Unknown, _) => self,
            (_, HealthState::Unknown) => other,
            (HealthState::Healthy, HealthState::Healthy) => self,
        }
    }
}

/// The verdict for the host, given the states of its three signals: `Critical`
/// if any signal is `Critical`; otherwise `Unhealthy` if any is `Unhealthy`;
/// otherwise `Unknown` if any is `Unknown`; otherwise `Healthy`.
pub open spec fn overall_of(
    memory: HealthState,
    cpu_temperature: HealthState,
    cpu_usage: HealthState,
) -> HealthState {
    let states = seq![memory, cpu_temperature, cpu_usage];
    if states.contains(HealthState::Critical) {
        HealthState::Critical
    } else if states.contains(HealthState::Unhealthy) {
        HealthState::Unhealthy
    } else if states.contains(HealthState::Unknown) {
        HealthState::Unknown
    } else {
        HealthState::Healthy
    }
}

/// Membership in a sequence of three states, spelled out.
pub proof fn lemma_contains_of_three(
    memory: HealthState,
    cpu_temperature: HealthState,
    cpu_usage: HealthState,
    wanted: HealthState,
)
    ensures
        seq![memory, cpu_temperature, cpu_usage].contains(wanted) <==> (memory == wanted
            || cpu_temperature == wanted || cpu_usage == wanted),
{
    let states = seq![memory, cpu_temperature, cpu_usage];
    assert(states[0] == memory && states[1] == cpu_temperature && states[2] == cpu_usage);
    assert(states.len() == 3);
}

/// Combines the states of the three signals into the verdict for the host.
pub fn overall(memory: HealthState, cpu_temperature: HealthState, cpu_usage: HealthState) -> (r:
    HealthState)
    ensures
        r == overall_of(memory, cpu_temperature, cpu_usage),
{
    proof {
        lemma_contains_of_three(memory, cpu_temperature, cpu_usage, HealthState::Critical);
        lemma_contains_of_three(memory, cpu_temperature, cpu_usage, HealthState::Unhealthy);
        lemma_contains_of_three(memory, cpu_temperature, cpu_usage, HealthState::Unknown);
    }
    memory.worse(cpu_temperature).worse(cpu_usage)
}

/// The verdict is the most severe of the three states: it is one of them, and
/// none of them ranks above it.
pub proof fn lemma_overall_is_most_severe(
    memory: HealthState,
    cpu_temperature: HealthState,
    cpu_usage: HealthState,
)
    ensures
        ({
            let verdict = overall_of(memory, cpu_temperature, cpu_usage);
            &&& (verdict == memory || verdict == cpu_temperature || verdict == cpu_usage)
            &&& memory.severity() <= verdict.severity()
            &&& cpu_temperature.severity() <= verdict.severity()
            &&& cpu_usage.severity() <= verdict.severity()
            &&& verdict == memory.worse_of(cpu_temperature).worse_of(cpu_usage)
        }),
{
    lemma_contains_of_three(memory, cpu_temperature, cpu_usage, HealthState::Critical);
    lemma_contains_of_three(memory, cpu_temperature, cpu_usage, HealthState::Unhealthy);
    lemma_contains_of_three(memory, cpu_temperature, cpu_usage, HealthState::Unknown);
}

} // verus!
