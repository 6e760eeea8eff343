//! A wisdom value that exists as several candidate texts until it is
//! observed, at which point it collapses irreversibly to exactly one.

use vstd::prelude::*;

verus! {

/// A wisdom held in superposition over several candidate texts.
#[derive(Debug, Clone)]
pub struct QuantumWisdom {
    /// The candidate texts this wisdom can collapse into.
    pub potential_states: Vec<String>,
    /// The collapsed text, set by the first observation and never changed.
    pub collapsed_state: Option<String>,
    /// Whether this wisdom has been observed.
    pub observed: bool,
    /// Cosmetic metadata about the quantum state.
    pub quantum_metadata: QuantumMetadata,
}

/// Cosmetic metadata; none of it affects which candidate is chosen.
#[derive(Debug, Clone)]
pub struct QuantumMetadata {
    /// Coherence level in millionths, between 0 and 1_000_000 inclusive.
    pub coherence: u32,
    /// Identifier linking wisdoms that affect each other.
    pub entanglement_id: Option<String>,
    /// Quantum phenomena exhibited by this wisdom.
    pub phenomena: Vec<QuantumPhenomenon>,
}

/// The phenomena a wisdom can exhibit.
#[derive(Debug, Clone, PartialEq, Eq, Structural)]
pub enum QuantumPhenomenon {
    Superposition,
    Entanglement,
    QuantumTunneling,
    WaveParticleDuality,
    SchrodingerEffect,
}

/// The candidate index a random draw `r` selects.
pub open spec fn choice_index(v: QuantumWisdom, r: u64) -> int {
    (r as int) % (v.potential_states@.len() as int)
}

/// `v` collapsed to its candidate `k`.
pub open spec fn collapse_to(v: QuantumWisdom, k: int) -> QuantumWisdom {
    QuantumWisdom {
        collapsed_state: Some(v.potential_states@[k]),
        observed: true,
        ..v
    }
}

/// The state after observing `v` with the random draw `r`: an observed
/// wisdom is left as it is, an unobserved one collapses to the drawn
/// candidate.
pub open spec fn observe_outcome(v: QuantumWisdom, r: u64) -> QuantumWisdom {
    if v.observed {
        v
    } else {
        collapse_to(v, choice_index(v, r))
    }
}

/// The text returned by observing `v` with the random draw `r`.
pub open spec fn observe_text(v: QuantumWisdom, r: u64) -> Seq<char> {
    if v.observed {
        v.collapsed_state.unwrap()@
    } else {
        v.potential_states@[choice_index(v, r)]@
    }
}

/// The state after observing `v` at the requested candidate `index`, with
/// `r` as the random draw used when `index` is out of range.
pub open spec fn observe_specific_outcome(v: QuantumWisdom, index: int, r: u64) -> QuantumWisdom {
    if v.observed {
        v
    } else if 0 <= index < v.potential_states@.len() {
        collapse_to(v, index)
    } else {
        observe_outcome(v, r)
    }
}

/// The text returned by observing `v` at the requested candidate `index`.
pub open spec fn observe_specific_text(v: QuantumWisdom, index: int, r: u64) -> Seq<char> {
    if v.observed {
        v.collapsed_state.unwrap()@
    } else if 0 <= index < v.potential_states@.len() {
        v.potential_states@[index]@
    } else {
        observe_text(v, r)
    }
}

/// Relies on rand::random: draws a value from the thread generator; nothing
/// is promised of the outcome.
#[verifier::external_body]
fn random_u64() -> u64 {
    rand::random::<u64>()
}

impl QuantumWisdom {
    /// A well-formed wisdom has at least one candidate, is marked observed
    /// exactly when a collapsed text is present, and carries a coherence
    /// level within range.
    pub open spec fn wf(&self) -> bool {
        &&& self.potential_states@.len() > 0
        &&& self.observed <==> self.collapsed_state is Some
        &&& self.quantum_metadata.coherence <= 1_000_000
    }

    /// Creates a new wisdom in superposition over the given candidates, with
    /// a randomly drawn coherence level.
    pub fn new(potential_states: Vec<String>) -> (v: QuantumWisdom)
        requires
            potential_states@.len() > 0,
        ensures
            v.wf(),
            v.potential_states == potential_states,
            v.collapsed_state is None,
            !v.observed,
            v.quantum_metadata.entanglement_id is None,
            v.quantum_metadata.phenomena@.len() == 1,
            v.quantum_metadata.phenomena@[0] == QuantumPhenomenon::Superposition,
    {
        let coherence = (random_u64() % 1_000_001) as u32;
        let mut phenomena: Vec<QuantumPhenomenon> = Vec::new();
        phenomena.push(QuantumPhenomenon::Superposition);
        QuantumWisdom {
            potential_states,
            collapsed_state: None,
            observed: false,
            quantum_metadata: QuantumMetadata {
                coherence,
                entanglement_id: None,
                phenomena,
            },
        }
    }

    /// Observes the wisdom with an explicit random draw, collapsing it to
    /// the drawn candidate unless it is already observed.
    pub fn observe_with(&mut self, r: u64) -> (t: String)
        requires
            old(self).wf(),
        ensures
            final(self).wf(),
            *final(self) == observe_outcome(*old(self), r),
            t@ == observe_text(*old(self), r),
    {
        if !self.observed {
            let len = self.potential_states.len();
            let k = (r % (len as u64)) as usize;
            let chosen = self.potential_states[k].clone();
            self.collapsed_state = Some(chosen);
            self.observed = true;
        }
        self.collapsed_state.as_ref().unwrap().clone()
    }

    /// Observes the wisdom, collapsing it to a randomly chosen candidate;
    /// once observed, every further observation returns the same text.
    pub fn observe(&mut self) -> (t: String)
        requires
            old(self).wf(),
        ensures
            final(self).wf(),
            final(self).potential_states == old(self).potential_states,
            final(self).observed,
            final(self).collapsed_state is Some,
            t@ == final(self).collapsed_state.unwrap()@,
            old(self).observed ==> *final(self) == *old(self),
            !old(self).observed ==> exists|k: int|
                0 <= k < old(self).potential_states@.len() && *final(self) == collapse_to(
                    *old(self),
                    k,
                ),
    {
        let r = random_u64();
        self.observe_with(r)
    }

    /// Observes the wisdom at an explicit candidate index, with an explicit
    /// random draw as the fallback for an out-of-range index.
    pub fn observe_specific_with(&mut self, index: usize, r: u64) -> (t: String)
        requires
            old(self).wf(),
        ensures
            final(self).wf(),
            *final(self) == observe_specific_outcome(*old(self), index as int, r),
            t@ == observe_specific_text(*old(self), index as int, r),
    {
        if !self.observed && index < self.potential_states.len() {
            let chosen = self.potential_states[index].clone();
            self.collapsed_state = Some(chosen);
            self.observed = true;
            self.collapsed_state.as_ref().unwrap().clone()
        } else {
            self.observe_with(r)
        }
    }

    /// Observes the wisdom at the given candidate index; an out-of-range
    /// index falls back to the random observation path.
    pub fn observe_specific(&mut self, index: usize) -> (t: String)
        requires
            old(self).wf(),
        ensures
            final(self).wf(),
            final(self).potential_states == old(self).potential_states,
            final(self).observed,
            final(self).collapsed_state is Some,
            t@ == final(self).collapsed_state.unwrap()@,
            old(self).observed ==> *final(self) == *old(self),
            !old(self).observed && index < old(self).potential_states@.len() ==> *final(self)
                == collapse_to(*old(self), index as int) && t@ == old(
                self,
            ).potential_states@[index as int]@,
            !old(self).observed && index >= old(self).potential_states@.len() ==> exists|k: int|
                0 <= k < old(self).potential_states@.len() && *final(self) == collapse_to(
                    *old(self),
                    k,
                ),
    {
        let r = random_u64();
        self.observe_specific_with(index, r)
    }

    /// True while the wisdom has not been observed.
    pub fn is_in_superposition(&self) -> (r: bool)
        ensures
            r == !self.observed,
    {
        !self.observed
    }

    /// All candidate texts, for display.
    pub fn get_potential_states(&self) -> (r: &Vec<String>)
        ensures
            r == &self.potential_states,
    {
        &self.potential_states
    }
}

/// Observation is idempotent: once a wisdom has been observed, a further
/// observation, whatever its random draw, changes nothing and returns the
/// same text as the first.
pub proof fn lemma_observe_idempotent(v: QuantumWisdom, r1: u64, r2: u64)
    requires
        v.wf(),
    ensures
        observe_outcome(observe_outcome(v, r1), r2) == observe_outcome(v, r1),
        observe_text(observe_outcome(v, r1), r2) == observe_text(v, r1),
{
}

/// Observing a specific candidate at an out-of-range index behaves exactly
/// as a plain observation with the same random draw.
pub proof fn lemma_observe_specific_out_of_range(v: QuantumWisdom, index: int, r: u64)
    requires
        v.wf(),
        index >= v.potential_states@.len(),
    ensures
        observe_specific_outcome(v, index, r) == observe_outcome(v, r),
        observe_specific_text(v, index, r) == observe_text(v, r),
{
}

} // verus!
