//! Values that flow through the interaction pipeline and the agent's snapshot.
use vstd::prelude::*;

verus! {

/// Upper bound of every bounded level (coherence, awareness, intensity), in thousandths.
pub const LEVEL_MAX: u64 = 1000;

/// One inbound stimulus: a raw payload and the time it was received (milliseconds).
pub struct Interaction {
    pub payload: Vec<u8>,
    pub timestamp: i64,
}

/// One inbound unit destined for long-term memory.
pub struct Experience {
    pub payload: Vec<u8>,
    pub timestamp: i64,
}

impl Interaction {
    pub fn new(payload: Vec<u8>, timestamp: i64) -> (r: Interaction)
        ensures
            r.payload@ == payload@,
            r.timestamp == timestamp,
    {
        Interaction { payload, timestamp }
    }
}

impl Experience {
    pub fn new(payload: Vec<u8>, timestamp: i64) -> (r: Experience)
        ensures
            r.payload@ == payload@,
            r.timestamp == timestamp,
    {
        Experience { payload, timestamp }
    }

    /// The interaction that carries the same payload and timestamp.
    pub fn into_interaction(self) -> (r: Interaction)
        ensures
            r == (Interaction { payload: self.payload, timestamp: self.timestamp }),
            r.payload@ == self.payload@,
            r.timestamp == self.timestamp,
    {
        Interaction { payload: self.payload, timestamp: self.timestamp }
    }
}

/// Situational frame derived from one interaction.
#[derive(Clone, Copy, Debug, PartialEq, Eq, Structural)]
pub struct Context {
    /// Number of payload bytes.
    pub size: u64,
    /// Sum of the payload bytes, modulo `LEVEL_MAX`.
    pub signal: u64,
    pub timestamp: i64,
}

/// Output of the primary transform.
#[derive(Clone, Copy, Debug, PartialEq, Eq, Structural)]
pub struct QuantumState {
    pub coherence: u64,
}

/// Output of the secondary transform: an ordered sequence of pattern descriptors.
pub struct NeuralResponse {
    pub patterns: Vec<u64>,
}

/// One ideation unit.
#[derive(Clone, Copy, Debug, PartialEq, Eq, Structural)]
pub struct ThoughtPattern {
    pub descriptor: u64,
    pub strength: u64,
}

/// Output of field integration.
#[derive(Clone, Copy, Debug, PartialEq, Eq, Structural)]
pub struct ConsciousnessResponse {
    pub awareness_level: u64,
}

/// Affect descriptor.
#[derive(Clone, Copy, Debug, PartialEq, Eq, Structural)]
pub struct EmotionalResponse {
    pub valence: u64,
    pub intensity: u64,
}

/// The aggregated result of one interaction.
pub struct Response {
    pub quantum_coherence: u64,
    pub neural_patterns: Vec<u64>,
    pub consciousness_level: u64,
    pub emotional_layer: EmotionalResponse,
    pub content: Vec<u8>,
}

/// Mathematical content of a `Response`.
pub struct ResponseView {
    pub quantum_coherence: u64,
    pub neural_patterns: Seq<u64>,
    pub consciousness_level: u64,
    pub emotional_layer: EmotionalResponse,
    pub content: Seq<u8>,
}

impl View for Response {
    type V = ResponseView;

    open spec fn view(&self) -> ResponseView {
        ResponseView {
            quantum_coherence: self.quantum_coherence,
            neural_patterns: self.neural_patterns@,
            consciousness_level: self.consciousness_level,
            emotional_layer: self.emotional_layer,
            content: self.content@,
        }
    }
}

/// Per-axis increments computed from one response.
#[derive(Clone, Copy, Debug, PartialEq, Eq, Structural)]
pub struct DimensionalImpacts {
    pub awareness: u64,
    pub coherence: u64,
    pub affect: u64,
    pub complexity: u64,
}

/// The agent's accumulated condition, one scalar per named axis.
#[derive(Clone, Copy, Debug, PartialEq, Eq, Structural)]
pub struct DimensionalState {
    pub awareness: u64,
    pub coherence: u64,
    pub affect: u64,
    pub complexity: u64,
}

pub open spec fn sat_add(a: u64, b: u64) -> u64 {
    if a + b > u64::MAX {
        u64::MAX
    } else {
        (a + b) as u64
    }
}

impl DimensionalState {
    pub open spec fn origin() -> DimensionalState {
        DimensionalState { awareness: 0, coherence: 0, affect: 0, complexity: 0 }
    }

    /// Every axis moved by its impact; an axis that would pass `u64::MAX` stays there.
    pub open spec fn applied(self, d: DimensionalImpacts) -> DimensionalState {
        DimensionalState {
            awareness: sat_add(self.awareness, d.awareness),
            coherence: sat_add(self.coherence, d.coherence),
            affect: sat_add(self.affect, d.affect),
            complexity: sat_add(self.complexity, d.complexity),
        }
    }

    pub fn new() -> (r: DimensionalState)
        ensures
            r == DimensionalState::origin(),
    {
        DimensionalState { awareness: 0, coherence: 0, affect: 0, complexity: 0 }
    }

    /// Applies the impacts as a delta to the current vector.
    pub fn update(&mut self, impacts: DimensionalImpacts)
        ensures
            *final(self) == old(self).applied(impacts),
    {
        self.awareness = self.awareness.saturating_add(impacts.awareness);
        self.coherence = self.coherence.saturating_add(impacts.coherence);
        self.affect = self.affect.saturating_add(impacts.affect);
        self.complexity = self.complexity.saturating_add(impacts.complexity);
    }
}

/// Read-only, point-in-time view of the agent.
#[derive(Clone, Copy, Debug, PartialEq, Eq, Structural)]
pub struct ConsciousnessState {
    pub id: u128,
    pub evolution_stage: u64,
    pub dimensional_state: DimensionalState,
    pub quantum_coherence: u64,
    pub consciousness_level: u64,
    pub emotional_state: EmotionalResponse,
}

/// The stages of the interaction pipeline, in their fixed order.
#[derive(Clone, Copy, Debug, PartialEq, Eq, Structural)]
pub enum Stage {
    Context,
    Quantum,
    Neural,
    Thought,
    Consciousness,
    Emotional,
}

#[derive(Clone, Copy, Debug, PartialEq, Eq, Structural)]
pub enum LiaError {
    /// A stage's collaborator rejected its input.
    StageFailure(Stage),
    /// A step of the evolution fold could not be applied.
    EvolutionFailure,
    /// A snapshot could not be recorded durably.
    PersistenceFailure,
    /// The configuration cannot produce a usable agent.
    ConfigurationError,
}

/// Options handed to every subsystem at construction.
#[derive(Clone, Copy, Debug, PartialEq, Eq, Structural)]
pub struct SystemConfiguration {
    /// Initial phase of the primary transform, below `LEVEL_MAX`.
    pub quantum_phase: u64,
    /// Most patterns the thought processor accepts in one call.
    pub thought_capacity: u64,
    /// Initial valence of the affect subsystem, below `LEVEL_MAX`.
    pub emotional_baseline: u64,
}

impl SystemConfiguration {
    pub open spec fn valid(self) -> bool {
        self.quantum_phase < LEVEL_MAX && self.emotional_baseline < LEVEL_MAX
    }

    pub fn is_valid(&self) -> (r: bool)
        ensures
            r == self.valid(),
    {
        self.quantum_phase < LEVEL_MAX && self.emotional_baseline < LEVEL_MAX
    }
}

} // verus!
