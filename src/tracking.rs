//! Collaborators that fold responses and experiences into long-lived records.
use vstd::prelude::*;
use crate::model::{
    sat_add, ConsciousnessState, DimensionalImpacts, DimensionalState, Experience, Response,
    ResponseView,
};

verus! {

/// Growth metrics over all responses.
#[derive(Clone, Copy, Debug, PartialEq, Eq, Structural)]
pub struct GrowthTracker {
    pub interactions: u64,
    pub awareness_total: u64,
}

impl GrowthTracker {
    pub open spec fn recorded(self, v: ResponseView) -> GrowthTracker {
        GrowthTracker {
            interactions: sat_add(self.interactions, 1),
            awareness_total: sat_add(self.awareness_total, v.consciousness_level),
        }
    }

    pub fn new() -> (r: GrowthTracker)
        ensures
            r == (GrowthTracker { interactions: 0, awareness_total: 0 }),
    {
        GrowthTracker { interactions: 0, awareness_total: 0 }
    }

    pub fn record_growth(&mut self, response: &Response)
        ensures
            *final(self) == old(self).recorded(response@),
    {
        self.interactions = self.interactions.saturating_add(1);
        self.awareness_total = self.awareness_total.saturating_add(response.consciousness_level);
    }
}

/// Learning and integration subsystem.
#[derive(Clone, Copy, Debug, PartialEq, Eq, Structural)]
pub struct LearningEngine {
    pub experiences: u64,
    pub content_total: u64,
}

impl LearningEngine {
    pub open spec fn integrated(self, v: ResponseView) -> LearningEngine {
        LearningEngine {
            experiences: sat_add(self.experiences, 1),
            content_total: sat_add(self.content_total, v.content.len() as u64),
        }
    }

    pub fn new() -> (r: LearningEngine)
        ensures
            r == (LearningEngine { experiences: 0, content_total: 0 }),
    {
        LearningEngine { experiences: 0, content_total: 0 }
    }

    pub fn integrate_experience(&mut self, response: &Response)
        ensures
            *final(self) == old(self).integrated(response@),
    {
        self.experiences = self.experiences.saturating_add(1);
        self.content_total = self.content_total.saturating_add(response.content.len() as u64);
    }
}

/// The per-axis impacts of a response.
pub open spec fn impacts_of(v: ResponseView) -> DimensionalImpacts {
    DimensionalImpacts {
        awareness: v.consciousness_level,
        coherence: v.quantum_coherence,
        affect: v.emotional_layer.valence,
        complexity: v.neural_patterns.len() as u64,
    }
}

/// Computes how a response moves the dimensional state.
pub fn calculate_impacts(response: &Response) -> (r: DimensionalImpacts)
    ensures
        r == impacts_of(response@),
{
    DimensionalImpacts {
        awareness: response.consciousness_level,
        coherence: response.quantum_coherence,
        affect: response.emotional_layer.valence,
        complexity: response.neural_patterns.len() as u64,
    }
}

/// Evolution metrics: completed folds and dimensional changes.
#[derive(Clone, Copy, Debug, PartialEq, Eq, Structural)]
pub struct EvolutionMetrics {
    pub evolutions: u64,
    pub dimensional_changes: u64,
    pub last_dimensions: DimensionalState,
}

impl EvolutionMetrics {
    pub fn new() -> (r: EvolutionMetrics)
        ensures
            r == (EvolutionMetrics {
                evolutions: 0,
                dimensional_changes: 0,
                last_dimensions: DimensionalState::origin(),
            }),
    {
        EvolutionMetrics { evolutions: 0, dimensional_changes: 0, last_dimensions: DimensionalState::new() }
    }

    pub fn record_evolution(&mut self, response: &Response)
        ensures
            *final(self) == (EvolutionMetrics { evolutions: sat_add(old(self).evolutions, 1), ..*old(self) }),
    {
        self.evolutions = self.evolutions.saturating_add(1);
    }

    pub fn record_dimensional_change(&mut self, dims: &DimensionalState)
        ensures
            *final(self) == (EvolutionMetrics {
                dimensional_changes: sat_add(old(self).dimensional_changes, 1),
                last_dimensions: *dims,
                ..*old(self)
            }),
    {
        self.dimensional_changes = self.dimensional_changes.saturating_add(1);
        self.last_dimensions = *dims;
    }
}

/// Holds the latest snapshot and the latest evolution stage handed to it.
#[derive(Clone, Copy, Debug, PartialEq, Eq, Structural)]
pub struct StateManager {
    pub last_snapshot: Option<ConsciousnessState>,
    pub recorded_stage: u64,
    pub updates: u64,
}

impl StateManager {
    pub open spec fn with_state(self, s: ConsciousnessState) -> StateManager {
        StateManager { last_snapshot: Some(s), updates: sat_add(self.updates, 1), ..self }
    }

    pub open spec fn with_stage(self, stage: u64) -> StateManager {
        StateManager { recorded_stage: stage, ..self }
    }

    pub fn new() -> (r: StateManager)
        ensures
            r == (StateManager { last_snapshot: None, recorded_stage: 0, updates: 0 }),
    {
        StateManager { last_snapshot: None, recorded_stage: 0, updates: 0 }
    }

    pub fn update_state(&mut self, s: ConsciousnessState)
        ensures
            *final(self) == old(self).with_state(s),
    {
        self.last_snapshot = Some(s);
        self.updates = self.updates.saturating_add(1);
    }

    pub fn record_evolution(&mut self, stage: u64)
        ensures
            *final(self) == old(self).with_stage(stage),
    {
        self.recorded_stage = stage;
    }
}

/// The three long-term memory stores.
#[derive(Clone, Copy, Debug, PartialEq, Eq, Structural)]
pub struct MemorySystems {
    /// Episodic memory: episodes kept and the time of the latest.
    pub episodes: u64,
    pub last_episode_time: i64,
    /// Semantic memory: payload bytes integrated.
    pub knowledge_bytes: u64,
    /// Procedural memory: lessons integrated.
    pub routines: u64,
}

impl MemorySystems {
    pub open spec fn integrated(self, payload: Seq<u8>, timestamp: i64) -> MemorySystems {
        MemorySystems {
            episodes: sat_add(self.episodes, 1),
            last_episode_time: timestamp,
            knowledge_bytes: sat_add(self.knowledge_bytes, payload.len() as u64),
            routines: sat_add(self.routines, 1),
        }
    }

    pub fn new() -> (r: MemorySystems)
        ensures
            r == (MemorySystems { episodes: 0, last_episode_time: 0, knowledge_bytes: 0, routines: 0 }),
    {
        MemorySystems { episodes: 0, last_episode_time: 0, knowledge_bytes: 0, routines: 0 }
    }

    /// Feeds the episodic, semantic and procedural stores with one experience.
    pub fn integrate(&mut self, experience: &Experience)
        ensures
            *final(self) == old(self).integrated(experience.payload@, experience.timestamp),
    {
        self.episodes = self.episodes.saturating_add(1);
        self.last_episode_time = experience.timestamp;
        self.knowledge_bytes = self.knowledge_bytes.saturating_add(experience.payload.len() as u64);
        self.routines = self.routines.saturating_add(1);
    }
}

} // verus!
