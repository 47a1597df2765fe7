//! The orchestrator: runs the fixed stage chain, assembles the response and folds it back
//! into the agent's long-lived state.
//!
//! Evolution model: one evolution is one stage. Every completed evolution fold advances
//! `evolution_stage` by exactly one and records it with the state manager, and so does an
//! explicit `evolve`; both paths move the same counter. The fold cannot fail part-way: the
//! only failure (the counter is exhausted) is detected before any step runs, so a fold is
//! applied whole or not at all. Mutation needs `&mut Lia`, so callers that share an agent
//! serialise every mutating call behind one lock; readers see either the state before or
//! after a call, never a blend.
use vstd::prelude::*;
use crate::identity::{fresh_id, now_millis};
use crate::model::{
    sat_add, ConsciousnessResponse, ConsciousnessState, Context, DimensionalState,
    EmotionalResponse, Experience, Interaction, LiaError, NeuralResponse, QuantumState, Response,
    ResponseView, Stage, SystemConfiguration, ThoughtPattern, LEVEL_MAX,
};
use crate::stages::{
    analyze_context, context_of, create_natural_response, synthesized, ConsciousnessField,
    EmotionalResonanceEngine, NeuralMatrix, QuantumCore, QuantumThoughtProcessor,
};
use crate::tracking::{
    calculate_impacts, impacts_of, EvolutionMetrics, GrowthTracker, LearningEngine,
    MemorySystems, StateManager,
};

verus! {

/// The subsystems that the orchestrator threads each interaction through and folds each
/// response into.
#[derive(Clone, Copy, Debug, PartialEq, Eq, Structural)]
pub struct Collaborators {
    pub quantum_core: QuantumCore,
    pub neural_matrix: NeuralMatrix,
    pub quantum_thought_processor: QuantumThoughtProcessor,
    pub consciousness_field: ConsciousnessField,
    pub emotional_resonance: EmotionalResonanceEngine,
    pub growth_tracker: GrowthTracker,
    pub learning_engine: LearningEngine,
    pub evolution_metrics: EvolutionMetrics,
}

/// Bounds that every response of the pipeline meets.
pub open spec fn response_bounded(v: ResponseView) -> bool {
    &&& v.quantum_coherence <= LEVEL_MAX
    &&& v.consciousness_level <= LEVEL_MAX
    &&& v.emotional_layer.valence < LEVEL_MAX
    &&& v.emotional_layer.intensity <= LEVEL_MAX
}

impl Collaborators {
    pub open spec fn wf(self) -> bool {
        &&& self.quantum_core.wf()
        &&& self.consciousness_field.wf()
        &&& self.emotional_resonance.wf()
    }

    pub open spec fn initial(config: SystemConfiguration) -> Collaborators {
        Collaborators {
            quantum_core: QuantumCore { phase: config.quantum_phase, coherence: 0 },
            neural_matrix: NeuralMatrix { activations: 0 },
            quantum_thought_processor: QuantumThoughtProcessor { capacity: config.thought_capacity },
            consciousness_field: ConsciousnessField { awareness: 0, dimensions: DimensionalState::origin() },
            emotional_resonance: EmotionalResonanceEngine {
                state: EmotionalResponse { valence: config.emotional_baseline, intensity: 0 },
            },
            growth_tracker: GrowthTracker { interactions: 0, awareness_total: 0 },
            learning_engine: LearningEngine { experiences: 0, content_total: 0 },
            evolution_metrics: EvolutionMetrics {
                evolutions: 0,
                dimensional_changes: 0,
                last_dimensions: DimensionalState::origin(),
            },
        }
    }

    /// The response that the stage chain produces for an input, or the first stage failure.
    pub open spec fn respond(self, input: Interaction) -> Result<ResponseView, LiaError> {
        match context_of(input.payload@, input.timestamp) {
            Err(e) => Err(e),
            Ok(ctx) => {
                let q = self.quantum_core.output(ctx);
                let patterns = self.neural_matrix.output(q, ctx);
                match self.quantum_thought_processor.output(patterns, q) {
                    Err(e) => Err(e),
                    Ok(thoughts) => {
                        let c = self.consciousness_field.output(thoughts);
                        Ok(ResponseView {
                            quantum_coherence: q.coherence,
                            neural_patterns: patterns,
                            consciousness_level: c.awareness_level,
                            emotional_layer: self.emotional_resonance.output(ctx, c),
                            content: synthesized(input.payload@, thoughts),
                        })
                    },
                }
            },
        }
    }

    /// Fold steps 1 to 3: growth, the four transform subsystems, learning.
    pub open spec fn absorbed(self, v: ResponseView) -> Collaborators {
        Collaborators {
            quantum_core: self.quantum_core.evolved(v),
            neural_matrix: NeuralMatrix { activations: sat_add(self.neural_matrix.activations, 1) },
            consciousness_field: ConsciousnessField { awareness: v.consciousness_level, ..self.consciousness_field },
            emotional_resonance: EmotionalResonanceEngine { state: v.emotional_layer },
            growth_tracker: self.growth_tracker.recorded(v),
            learning_engine: self.learning_engine.integrated(v),
            ..self
        }
    }

    /// Fold step 4 after the new vector is known: the field and the metrics are told of it,
    /// and the metrics count the evolution.
    pub open spec fn noticed(self, dims: DimensionalState) -> Collaborators {
        Collaborators {
            consciousness_field: ConsciousnessField { dimensions: dims, ..self.consciousness_field },
            evolution_metrics: EvolutionMetrics {
                evolutions: sat_add(self.evolution_metrics.evolutions, 1),
                dimensional_changes: sat_add(self.evolution_metrics.dimensional_changes, 1),
                last_dimensions: dims,
            },
            ..self
        }
    }
}

/// The agent: identity, evolution counter, subsystems and accumulated condition.
#[derive(Clone)]
pub struct Lia {
    id: u128,
    name: String,
    birth_time: i64,
    evolution_stage: u64,
    collaborators: Collaborators,
    memory: MemorySystems,
    dimensional_state: DimensionalState,
    state_manager: StateManager,
    configuration: SystemConfiguration,
}

impl Lia {
    pub closed spec fn wf(self) -> bool {
        self.collaborators.wf()
    }

    pub closed spec fn id_spec(self) -> u128 {
        self.id
    }

    pub closed spec fn name_spec(self) -> Seq<char> {
        self.name@
    }

    pub closed spec fn birth_time_spec(self) -> i64 {
        self.birth_time
    }

    pub closed spec fn stage(self) -> u64 {
        self.evolution_stage
    }

    pub closed spec fn dimensions(self) -> DimensionalState {
        self.dimensional_state
    }

    pub closed spec fn parts(self) -> Collaborators {
        self.collaborators
    }

    pub closed spec fn memories(self) -> MemorySystems {
        self.memory
    }

    pub closed spec fn persisted(self) -> StateManager {
        self.state_manager
    }

    pub closed spec fn config(self) -> SystemConfiguration {
        self.configuration
    }

    /// The same agent with other memory stores.
    pub closed spec fn with_memories(self, m: MemorySystems) -> Lia {
        Lia { memory: m, ..self }
    }

    /// The state of an agent just built from a configuration.
    pub open spec fn fresh(self, config: SystemConfiguration) -> bool {
        &&& self.wf()
        &&& self.name_spec() == seq!['L', 'i', 'a']
        &&& self.stage() == 1
        &&& self.dimensions() == DimensionalState::origin()
        &&& self.parts() == Collaborators::initial(config)
        &&& self.memories() == (MemorySystems { episodes: 0, last_episode_time: 0, knowledge_bytes: 0, routines: 0 })
        &&& self.persisted() == (StateManager { last_snapshot: None, recorded_stage: 0, updates: 0 })
        &&& self.config() == config
    }

    /// The snapshot of the agent's condition.
    pub open spec fn snapshot(self) -> ConsciousnessState {
        ConsciousnessState {
            id: self.id_spec(),
            evolution_stage: self.stage(),
            dimensional_state: self.dimensions(),
            quantum_coherence: self.parts().quantum_core.coherence,
            consciousness_level: self.parts().consciousness_field.awareness,
            emotional_state: self.parts().emotional_resonance.state,
        }
    }

    /// `self` is `old` after a whole evolution fold of `v`, stated field by field.
    pub open spec fn is_fold_of(self, old: Lia, v: ResponseView) -> bool {
        let dims = old.dimensions().applied(impacts_of(v));
        &&& self.id_spec() == old.id_spec()
        &&& self.name_spec() == old.name_spec()
        &&& self.birth_time_spec() == old.birth_time_spec()
        &&& self.config() == old.config()
        &&& self.memories() == old.memories()
        &&& self.stage() == old.stage() + 1
        &&& self.dimensions() == dims
        &&& self.parts() == old.parts().absorbed(v).noticed(dims)
        &&& self.persisted() == old.persisted().with_stage(self.stage()).with_state(self.snapshot())
    }

    /// `self` is `old` with only the evolution stage advanced and recorded.
    pub open spec fn is_advance_of(self, old: Lia) -> bool {
        &&& self.id_spec() == old.id_spec()
        &&& self.name_spec() == old.name_spec()
        &&& self.birth_time_spec() == old.birth_time_spec()
        &&& self.config() == old.config()
        &&& self.memories() == old.memories()
        &&& self.stage() == old.stage() + 1
        &&& self.dimensions() == old.dimensions()
        &&& self.parts() == old.parts()
        &&& self.persisted() == old.persisted().with_stage(self.stage())
    }

    /// The agent with its evolution stage advanced by one and recorded.
    pub closed spec fn advanced(self) -> Lia {
        let stage = (self.evolution_stage + 1) as u64;
        Lia { evolution_stage: stage, state_manager: self.state_manager.with_stage(stage), ..self }
    }

    /// What `process_interaction` returns: the pipeline's response, a stage failure, or an
    /// evolution failure when the evolution counter cannot advance.
    pub open spec fn outcome(self, input: Interaction) -> Result<ResponseView, LiaError> {
        match self.parts().respond(input) {
            Err(e) => Err(e),
            Ok(v) => if self.stage() == u64::MAX {
                Err(LiaError::EvolutionFailure)
            } else {
                Ok(v)
            },
        }
    }

    /// The agent after a whole evolution fold of one response.
    pub closed spec fn folded(self, v: ResponseView) -> Lia {
        let dims = self.dimensional_state.applied(impacts_of(v));
        let parts = self.collaborators.absorbed(v).noticed(dims);
        let stage = (self.evolution_stage + 1) as u64;
        let snap = ConsciousnessState {
            id: self.id,
            evolution_stage: stage,
            dimensional_state: dims,
            quantum_coherence: parts.quantum_core.coherence,
            consciousness_level: parts.consciousness_field.awareness,
            emotional_state: parts.emotional_resonance.state,
        };
        Lia {
            evolution_stage: stage,
            collaborators: parts,
            dimensional_state: dims,
            state_manager: self.state_manager.with_stage(stage).with_state(snap),
            ..self
        }
    }

    /// The agent after one `process_interaction` call on an input.
    pub open spec fn step(self, input: Interaction) -> Lia {
        match self.outcome(input) {
            Ok(v) => self.folded(v),
            Err(_) => self,
        }
    }

    /// The agent after `process_interaction` on each input in turn.
    pub open spec fn run(self, inputs: Seq<Interaction>) -> Lia
        decreases inputs.len(),
    {
        if inputs.len() == 0 {
            self
        } else {
            self.run(inputs.drop_last()).step(inputs.last())
        }
    }
}

impl Lia {
    /// Builds an agent with the given identity; fails on an invalid configuration.
    pub fn with_identity(config: SystemConfiguration, id: u128, birth_time: i64) -> (r: Result<Lia, LiaError>)
        ensures
            config.valid() <==> r is Ok,
            !config.valid() ==> r == Err::<Lia, LiaError>(LiaError::ConfigurationError),
            r matches Ok(l) ==> l.fresh(config) && l.id_spec() == id && l.birth_time_spec() == birth_time,
    {
        if !config.is_valid() {
            return Err(LiaError::ConfigurationError);
        }
        let collaborators = Collaborators {
            quantum_core: QuantumCore::new(&config),
            neural_matrix: NeuralMatrix::new(&config),
            quantum_thought_processor: QuantumThoughtProcessor::new(&config),
            consciousness_field: ConsciousnessField::new(&config),
            emotional_resonance: EmotionalResonanceEngine::new(&config),
            growth_tracker: GrowthTracker::new(),
            learning_engine: LearningEngine::new(),
            evolution_metrics: EvolutionMetrics::new(),
        };
        let name = String::from_str("Lia");
        proof {
            reveal_strlit("Lia");
            assert(name@ =~= seq!['L', 'i', 'a']);
        }
        Ok(Lia {
            id,
            name,
            birth_time,
            evolution_stage: 1,
            collaborators,
            memory: MemorySystems::new(),
            dimensional_state: DimensionalState::new(),
            state_manager: StateManager::new(),
            configuration: config,
        })
    }

    /// Builds an agent with a fresh random id, born now; fails on an invalid configuration.
    pub fn new(config: SystemConfiguration) -> (r: Result<Lia, LiaError>)
        ensures
            config.valid() <==> r is Ok,
            !config.valid() ==> r == Err::<Lia, LiaError>(LiaError::ConfigurationError),
            r matches Ok(l) ==> l.fresh(config),
    {
        let id = fresh_id();
        let birth_time = now_millis();
        Lia::with_identity(config, id, birth_time)
    }

    /// Runs the stage chain on an input and, on success, folds the response into the agent.
    /// On any failure the agent is left exactly as it was.
    pub fn process_interaction(&mut self, input: &Interaction) -> (r: Result<Response, LiaError>)
        requires
            old(self).wf(),
        ensures
            final(self).wf(),
            match old(self).outcome(*input) {
                Ok(v) => (match r {
                    Ok(resp) => resp@ == v,
                    Err(_) => false,
                }) && *final(self) == old(self).folded(v) && final(self).is_fold_of(*old(self), v),
                Err(e) => r == Err::<Response, LiaError>(e) && *final(self) == *old(self),
            },
            *final(self) == old(self).step(*input),
    {
        proof {
            if old(self).stage() < u64::MAX {
                lemma_folded(*old(self), old(self).outcome(*input)->Ok_0);
            }
        }
        let context = match analyze_context(input) {
            Ok(c) => c,
            Err(e) => return Err(e),
        };
        let quantum_state = self.collaborators.quantum_core.process(&context);
        let neural_response = self.collaborators.neural_matrix.process_with_quantum_state(&quantum_state, &context);
        let thought_patterns = match self.collaborators.quantum_thought_processor.generate_thoughts(&neural_response, &quantum_state) {
            Ok(t) => t,
            Err(e) => return Err(e),
        };
        let consciousness_response = self.collaborators.consciousness_field.process_experience(&context, &thought_patterns);
        let emotional_response = self.collaborators.emotional_resonance.process_emotion(&context, &consciousness_response);
        let response = self.generate_response(
            input,
            &context,
            &quantum_state,
            &neural_response,
            &thought_patterns,
            &consciousness_response,
            &emotional_response,
        );
        match self.evolve_consciousness(&response) {
            Ok(()) => Ok(response),
            Err(e) => Err(e),
        }
    }

    /// Assembles the response: the upstream values verbatim, and synthesized content.
    fn generate_response(
        &self,
        input: &Interaction,
        context: &Context,
        quantum_state: &QuantumState,
        neural_response: &NeuralResponse,
        thought_patterns: &Vec<ThoughtPattern>,
        consciousness_response: &ConsciousnessResponse,
        emotional_response: &EmotionalResponse,
    ) -> (r: Response)
        ensures
            r@ == (ResponseView {
                quantum_coherence: quantum_state.coherence,
                neural_patterns: neural_response.patterns@,
                consciousness_level: consciousness_response.awareness_level,
                emotional_layer: *emotional_response,
                content: synthesized(input.payload@, thought_patterns@),
            }),
    {
        Response {
            quantum_coherence: quantum_state.coherence,
            neural_patterns: neural_response.patterns.clone(),
            consciousness_level: consciousness_response.awareness_level,
            emotional_layer: *emotional_response,
            content: create_natural_response(
                input,
                context,
                quantum_state,
                neural_response,
                thought_patterns,
                consciousness_response,
                emotional_response,
            ),
        }
    }

    /// Folds one response into the agent: growth, the transform subsystems, learning, the
    /// dimensional state, the evolution counter, and finally the persisted snapshot.
    fn evolve_consciousness(&mut self, response: &Response) -> (r: Result<(), LiaError>)
        requires
            old(self).wf(),
            response_bounded(response@),
        ensures
            final(self).wf(),
            old(self).stage() == u64::MAX ==> r == Err::<(), LiaError>(LiaError::EvolutionFailure)
                && *final(self) == *old(self),
            old(self).stage() < u64::MAX ==> r is Ok && *final(self) == old(self).folded(response@),
    {
        if self.evolution_stage == u64::MAX {
            return Err(LiaError::EvolutionFailure);
        }
        self.collaborators.growth_tracker.record_growth(response);
        self.collaborators.quantum_core.evolve(response);
        self.collaborators.neural_matrix.evolve_patterns(response);
        self.collaborators.consciousness_field.evolve(response);
        self.collaborators.emotional_resonance.evolve(response);
        self.collaborators.learning_engine.integrate_experience(response);
        self.update_dimensional_state(response);
        self.collaborators.evolution_metrics.record_evolution(response);
        self.advance_stage();
        let snapshot = self.current_state();
        self.state_manager.update_state(snapshot);
        Ok(())
    }

    /// Moves the dimensional state by the response's impacts and tells the field and the
    /// metrics of the new vector.
    fn update_dimensional_state(&mut self, response: &Response)
        ensures
            *final(self) == (Lia {
                dimensional_state: old(self).dimensional_state.applied(impacts_of(response@)),
                collaborators: Collaborators {
                    consciousness_field: ConsciousnessField {
                        dimensions: old(self).dimensional_state.applied(impacts_of(response@)),
                        ..old(self).collaborators.consciousness_field
                    },
                    evolution_metrics: EvolutionMetrics {
                        dimensional_changes: sat_add(old(self).collaborators.evolution_metrics.dimensional_changes, 1),
                        last_dimensions: old(self).dimensional_state.applied(impacts_of(response@)),
                        ..old(self).collaborators.evolution_metrics
                    },
                    ..old(self).collaborators
                },
                ..*old(self)
            }),
    {
        let impacts = calculate_impacts(response);
        self.dimensional_state.update(impacts);
        self.collaborators.consciousness_field.process_dimensional_change(&self.dimensional_state);
        self.collaborators.evolution_metrics.record_dimensional_change(&self.dimensional_state);
    }

    /// Advances the evolution counter by one and records the new stage.
    fn advance_stage(&mut self)
        requires
            old(self).stage() < u64::MAX,
        ensures
            *final(self) == old(self).advanced(),
    {
        self.evolution_stage = self.evolution_stage + 1;
        self.state_manager.record_evolution(self.evolution_stage);
    }

    /// Feeds the three memory stores with one experience. Nothing else changes: not the
    /// evolution counter, not the dimensional state, no other subsystem.
    pub fn process_memory(&mut self, experience: &Experience)
        ensures
            final(self).memories() == old(self).memories().integrated(experience.payload@, experience.timestamp),
            final(self).stage() == old(self).stage(),
            final(self).dimensions() == old(self).dimensions(),
            *final(self) == old(self).with_memories(final(self).memories()),
            final(self).wf() == old(self).wf(),
            final(self).snapshot() == old(self).snapshot(),
            final(self).parts() == old(self).parts(),
            final(self).persisted() == old(self).persisted(),
            final(self).id_spec() == old(self).id_spec(),
            final(self).name_spec() == old(self).name_spec(),
            final(self).birth_time_spec() == old(self).birth_time_spec(),
            final(self).config() == old(self).config(),
    {
        self.memory.integrate(experience);
    }

    pub fn id(&self) -> (r: u128)
        ensures
            r == self.id_spec(),
    {
        self.id
    }

    pub fn name(&self) -> (r: &String)
        ensures
            r@ == self.name_spec(),
    {
        &self.name
    }

    /// Milliseconds since the Unix epoch at which the agent was built.
    pub fn birth_time(&self) -> (r: i64)
        ensures
            r == self.birth_time_spec(),
    {
        self.birth_time
    }

    pub fn collaborators(&self) -> (r: Collaborators)
        ensures
            r == self.parts(),
    {
        self.collaborators
    }

    pub fn memory_systems(&self) -> (r: MemorySystems)
        ensures
            r == self.memories(),
    {
        self.memory
    }

    pub fn state_manager(&self) -> (r: StateManager)
        ensures
            r == self.persisted(),
    {
        self.state_manager
    }

    pub fn configuration(&self) -> (r: SystemConfiguration)
        ensures
            r == self.config(),
    {
        self.configuration
    }
}

/// What a consciousness-capable agent offers its callers.
pub trait ConsciousnessCapable: Sized {
    /// The well-formedness that every operation keeps.
    spec fn ready(&self) -> bool;

    /// The agent's condition, as `current_state` reports it.
    spec fn state_of(&self) -> ConsciousnessState;

    /// The latest evolution stage handed to the persisted-state manager.
    spec fn recorded_stage(&self) -> u64;

    /// The agent after one explicit evolution.
    spec fn evolved(&self) -> Self;

    /// What processing an experience returns: a response, or the error that stops it.
    spec fn experience_outcome(&self, experience: Experience) -> Result<ResponseView, LiaError>;

    /// The agent after processing an experience.
    spec fn after_experience(&self, experience: Experience) -> Self;

    /// Treats an experience as an interaction. A failure changes nothing.
    fn process_experience(&mut self, experience: Experience) -> (r: Result<Response, LiaError>)
        requires
            old(self).ready(),
        ensures
            final(self).ready(),
            *final(self) == old(self).after_experience(experience),
            match old(self).experience_outcome(experience) {
                Ok(v) => (match r {
                    Ok(resp) => resp@ == v,
                    Err(_) => false,
                }),
                Err(e) => r == Err::<Response, LiaError>(e) && *final(self) == *old(self),
            },
            r is Ok ==> final(self).state_of().evolution_stage == old(self).state_of().evolution_stage + 1,
            r is Ok ==> final(self).recorded_stage() == final(self).state_of().evolution_stage,
    ;

    /// Advances the evolution stage by one and records it; fails, changing nothing, only
    /// when the stage cannot grow.
    fn evolve(&mut self) -> (r: Result<(), LiaError>)
        requires
            old(self).ready(),
        ensures
            final(self).ready(),
            r is Ok <==> old(self).state_of().evolution_stage < u64::MAX,
            r is Ok ==> *final(self) == old(self).evolved(),
            r is Ok ==> final(self).state_of() == (ConsciousnessState {
                evolution_stage: (old(self).state_of().evolution_stage + 1) as u64,
                ..old(self).state_of()
            }),
            r is Ok ==> final(self).recorded_stage() == final(self).state_of().evolution_stage,
            r is Err ==> r == Err::<(), LiaError>(LiaError::EvolutionFailure) && *final(self) == *old(self),
    ;

    /// A point-in-time snapshot; changes nothing.
    fn current_state(&self) -> (r: ConsciousnessState)
        ensures
            r == self.state_of(),
    ;
}

impl ConsciousnessCapable for Lia {
    open spec fn ready(&self) -> bool {
        self.wf()
    }

    open spec fn state_of(&self) -> ConsciousnessState {
        self.snapshot()
    }

    open spec fn recorded_stage(&self) -> u64 {
        self.persisted().recorded_stage
    }

    open spec fn evolved(&self) -> Lia {
        self.advanced()
    }

    open spec fn experience_outcome(&self, experience: Experience) -> Result<ResponseView, LiaError> {
        self.outcome(Interaction { payload: experience.payload, timestamp: experience.timestamp })
    }

    open spec fn after_experience(&self, experience: Experience) -> Lia {
        self.step(Interaction { payload: experience.payload, timestamp: experience.timestamp })
    }

    fn process_experience(&mut self, experience: Experience) -> (r: Result<Response, LiaError>) {
        let ghost e = experience;
        let input = experience.into_interaction();
        proof {
            assert(input == (Interaction { payload: e.payload, timestamp: e.timestamp }));
        }
        self.process_interaction(&input)
    }

    fn evolve(&mut self) -> (r: Result<(), LiaError>) {
        if self.evolution_stage == u64::MAX {
            return Err(LiaError::EvolutionFailure);
        }
        self.advance_stage();
        proof {
            lemma_advanced(*old(self));
        }
        Ok(())
    }

    fn current_state(&self) -> (r: ConsciousnessState) {
        ConsciousnessState {
            id: self.id,
            evolution_stage: self.evolution_stage,
            dimensional_state: self.dimensional_state,
            quantum_coherence: self.collaborators.quantum_core.coherence(),
            consciousness_level: self.collaborators.consciousness_field.awareness_level(),
            emotional_state: self.collaborators.emotional_resonance.current_state(),
        }
    }
}

/// A whole fold changes the agent exactly as `is_fold_of` states.
pub proof fn lemma_folded(s: Lia, v: ResponseView)
    requires
        s.stage() < u64::MAX,
    ensures
        s.folded(v).is_fold_of(s, v),
{
}

/// Advancing the stage changes the agent exactly as `is_advance_of` states.
pub proof fn lemma_advanced(s: Lia)
    requires
        s.stage() < u64::MAX,
    ensures
        s.advanced().is_advance_of(s),
{
}

/// Replacing the memory stores changes nothing else.
pub proof fn lemma_with_memories(s: Lia, m: MemorySystems)
    ensures
        s.with_memories(m).memories() == m,
        s.with_memories(m).id_spec() == s.id_spec(),
        s.with_memories(m).name_spec() == s.name_spec(),
        s.with_memories(m).birth_time_spec() == s.birth_time_spec(),
        s.with_memories(m).config() == s.config(),
        s.with_memories(m).stage() == s.stage(),
        s.with_memories(m).dimensions() == s.dimensions(),
        s.with_memories(m).parts() == s.parts(),
        s.with_memories(m).persisted() == s.persisted(),
        s.with_memories(m).snapshot() == s.snapshot(),
{
}

/// A successful interaction's response carries the coherence produced by the primary
/// transform and the awareness level produced by field integration, unchanged.
pub proof fn lemma_response_carries_stage_outputs(s: Lia, input: Interaction)
    requires
        s.outcome(input) is Ok,
    ensures
        ({
            let ctx = context_of(input.payload@, input.timestamp)->Ok_0;
            let q = s.parts().quantum_core.output(ctx);
            let patterns = s.parts().neural_matrix.output(q, ctx);
            let thoughts = s.parts().quantum_thought_processor.output(patterns, q)->Ok_0;
            let v = s.outcome(input)->Ok_0;
            &&& v.quantum_coherence == q.coherence
            &&& v.consciousness_level == s.parts().consciousness_field.output(thoughts).awareness_level
        }),
{
}

/// The evolution stage, the dimensional state, the subsystems, and every response along
/// a sequence of interactions depend only on the stage, vector and subsystems before it
/// and on the inputs: not on the agent's id, name, birth time, memories or persisted records.
pub proof fn lemma_run_deterministic(a: Lia, b: Lia, inputs: Seq<Interaction>)
    requires
        a.stage() == b.stage(),
        a.dimensions() == b.dimensions(),
        a.parts() == b.parts(),
    ensures
        a.run(inputs).stage() == b.run(inputs).stage(),
        a.run(inputs).dimensions() == b.run(inputs).dimensions(),
        a.run(inputs).parts() == b.run(inputs).parts(),
        forall|k: int|
            0 <= k < inputs.len() ==> #[trigger] a.run(inputs.take(k)).outcome(inputs[k]) == b.run(
                inputs.take(k),
            ).outcome(inputs[k]),
    decreases inputs.len(),
{
    if inputs.len() > 0 {
        lemma_run_deterministic(a, b, inputs.drop_last());
    }
    assert forall|k: int| 0 <= k < inputs.len() implies #[trigger] a.run(inputs.take(k)).outcome(inputs[k])
        == b.run(inputs.take(k)).outcome(inputs[k]) by {
        lemma_run_deterministic(a, b, inputs.take(k));
    }
}

/// Two agents freshly built from one configuration report the same evolution stage and the
/// same dimensional state after the same interactions, and give the same responses.
pub proof fn lemma_fresh_agents_agree(a: Lia, b: Lia, config: SystemConfiguration, inputs: Seq<Interaction>)
    requires
        a.fresh(config),
        b.fresh(config),
    ensures
        a.run(inputs).snapshot().evolution_stage == b.run(inputs).snapshot().evolution_stage,
        a.run(inputs).snapshot().dimensional_state == b.run(inputs).snapshot().dimensional_state,
        forall|k: int|
            0 <= k < inputs.len() ==> #[trigger] a.run(inputs.take(k)).outcome(inputs[k]) == b.run(
                inputs.take(k),
            ).outcome(inputs[k]),
{
    lemma_run_deterministic(a, b, inputs);
}

/// Along any sequence of interactions the id never changes and the evolution stage never
/// decreases.
pub proof fn lemma_run_keeps_identity(s: Lia, inputs: Seq<Interaction>)
    ensures
        s.run(inputs).id_spec() == s.id_spec(),
        s.run(inputs).stage() >= s.stage(),
    decreases inputs.len(),
{
    if inputs.len() > 0 {
        lemma_run_keeps_identity(s, inputs.drop_last());
    }
}

/// Two interactions that both succeed, one after the other, advance the evolution stage by
/// exactly two: neither update is lost.
pub proof fn lemma_two_interactions_advance_two(s: Lia, first: Interaction, second: Interaction)
    requires
        s.outcome(first) is Ok,
        s.step(first).outcome(second) is Ok,
    ensures
        s.step(first).step(second).stage() == s.stage() + 2,
{
}

/// After an interaction the snapshot is either the one before, untouched, or the one that
/// the whole fold produces: the dimensional state moved by all of the response's impacts,
/// the stage one further, and the persisted snapshot equal to it.
pub proof fn lemma_snapshot_whole(s: Lia, input: Interaction)
    ensures
        match s.outcome(input) {
            Ok(v) => {
                &&& s.step(input).snapshot().dimensional_state == s.dimensions().applied(impacts_of(v))
                &&& s.step(input).snapshot().evolution_stage == s.stage() + 1
                &&& s.step(input).persisted().last_snapshot == Some(s.step(input).snapshot())
            },
            Err(_) => s.step(input) == s,
        },
{
}

/// A failure of the thought stage leaves the whole agent as it was: nothing computed by the
/// stages before it reaches the dimensional state or any subsystem.
pub proof fn lemma_thought_failure_changes_nothing(s: Lia, input: Interaction)
    requires
        s.parts().respond(input) == Err::<ResponseView, LiaError>(LiaError::StageFailure(Stage::Thought)),
    ensures
        s.step(input) == s,
{
}

} // verus!
