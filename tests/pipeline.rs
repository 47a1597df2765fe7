use lia::agent::{ConsciousnessCapable, Lia};
use lia::model::{
    DimensionalState, EmotionalResponse, Experience, Interaction, LiaError, Stage,
    SystemConfiguration,
};
use lia::stages::analyze_context;

fn config(capacity: u64) -> SystemConfiguration {
    SystemConfiguration { quantum_phase: 5, thought_capacity: capacity, emotional_baseline: 1 }
}

fn agent(capacity: u64, id: u128) -> Lia {
    Lia::with_identity(config(capacity), id, 1_000).unwrap()
}

fn input(bytes: &[u8]) -> Interaction {
    Interaction::new(bytes.to_vec(), 7)
}

#[test]
fn response_copies_stage_outputs() {
    let mut lia = agent(8, 1);
    let r = lia.process_interaction(&input(&[3, 4])).unwrap();
    assert_eq!(r.quantum_coherence, 12);
    assert_eq!(r.neural_patterns, vec![12, 7, 0]);
    assert_eq!(r.consciousness_level, 6);
    assert_eq!(r.emotional_layer, EmotionalResponse { valence: 14, intensity: 3 });
    assert_eq!(r.content, vec![3, 4, b'm', b'j', b'g']);
}

#[test]
fn fold_applies_whole_response() {
    let mut lia = agent(8, 1);
    let before = lia.current_state();
    assert_eq!(before.dimensional_state, DimensionalState::new());
    lia.process_interaction(&input(&[3, 4])).unwrap();
    let after = lia.current_state();
    assert_eq!(
        after.dimensional_state,
        DimensionalState { awareness: 6, coherence: 12, affect: 14, complexity: 3 }
    );
    assert_eq!(after.evolution_stage, 2);
    assert_eq!(after.quantum_coherence, 12);
    assert_eq!(after.consciousness_level, 6);
    assert_eq!(after.emotional_state, EmotionalResponse { valence: 14, intensity: 3 });
    let parts = lia.collaborators();
    assert_eq!(parts.quantum_core.phase, 11);
    assert_eq!(parts.neural_matrix.activations, 1);
    assert_eq!(parts.consciousness_field.dimensions, after.dimensional_state);
    assert_eq!(parts.growth_tracker.interactions, 1);
    assert_eq!(parts.learning_engine.content_total, 5);
    assert_eq!(parts.evolution_metrics.evolutions, 1);
    assert_eq!(parts.evolution_metrics.dimensional_changes, 1);
    let sm = lia.state_manager();
    assert_eq!(sm.last_snapshot, Some(after));
    assert_eq!(sm.recorded_stage, 2);
}

#[test]
fn same_inputs_same_evolution() {
    let inputs: Vec<Interaction> = vec![input(&[3, 4]), input(&[250, 250, 9]), input(&[1])];
    let mut a = agent(8, 1);
    let mut b = agent(8, 2);
    for i in &inputs {
        a.process_interaction(i).unwrap();
        b.process_interaction(i).unwrap();
    }
    assert_eq!(a.current_state().evolution_stage, 4);
    assert_eq!(a.current_state().evolution_stage, b.current_state().evolution_stage);
    assert_eq!(a.current_state().dimensional_state, b.current_state().dimensional_state);
    assert_ne!(a.current_state().id, b.current_state().id);
}

#[test]
fn two_interactions_advance_two() {
    let mut lia = agent(8, 1);
    let start = lia.current_state().evolution_stage;
    lia.process_interaction(&input(&[1, 2])).unwrap();
    lia.process_interaction(&input(&[9])).unwrap();
    assert_eq!(lia.current_state().evolution_stage, start + 2);
}

#[test]
fn memory_path_is_isolated() {
    let mut lia = agent(8, 1);
    lia.process_interaction(&input(&[3, 4])).unwrap();
    let before = lia.current_state();
    let parts = lia.collaborators();
    lia.process_memory(&Experience::new(vec![1, 2, 3], 42));
    assert_eq!(lia.current_state(), before);
    assert_eq!(lia.collaborators(), parts);
    let m = lia.memory_systems();
    assert_eq!(m.episodes, 1);
    assert_eq!(m.last_episode_time, 42);
    assert_eq!(m.knowledge_bytes, 3);
    assert_eq!(m.routines, 1);
}

#[test]
fn stage_counter_scenario() {
    let mut lia = agent(8, 1);
    assert_eq!(lia.current_state().evolution_stage, 1);
    lia.process_interaction(&input(&[3, 4])).unwrap();
    assert_eq!(lia.current_state().evolution_stage, 2);

    let mut other = agent(8, 2);
    assert_eq!(other.evolve(), Ok(()));
    assert_eq!(other.current_state().evolution_stage, 2);
    assert_eq!(other.state_manager().recorded_stage, 2);
    assert_eq!(other.current_state().dimensional_state, DimensionalState::new());
}

#[test]
fn thought_stage_failure_changes_nothing() {
    let mut lia = agent(2, 1);
    let state = lia.current_state();
    let parts = lia.collaborators();
    let sm = lia.state_manager();
    let r = lia.process_interaction(&input(&[3, 4]));
    assert_eq!(r.err(), Some(LiaError::StageFailure(Stage::Thought)));
    assert_eq!(lia.current_state(), state);
    assert_eq!(lia.collaborators(), parts);
    assert_eq!(lia.state_manager(), sm);
}

#[test]
fn empty_payload_fails_context_stage() {
    let mut lia = agent(8, 1);
    let r = lia.process_interaction(&input(&[]));
    assert_eq!(r.err(), Some(LiaError::StageFailure(Stage::Context)));
    assert_eq!(lia.current_state().evolution_stage, 1);
}

#[test]
fn invalid_configuration_is_refused() {
    let bad = SystemConfiguration { quantum_phase: 1000, thought_capacity: 8, emotional_baseline: 0 };
    assert_eq!(Lia::with_identity(bad, 1, 0).err(), Some(LiaError::ConfigurationError));
    let bad2 = SystemConfiguration { quantum_phase: 0, thought_capacity: 8, emotional_baseline: 1000 };
    assert_eq!(Lia::new(bad2).err(), Some(LiaError::ConfigurationError));
}

#[test]
fn new_agent_is_fresh() {
    let lia = Lia::new(config(8)).unwrap();
    assert_eq!(lia.name(), "Lia");
    assert_eq!(lia.current_state().evolution_stage, 1);
    assert!(lia.birth_time() > 0);
    assert_eq!(lia.configuration(), config(8));
    assert_eq!(lia.state_manager().last_snapshot, None);
}

#[test]
fn identity_is_kept() {
    let lia = agent(8, 77);
    assert_eq!(lia.id(), 77);
    assert_eq!(lia.birth_time(), 1_000);
    assert_eq!(lia.current_state().id, 77);
}

#[test]
fn context_signal_wraps() {
    let c = analyze_context(&input(&[200, 200, 200, 200, 200, 200])).unwrap();
    assert_eq!(c.size, 6);
    assert_eq!(c.signal, 200);
    assert_eq!(c.timestamp, 7);
}

#[test]
fn experience_goes_through_pipeline() {
    let mut lia = agent(8, 1);
    let r = lia.process_experience(Experience::new(vec![3, 4], 7)).unwrap();
    assert_eq!(r.quantum_coherence, 12);
    assert_eq!(lia.current_state().evolution_stage, 2);
}
