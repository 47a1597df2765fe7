//! The transform collaborators of the interaction pipeline, each with its own state.
use vstd::prelude::*;
use crate::model::{
    sat_add, ConsciousnessResponse, Context, DimensionalState, EmotionalResponse, Interaction, LiaError,
    NeuralResponse, QuantumState, Response, ResponseView, Stage, SystemConfiguration, ThoughtPattern,
    LEVEL_MAX,
};

verus! {

pub open spec fn byte_sum(s: Seq<u8>) -> nat
    decreases s.len(),
{
    if s.len() == 0 {
        0
    } else {
        byte_sum(s.drop_last()) + s.last() as nat
    }
}

/// The context of a payload, or the context stage's failure on an empty one.
pub open spec fn context_of(payload: Seq<u8>, timestamp: i64) -> Result<Context, LiaError> {
    if payload.len() == 0 {
        Err(LiaError::StageFailure(Stage::Context))
    } else {
        Ok(Context {
            size: payload.len() as u64,
            signal: (byte_sum(payload) % (LEVEL_MAX as nat)) as u64,
            timestamp,
        })
    }
}

/// Stage 1: derives the situational frame of an interaction.
pub fn analyze_context(input: &Interaction) -> (r: Result<Context, LiaError>)
    ensures
        r == context_of(input.payload@, input.timestamp),
{
    let n = input.payload.len();
    if n == 0 {
        return Err(LiaError::StageFailure(Stage::Context));
    }
    let mut acc: u64 = 0;
    let mut i: usize = 0;
    while i < n
        invariant
            n == input.payload@.len(),
            i <= n,
            acc < LEVEL_MAX,
            acc as nat == byte_sum(input.payload@.take(i as int)) % (LEVEL_MAX as nat),
        decreases n - i,
    {
        let b = input.payload[i];
        proof {
            let s = input.payload@;
            assert(s.take(i + 1).drop_last() =~= s.take(i as int));
            vstd::arithmetic::div_mod::lemma_add_mod_noop(
                byte_sum(s.take(i as int)) as int,
                b as int,
                LEVEL_MAX as int,
            );
        }
        acc = (acc + b as u64) % LEVEL_MAX;
        i = i + 1;
    }
    assert(input.payload@.take(n as int) =~= input.payload@);
    Ok(Context { size: n as u64, signal: acc, timestamp: input.timestamp })
}

/// Primary transform.
#[derive(Clone, Copy, Debug, PartialEq, Eq, Structural)]
pub struct QuantumCore {
    pub phase: u64,
    pub coherence: u64,
}

impl QuantumCore {
    pub open spec fn wf(self) -> bool {
        self.phase < LEVEL_MAX && self.coherence <= LEVEL_MAX
    }

    pub open spec fn output(self, ctx: Context) -> QuantumState {
        QuantumState { coherence: ((ctx.signal as nat + self.phase as nat) % (LEVEL_MAX as nat + 1)) as u64 }
    }

    pub open spec fn evolved(self, v: ResponseView) -> QuantumCore {
        QuantumCore {
            phase: ((self.phase as nat + v.consciousness_level as nat) % (LEVEL_MAX as nat)) as u64,
            coherence: v.quantum_coherence,
        }
    }

    pub fn new(config: &SystemConfiguration) -> (r: QuantumCore)
        ensures
            r == (QuantumCore { phase: config.quantum_phase, coherence: 0 }),
    {
        QuantumCore { phase: config.quantum_phase, coherence: 0 }
    }

    /// Stage 2.
    pub fn process(&self, ctx: &Context) -> (r: QuantumState)
        requires
            self.wf(),
            ctx.signal < LEVEL_MAX,
        ensures
            r == self.output(*ctx),
            r.coherence <= LEVEL_MAX,
    {
        QuantumState { coherence: (ctx.signal + self.phase) % (LEVEL_MAX + 1) }
    }

    pub fn evolve(&mut self, response: &Response)
        requires
            old(self).wf(),
            response.quantum_coherence <= LEVEL_MAX,
            response.consciousness_level <= LEVEL_MAX,
        ensures
            *final(self) == old(self).evolved(response@),
            final(self).wf(),
    {
        self.phase = (self.phase + response.consciousness_level) % LEVEL_MAX;
        self.coherence = response.quantum_coherence;
    }

    pub fn coherence(&self) -> (r: u64)
        ensures
            r == self.coherence,
    {
        self.coherence
    }
}

/// Secondary transform.
#[derive(Clone, Copy, Debug, PartialEq, Eq, Structural)]
pub struct NeuralMatrix {
    pub activations: u64,
}

impl NeuralMatrix {
    pub open spec fn output(self, q: QuantumState, ctx: Context) -> Seq<u64> {
        seq![q.coherence, ctx.signal, (self.activations % LEVEL_MAX) as u64]
    }

    pub fn new(_config: &SystemConfiguration) -> (r: NeuralMatrix)
        ensures
            r.activations == 0,
    {
        NeuralMatrix { activations: 0 }
    }

    /// Stage 3.
    pub fn process_with_quantum_state(&self, q: &QuantumState, ctx: &Context) -> (r: NeuralResponse)
        ensures
            r.patterns@ == self.output(*q, *ctx),
    {
        let patterns = vec![q.coherence, ctx.signal, self.activations % LEVEL_MAX];
        assert(patterns@ =~= self.output(*q, *ctx));
        NeuralResponse { patterns }
    }

    pub fn evolve_patterns(&mut self, response: &Response)
        ensures
            final(self).activations == sat_add(old(self).activations, 1),
    {
        self.activations = self.activations.saturating_add(1);
    }
}

/// Strength of the thought that a pattern descriptor gives under a coherence.
pub open spec fn strength_of(descriptor: u64, coherence: u64) -> u64 {
    ((descriptor as nat % (LEVEL_MAX as nat + 1) + coherence as nat % (LEVEL_MAX as nat + 1)) / 2) as u64
}

pub open spec fn thoughts_of(patterns: Seq<u64>, coherence: u64) -> Seq<ThoughtPattern> {
    patterns.map_values(|p: u64| ThoughtPattern { descriptor: p, strength: strength_of(p, coherence) })
}

/// Turns neural patterns into thoughts, up to a capacity set by the configuration.
#[derive(Clone, Copy, Debug, PartialEq, Eq, Structural)]
pub struct QuantumThoughtProcessor {
    pub capacity: u64,
}

impl QuantumThoughtProcessor {
    pub open spec fn output(self, patterns: Seq<u64>, q: QuantumState) -> Result<Seq<ThoughtPattern>, LiaError> {
        if patterns.len() > self.capacity {
            Err(LiaError::StageFailure(Stage::Thought))
        } else {
            Ok(thoughts_of(patterns, q.coherence))
        }
    }

    pub fn new(config: &SystemConfiguration) -> (r: QuantumThoughtProcessor)
        ensures
            r.capacity == config.thought_capacity,
    {
        QuantumThoughtProcessor { capacity: config.thought_capacity }
    }

    /// Stage 4: one thought per pattern, in order; fails when the patterns exceed the capacity.
    pub fn generate_thoughts(&self, n: &NeuralResponse, q: &QuantumState) -> (r: Result<Vec<ThoughtPattern>, LiaError>)
        ensures
            match (r, self.output(n.patterns@, *q)) {
                (Ok(t), Ok(u)) => t@ == u,
                (Err(e), Err(f)) => e == f,
                _ => false,
            },
    {
        if n.patterns.len() as u64 > self.capacity {
            return Err(LiaError::StageFailure(Stage::Thought));
        }
        let mut out: Vec<ThoughtPattern> = Vec::new();
        let mut i: usize = 0;
        while i < n.patterns.len()
            invariant
                i <= n.patterns@.len(),
                out@ =~= thoughts_of(n.patterns@.take(i as int), q.coherence),
            decreases n.patterns@.len() - i,
        {
            let p = n.patterns[i];
            let strength = (p % (LEVEL_MAX + 1) + q.coherence % (LEVEL_MAX + 1)) / 2;
            out.push(ThoughtPattern { descriptor: p, strength });
            i = i + 1;
            assert(out@ =~= thoughts_of(n.patterns@.take(i as int), q.coherence));
        }
        assert(n.patterns@.take(i as int) =~= n.patterns@);
        Ok(out)
    }
}

/// Strongest thought, or 0 for none.
pub open spec fn max_strength(t: Seq<ThoughtPattern>) -> u64
    decreases t.len(),
{
    if t.len() == 0 {
        0
    } else {
        let m = max_strength(t.drop_last());
        if t.last().strength > m {
            t.last().strength
        } else {
            m
        }
    }
}

/// Integrates thoughts into an awareness level.
#[derive(Clone, Copy, Debug, PartialEq, Eq, Structural)]
pub struct ConsciousnessField {
    pub awareness: u64,
    pub dimensions: DimensionalState,
}

impl ConsciousnessField {
    pub open spec fn wf(self) -> bool {
        self.awareness <= LEVEL_MAX
    }

    pub open spec fn output(self, t: Seq<ThoughtPattern>) -> ConsciousnessResponse {
        ConsciousnessResponse {
            awareness_level: ((min_level(max_strength(t)) as nat + self.awareness as nat) / 2) as u64,
        }
    }

    pub fn new(_config: &SystemConfiguration) -> (r: ConsciousnessField)
        ensures
            r == (ConsciousnessField { awareness: 0, dimensions: DimensionalState::origin() }),
    {
        ConsciousnessField { awareness: 0, dimensions: DimensionalState::new() }
    }

    /// Stage 5.
    pub fn process_experience(&self, _ctx: &Context, thoughts: &Vec<ThoughtPattern>) -> (r: ConsciousnessResponse)
        requires
            self.wf(),
        ensures
            r == self.output(thoughts@),
            r.awareness_level <= LEVEL_MAX,
    {
        let mut m: u64 = 0;
        let mut i: usize = 0;
        while i < thoughts.len()
            invariant
                i <= thoughts@.len(),
                m == max_strength(thoughts@.take(i as int)),
            decreases thoughts@.len() - i,
        {
            proof {
                assert(thoughts@.take(i + 1).drop_last() =~= thoughts@.take(i as int));
            }
            if thoughts[i].strength > m {
                m = thoughts[i].strength;
            }
            i = i + 1;
        }
        assert(thoughts@.take(i as int) =~= thoughts@);
        let capped = if m > LEVEL_MAX { LEVEL_MAX } else { m };
        ConsciousnessResponse { awareness_level: (capped + self.awareness) / 2 }
    }

    pub fn evolve(&mut self, response: &Response)
        requires
            response.consciousness_level <= LEVEL_MAX,
        ensures
            *final(self) == (ConsciousnessField { awareness: response.consciousness_level, ..*old(self) }),
            final(self).wf(),
    {
        self.awareness = response.consciousness_level;
    }

    pub fn process_dimensional_change(&mut self, dims: &DimensionalState)
        ensures
            *final(self) == (ConsciousnessField { dimensions: *dims, ..*old(self) }),
    {
        self.dimensions = *dims;
    }

    pub fn awareness_level(&self) -> (r: u64)
        ensures
            r == self.awareness,
    {
        self.awareness
    }
}

pub open spec fn min_level(x: u64) -> u64 {
    if x > LEVEL_MAX {
        LEVEL_MAX
    } else {
        x
    }
}

/// Affect scoring, carrying the last affect it produced.
#[derive(Clone, Copy, Debug, PartialEq, Eq, Structural)]
pub struct EmotionalResonanceEngine {
    pub state: EmotionalResponse,
}

impl EmotionalResonanceEngine {
    pub open spec fn wf(self) -> bool {
        self.state.valence < LEVEL_MAX && self.state.intensity <= LEVEL_MAX
    }

    pub open spec fn output(self, ctx: Context, c: ConsciousnessResponse) -> EmotionalResponse {
        EmotionalResponse {
            valence: ((c.awareness_level as nat + self.state.valence as nat + ctx.signal as nat) % (LEVEL_MAX as nat)) as u64,
            intensity: ((c.awareness_level as nat + self.state.intensity as nat) / 2) as u64,
        }
    }

    pub fn new(config: &SystemConfiguration) -> (r: EmotionalResonanceEngine)
        requires
            config.valid(),
        ensures
            r.state == (EmotionalResponse { valence: config.emotional_baseline, intensity: 0 }),
            r.wf(),
    {
        EmotionalResonanceEngine { state: EmotionalResponse { valence: config.emotional_baseline, intensity: 0 } }
    }

    /// Stage 6.
    pub fn process_emotion(&self, ctx: &Context, c: &ConsciousnessResponse) -> (r: EmotionalResponse)
        requires
            self.wf(),
            c.awareness_level <= LEVEL_MAX,
            ctx.signal < LEVEL_MAX,
        ensures
            r == self.output(*ctx, *c),
            r.valence < LEVEL_MAX,
            r.intensity <= LEVEL_MAX,
    {
        EmotionalResponse {
            valence: (c.awareness_level + self.state.valence + ctx.signal) % LEVEL_MAX,
            intensity: (c.awareness_level + self.state.intensity) / 2,
        }
    }

    pub fn evolve(&mut self, response: &Response)
        requires
            response.emotional_layer.valence < LEVEL_MAX,
            response.emotional_layer.intensity <= LEVEL_MAX,
        ensures
            final(self).state == response.emotional_layer,
            final(self).wf(),
    {
        self.state = response.emotional_layer;
    }

    pub fn current_state(&self) -> (r: EmotionalResponse)
        ensures
            r == self.state,
    {
        self.state
    }
}

/// The letter that stands for one thought in synthesized text.
pub open spec fn letter_of(t: ThoughtPattern) -> u8 {
    (97 + t.strength % 26) as u8
}

/// The text of a response: the interaction's payload, then one letter per thought.
pub open spec fn synthesized(payload: Seq<u8>, thoughts: Seq<ThoughtPattern>) -> Seq<u8> {
    payload + thoughts.map_values(|t: ThoughtPattern| letter_of(t))
}

/// Writes the natural-language content of a response. It is handed every upstream artifact
/// of the interaction; this synthesiser echoes the payload and voices each thought.
pub fn create_natural_response(
    input: &Interaction,
    _context: &Context,
    _quantum_state: &QuantumState,
    _neural_response: &NeuralResponse,
    thoughts: &Vec<ThoughtPattern>,
    _consciousness_response: &ConsciousnessResponse,
    _emotional_response: &EmotionalResponse,
) -> (r: Vec<u8>)
    ensures
        r@ == synthesized(input.payload@, thoughts@),
{
    let mut out: Vec<u8> = input.payload.clone();
    let mut i: usize = 0;
    while i < thoughts.len()
        invariant
            i <= thoughts@.len(),
            out@ =~= synthesized(input.payload@, thoughts@.take(i as int)),
        decreases thoughts@.len() - i,
    {
        let letter: u8 = 97 + (thoughts[i].strength % 26) as u8;
        out.push(letter);
        i = i + 1;
        assert(out@ =~= synthesized(input.payload@, thoughts@.take(i as int)));
    }
    assert(thoughts@.take(i as int) =~= thoughts@);
    out
}

} // verus!
