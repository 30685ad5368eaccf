//! One candidate output stream: its tokens, per-layer cache slots, stop
//! configuration, timing and lifecycle state, together with the stop
//! decision evaluated after each sampled token.
//!
//! A `Sequence` is advanced by an external scheduler; the cohort it
//! belongs to is a [`crate::group::SequenceGroup`] owned by that
//! scheduler, handed to the few operations that must update cohort state
//! (the error transition, finalizing a choice, buffering a streaming
//! delta), so that all cohort mutations go through one synchronized
//! owner.

use std::sync::mpsc::Sender;
use vstd::prelude::*;
use crate::channel;
use crate::group::SequenceGroup;
use crate::response::{Choice, ChunkChoice, Response};

verus! {

#[verifier::external_type_specification]
#[verifier::external_body]
pub struct ExTensor(candle_core::Tensor);

#[verifier::external_type_specification]
#[verifier::external_body]
pub struct ExCandleError(candle_core::Error);

/// Why generation of a sequence stopped.
#[derive(Clone, Copy, PartialEq, Eq, Debug, Structural)]
pub enum StopReason {
    /// The model's end-of-sequence token was sampled.
    Eos,
    /// A configured stop token was sampled.
    StopTok(u32),
    /// The configured per-request generation limit was reached.
    Length(usize),
    /// The model's absolute context limit was reached.
    ModelLength(usize),
}

impl StopReason {
    /// The finish-reason string reported to clients: token-caused stops
    /// report `"stop"`, limit-caused stops report `"length"`.
    pub fn to_string(&self) -> (r: String)
        ensures
            (*self is Eos || *self is StopTok) ==> r@ == "stop"@,
            (*self is Length || *self is ModelLength) ==> r@ == "length"@,
    {
        match self {
            StopReason::Eos => "stop".to_owned(),
            StopReason::StopTok(_) => "stop".to_owned(),
            StopReason::Length(_) => "length".to_owned(),
            StopReason::ModelLength(_) => "length".to_owned(),
        }
    }
}

/// Lifecycle state of a sequence. `Waiting` is the sole initial state;
/// `Done` and `Error` are terminal. The order is monotonic except for the
/// absorbing transition into `Error`, which is reachable from any
/// non-terminal state.
#[derive(Clone, Copy, PartialEq, Eq, Debug, Structural)]
pub enum SequenceState {
    Done(StopReason),
    RunningPrompt,
    RunningCompletion,
    Waiting,
    Error,
}

/// The sampler's record for one generated token. The log-probability is
/// carried as the bit pattern of the sampler's single-precision value, so
/// that this core holds no floating-point state.
#[derive(Clone, Debug)]
pub struct Logprobs {
    pub token: u32,
    pub logprob_bits: u32,
    pub bytes: String,
}

/// The stop decision, evaluated after appending a newly sampled token, in
/// fixed precedence order: end-of-sequence, configured stop token,
/// configured generation limit, model context limit.
pub open spec fn stop_decision(
    generated: nat,
    stop_tokens: Seq<u32>,
    max_len: Option<usize>,
    tok: u32,
    eos_tok: u32,
    max_model_len: usize,
) -> Option<StopReason> {
    if tok == eos_tok {
        Some(StopReason::Eos)
    } else if stop_tokens.contains(tok) {
        Some(StopReason::StopTok(tok))
    } else if max_len is Some && generated == max_len.unwrap() {
        Some(StopReason::Length(max_len.unwrap()))
    } else if generated == max_model_len {
        Some(StopReason::ModelLength(max_model_len))
    } else {
        None
    }
}

/// Law: a token equal to the end-of-sequence id always yields `Eos`,
/// whatever the stop-token set and the configured limits.
pub proof fn lemma_eos_precedence(
    generated: nat,
    stop_tokens: Seq<u32>,
    max_len: Option<usize>,
    eos_tok: u32,
    max_model_len: usize,
)
    ensures
        stop_decision(generated, stop_tokens, max_len, eos_tok, eos_tok, max_model_len)
            == Some(StopReason::Eos),
{
}

/// Law: under a configured limit `m` (not above the model limit), a token
/// that matches neither the end-of-sequence id nor a stop token yields
/// `Length(m)` exactly when the generated count reaches `m`, and no stop
/// at all before that.
pub proof fn lemma_length_cutoff_exact(
    generated: nat,
    stop_tokens: Seq<u32>,
    m: usize,
    tok: u32,
    eos_tok: u32,
    max_model_len: usize,
)
    requires
        tok != eos_tok,
        !stop_tokens.contains(tok),
        m <= max_model_len,
    ensures
        generated == m ==> stop_decision(generated, stop_tokens, Some(m), tok, eos_tok, max_model_len)
            == Some(StopReason::Length(m)),
        generated < m ==> stop_decision(generated, stop_tokens, Some(m), tok, eos_tok, max_model_len)
            is None,
{
}

fn contains_tok(toks: &Vec<u32>, tok: u32) -> (r: bool)
    ensures
        r == toks@.contains(tok),
{
    let n = toks.len();
    let mut i: usize = 0;
    while i < n
        invariant
            i <= n,
            n == toks@.len(),
            forall|k: int| 0 <= k < i ==> toks@[k] != tok,
        decreases n - i,
    {
        if toks[i] == tok {
            return true;
        }
        i = i + 1;
    }
    false
}

fn empty_cache(layers: usize) -> (v: Vec<Option<(candle_core::Tensor, candle_core::Tensor)>>)
    ensures
        v@.len() == layers,
        forall|k: int| 0 <= k < layers ==> v@[k] is None,
{
    let mut v: Vec<Option<(candle_core::Tensor, candle_core::Tensor)>> = Vec::new();
    let mut i: usize = 0;
    while i < layers
        invariant
            i <= layers,
            v@.len() == i,
            forall|k: int| 0 <= k < i ==> v@[k] is None,
        decreases layers - i,
    {
        v.push(None);
        i = i + 1;
    }
    v
}

/// One candidate output stream for a request.
pub struct Sequence {
    // Immutable-after-creation configuration.
    pub id: usize,
    pub prompt_len: usize,
    pub max_len: Option<usize>,
    pub timestamp: u128,
    pub stop_tokens: Vec<u32>,
    pub return_logprobs: bool,
    pub responder: Sender<Response>,
    pub response_index: usize,
    // Cache.
    pub scaling_cache: Option<candle_core::Tensor>,
    pub cache: Vec<Option<(candle_core::Tensor, candle_core::Tensor)>>,
    pub xlora_cache: Vec<Option<(candle_core::Tensor, candle_core::Tensor)>>,
    pub is_xlora: bool,
    // Mutable generation state.
    pub tokens: Vec<u32>,
    pub logprobs: Vec<Logprobs>,
    pub prompt_timestamp: Option<u128>,
    pub total_sampling_time: u128,
    pub state: SequenceState,
}

impl Sequence {
    pub closed spec fn spec_id(self) -> usize {
        self.id
    }

    pub closed spec fn spec_prompt_len(self) -> nat {
        self.prompt_len as nat
    }

    pub closed spec fn spec_max_len(self) -> Option<usize> {
        self.max_len
    }

    pub closed spec fn spec_timestamp(self) -> u128 {
        self.timestamp
    }

    pub closed spec fn spec_stop_tokens(self) -> Seq<u32> {
        self.stop_tokens@
    }

    pub closed spec fn spec_return_logprobs(self) -> bool {
        self.return_logprobs
    }

    pub closed spec fn spec_responder(self) -> Sender<Response> {
        self.responder
    }

    pub closed spec fn spec_response_index(self) -> usize {
        self.response_index
    }

    pub closed spec fn spec_scaling_cache(self) -> Option<candle_core::Tensor> {
        self.scaling_cache
    }

    pub closed spec fn spec_cache(self) -> Seq<Option<(candle_core::Tensor, candle_core::Tensor)>> {
        self.cache@
    }

    pub closed spec fn spec_xlora_cache(self) -> Seq<
        Option<(candle_core::Tensor, candle_core::Tensor)>,
    > {
        self.xlora_cache@
    }

    pub closed spec fn spec_is_xlora(self) -> bool {
        self.is_xlora
    }

    pub closed spec fn spec_tokens(self) -> Seq<u32> {
        self.tokens@
    }

    pub closed spec fn spec_logprobs(self) -> Seq<Logprobs> {
        self.logprobs@
    }

    pub closed spec fn spec_state(self) -> SequenceState {
        self.state
    }

    /// The invariant every operation preserves: the token history never
    /// shrinks below the prompt, and the adapter-specific cache, when
    /// allocated, parallels the per-layer cache.
    pub open spec fn wf(self) -> bool {
        &&& self.spec_tokens().len() >= self.spec_prompt_len()
        &&& (self.spec_is_xlora() ==> self.spec_xlora_cache().len() == self.spec_cache().len())
        &&& (!self.spec_is_xlora() ==> self.spec_xlora_cache().len() == 0)
    }

    /// Everything immutable-after-creation, and the caches, agree between
    /// `self` and `other`.
    pub closed spec fn eq_except_generation_state(self, other: Sequence) -> bool {
        &&& self.id == other.id
        &&& self.prompt_len == other.prompt_len
        &&& self.max_len == other.max_len
        &&& self.timestamp == other.timestamp
        &&& self.stop_tokens == other.stop_tokens
        &&& self.return_logprobs == other.return_logprobs
        &&& self.responder == other.responder
        &&& self.response_index == other.response_index
        &&& self.scaling_cache == other.scaling_cache
        &&& self.cache == other.cache
        &&& self.xlora_cache == other.xlora_cache
        &&& self.is_xlora == other.is_xlora
    }

    #[allow(clippy::too_many_arguments)]
    pub fn new_waiting(
        tokens: Vec<u32>,
        id: usize,
        timestamp: u128,
        layers: usize,
        responder: Sender<Response>,
        stop_tokens: Vec<u32>,
        max_len: Option<usize>,
        return_logprobs: bool,
        is_xlora: bool,
        response_index: usize,
    ) -> (s: Sequence)
        ensures
            s.wf(),
            s.spec_tokens() == tokens@,
            s.spec_prompt_len() == tokens@.len(),
            s.spec_logprobs().len() == 0,
            s.spec_state() is Waiting,
            s.spec_id() == id,
            s.spec_timestamp() == timestamp,
            s.spec_cache().len() == layers,
            forall|k: int| 0 <= k < layers ==> s.spec_cache()[k] is None,
            s.spec_is_xlora() == is_xlora,
            is_xlora ==> s.spec_xlora_cache().len() == layers,
            s.spec_scaling_cache() is None,
            s.spec_stop_tokens() == stop_tokens@,
            s.spec_max_len() == max_len,
            s.spec_return_logprobs() == return_logprobs,
            s.spec_responder() == responder,
            s.spec_response_index() == response_index,
            s.prompt_timestamp is None,
            s.total_sampling_time == 0,
    {
        let prompt_len = tokens.len();
        let xlora_cache = if is_xlora {
            empty_cache(layers)
        } else {
            Vec::new()
        };
        Sequence {
            id,
            prompt_len,
            max_len,
            timestamp,
            stop_tokens,
            return_logprobs,
            responder,
            response_index,
            scaling_cache: None,
            cache: empty_cache(layers),
            xlora_cache,
            is_xlora,
            tokens,
            logprobs: Vec::new(),
            prompt_timestamp: None,
            total_sampling_time: 0,
            state: SequenceState::Waiting,
        }
    }

    pub fn len(&self) -> (r: usize)
        ensures
            r == self.spec_tokens().len(),
    {
        self.tokens.len()
    }

    pub fn id(&self) -> (r: &usize)
        ensures
            *r == self.spec_id(),
    {
        &self.id
    }

    pub fn is_running(&self) -> (r: bool)
        ensures
            r <==> (self.spec_state() is RunningCompletion || self.spec_state() is RunningPrompt),
    {
        matches!(self.state, SequenceState::RunningCompletion | SequenceState::RunningPrompt)
    }

    pub fn is_completion(&self) -> (r: bool)
        ensures
            r <==> self.spec_state() is RunningCompletion,
    {
        matches!(self.state, SequenceState::RunningCompletion)
    }

    pub fn is_prompt(&self) -> (r: bool)
        ensures
            r <==> self.spec_state() is RunningPrompt,
    {
        matches!(self.state, SequenceState::RunningPrompt)
    }

    pub fn is_waiting(&self) -> (r: bool)
        ensures
            r <==> self.spec_state() is Waiting,
    {
        matches!(self.state, SequenceState::Waiting)
    }

    pub fn get_toks(&self) -> (r: &[u32])
        ensures
            r@ == self.spec_tokens(),
    {
        self.tokens.as_slice()
    }

    /// Mutable access to the per-layer key/value cache slots.
    pub fn cache(&mut self) -> (r: &mut Vec<Option<(candle_core::Tensor, candle_core::Tensor)>>)
        ensures
            r@ == old(self).spec_cache(),
            final(self).spec_cache() == final(r)@,
            final(self).spec_tokens() == old(self).spec_tokens(),
            final(self).spec_logprobs() == old(self).spec_logprobs(),
            final(self).spec_state() == old(self).spec_state(),
            final(self).spec_xlora_cache() == old(self).spec_xlora_cache(),
            final(self).spec_scaling_cache() == old(self).spec_scaling_cache(),
            final(self).spec_id() == old(self).spec_id(),
            final(self).spec_prompt_len() == old(self).spec_prompt_len(),
            final(self).spec_max_len() == old(self).spec_max_len(),
            final(self).spec_timestamp() == old(self).spec_timestamp(),
            final(self).spec_stop_tokens() == old(self).spec_stop_tokens(),
            final(self).spec_return_logprobs() == old(self).spec_return_logprobs(),
            final(self).spec_responder() == old(self).spec_responder(),
            final(self).spec_response_index() == old(self).spec_response_index(),
            final(self).spec_is_xlora() == old(self).spec_is_xlora(),
            final(self).prompt_timestamp == old(self).prompt_timestamp,
            final(self).total_sampling_time == old(self).total_sampling_time,
    {
        &mut self.cache
    }

    /// Mutable access to the adapter-specific cache slots. Only sequences
    /// created with adapter-specific caching have them; asking for them on
    /// any other sequence is a programmer error, excluded by contract.
    pub fn xlora_cache(&mut self) -> (r: &mut Vec<
        Option<(candle_core::Tensor, candle_core::Tensor)>,
    >)
        requires
            old(self).spec_is_xlora(),
        ensures
            r@ == old(self).spec_xlora_cache(),
            final(self).spec_xlora_cache() == final(r)@,
            final(self).spec_cache() == old(self).spec_cache(),
            final(self).spec_tokens() == old(self).spec_tokens(),
            final(self).spec_logprobs() == old(self).spec_logprobs(),
            final(self).spec_state() == old(self).spec_state(),
            final(self).spec_scaling_cache() == old(self).spec_scaling_cache(),
            final(self).spec_id() == old(self).spec_id(),
            final(self).spec_prompt_len() == old(self).spec_prompt_len(),
            final(self).spec_max_len() == old(self).spec_max_len(),
            final(self).spec_timestamp() == old(self).spec_timestamp(),
            final(self).spec_stop_tokens() == old(self).spec_stop_tokens(),
            final(self).spec_return_logprobs() == old(self).spec_return_logprobs(),
            final(self).spec_responder() == old(self).spec_responder(),
            final(self).spec_response_index() == old(self).spec_response_index(),
            final(self).spec_is_xlora() == old(self).spec_is_xlora(),
            final(self).prompt_timestamp == old(self).prompt_timestamp,
            final(self).total_sampling_time == old(self).total_sampling_time,
    {
        &mut self.xlora_cache
    }

    /// Mutable access to the scratch tensor of the scaling optimization.
    pub fn scaling_cache(&mut self) -> (r: &mut Option<candle_core::Tensor>)
        ensures
            *r == old(self).spec_scaling_cache(),
            final(self).spec_scaling_cache() == *final(r),
            final(self).spec_cache() == old(self).spec_cache(),
            final(self).spec_xlora_cache() == old(self).spec_xlora_cache(),
            final(self).spec_tokens() == old(self).spec_tokens(),
            final(self).spec_logprobs() == old(self).spec_logprobs(),
            final(self).spec_state() == old(self).spec_state(),
            final(self).spec_id() == old(self).spec_id(),
            final(self).spec_prompt_len() == old(self).spec_prompt_len(),
            final(self).spec_max_len() == old(self).spec_max_len(),
            final(self).spec_timestamp() == old(self).spec_timestamp(),
            final(self).spec_stop_tokens() == old(self).spec_stop_tokens(),
            final(self).spec_return_logprobs() == old(self).spec_return_logprobs(),
            final(self).spec_responder() == old(self).spec_responder(),
            final(self).spec_response_index() == old(self).spec_response_index(),
            final(self).spec_is_xlora() == old(self).spec_is_xlora(),
            final(self).prompt_timestamp == old(self).prompt_timestamp,
            final(self).total_sampling_time == old(self).total_sampling_time,
    {
        &mut self.scaling_cache
    }

    pub fn is_xlora(&self) -> (r: bool)
        ensures
            r == self.spec_is_xlora(),
    {
        self.is_xlora
    }

    /// Record one sampled token: the token history and the log-probability
    /// history each grow by exactly that record.
    pub fn add_token(&mut self, tok: Logprobs)
        requires
            old(self).wf(),
        ensures
            final(self).wf(),
            final(self).spec_tokens() == old(self).spec_tokens().push(tok.token),
            final(self).spec_logprobs() == old(self).spec_logprobs().push(tok),
            final(self).spec_state() == old(self).spec_state(),
            final(self).eq_except_generation_state(*old(self)),
            final(self).prompt_timestamp == old(self).prompt_timestamp,
            final(self).total_sampling_time == old(self).total_sampling_time,
    {
        self.tokens.push(tok.token);
        self.logprobs.push(tok);
    }

    /// A clone of this sequence's response channel.
    pub fn responder(&self) -> Sender<Response> {
        channel::clone_sender(&self.responder)
    }

    pub(crate) fn responder_ref(&self) -> (r: &Sender<Response>)
        ensures
            *r == self.spec_responder(),
    {
        &self.responder
    }

    /// Transition the lifecycle state. Entering `Error` removes this
    /// sequence from its cohort's expected-completion count: the owning
    /// group's target drops by exactly one. That side effect lives here,
    /// not at call sites, so it cannot be forgotten. `Error` is only
    /// reachable from non-terminal states.
    pub fn set_state(&mut self, state: SequenceState, group: &mut SequenceGroup)
        requires
            state is Error ==> !(old(self).spec_state() is Done) && !(old(self).spec_state()
                is Error) && old(group).spec_target() >= 1,
        ensures
            final(self).spec_state() == state,
            final(self).spec_tokens() == old(self).spec_tokens(),
            final(self).spec_logprobs() == old(self).spec_logprobs(),
            final(self).eq_except_generation_state(*old(self)),
            final(self).prompt_timestamp == old(self).prompt_timestamp,
            final(self).total_sampling_time == old(self).total_sampling_time,
            old(self).wf() ==> final(self).wf(),
            state is Error ==> final(group).spec_target() == old(group).spec_target() - 1,
            !(state is Error) ==> *final(group) == *old(group),
            final(group).spec_choices() == old(group).spec_choices(),
            final(group).streaming_chunks == old(group).streaming_chunks,
            final(group).total_prompt_toks == old(group).total_prompt_toks,
            final(group).total_toks == old(group).total_toks,
            final(group).total_prompt_time == old(group).total_prompt_time,
            final(group).total_time == old(group).total_time,
            final(group).total_completion_time == old(group).total_completion_time,
            final(group).total_sampling_time == old(group).total_sampling_time,
            final(group).is_streaming == old(group).is_streaming,
    {
        if matches!(state, SequenceState::Error) {
            group.decrement_target();
        }
        self.state = state;
    }

    /// The stop decision for the newest sampled token, in fixed precedence
    /// order. Evaluated after `add_token`, so the generated count is the
    /// token history minus the prompt.
    pub fn is_done(&self, tok: u32, eos_tok: u32, max_model_len: usize) -> (r: Option<StopReason>)
        requires
            self.wf(),
        ensures
            r == stop_decision(
                (self.spec_tokens().len() - self.spec_prompt_len()) as nat,
                self.spec_stop_tokens(),
                self.spec_max_len(),
                tok,
                eos_tok,
                max_model_len,
            ),
    {
        if tok == eos_tok {
            Some(StopReason::Eos)
        } else if contains_tok(&self.stop_tokens, tok) {
            Some(StopReason::StopTok(tok))
        } else {
            let generated = self.tokens.len() - self.prompt_len;
            let hit_max_len = match self.max_len {
                Some(m) => generated == m,
                None => false,
            };
            if hit_max_len {
                Some(StopReason::Length(self.max_len.unwrap()))
            } else if generated == max_model_len {
                Some(StopReason::ModelLength(max_model_len))
            } else {
                None
            }
        }
    }

    pub fn logprobs(&self) -> (r: &[Logprobs])
        ensures
            r@ == self.spec_logprobs(),
    {
        self.logprobs.as_slice()
    }

    pub fn return_logprobs(&self) -> (r: bool)
        ensures
            r == self.spec_return_logprobs(),
    {
        self.return_logprobs
    }

    pub fn prompt_tokens(&self) -> (r: usize)
        ensures
            r == self.spec_prompt_len(),
    {
        self.prompt_len
    }

    pub fn timestamp(&self) -> (r: u128)
        ensures
            r == self.spec_timestamp(),
    {
        self.timestamp
    }

    pub fn prompt_timestamp(&self) -> (r: Option<u128>)
        ensures
            r == self.prompt_timestamp,
    {
        self.prompt_timestamp
    }

    pub fn get_response_index(&self) -> (r: usize)
        ensures
            r == self.spec_response_index(),
    {
        self.response_index
    }

    /// Finalize this sequence's choice into its cohort: append the choice
    /// and fold this sequence's counters into all six running totals,
    /// measured against `now`, the current millisecond timestamp.
    pub fn add_choice_to_group(&self, choice: Choice, now: u128, group: &mut SequenceGroup)
        requires
            self.wf(),
            self.prompt_timestamp is Some,
            self.spec_timestamp() <= self.prompt_timestamp.unwrap() <= now,
            old(group).wf(),
            old(group).total_prompt_toks + self.spec_prompt_len() <= usize::MAX,
            old(group).total_toks + self.spec_tokens().len() <= usize::MAX,
            old(group).total_prompt_time + (self.prompt_timestamp.unwrap()
                - self.spec_timestamp()) <= u128::MAX,
            old(group).total_completion_time + (now - self.prompt_timestamp.unwrap())
                <= u128::MAX,
            old(group).total_time + (now - self.spec_timestamp()) <= u128::MAX,
            old(group).total_sampling_time + self.total_sampling_time <= u128::MAX,
        ensures
            final(group).wf(),
            final(group).spec_choices() == old(group).spec_choices().push(choice),
            final(group).spec_target() == old(group).spec_target(),
            final(group).total_prompt_toks == old(group).total_prompt_toks
                + self.spec_prompt_len(),
            final(group).total_toks == old(group).total_toks + self.spec_tokens().len(),
            final(group).total_prompt_time == old(group).total_prompt_time
                + (self.prompt_timestamp.unwrap() - self.spec_timestamp()),
            final(group).total_completion_time == old(group).total_completion_time + (now
                - self.prompt_timestamp.unwrap()),
            final(group).total_time == old(group).total_time + (now - self.spec_timestamp()),
            final(group).total_sampling_time == old(group).total_sampling_time
                + self.total_sampling_time,
            final(group).streaming_chunks == old(group).streaming_chunks,
            final(group).is_streaming == old(group).is_streaming,
    {
        let prompt_ts = self.prompt_timestamp.unwrap();
        group.fold_in_choice(
            choice,
            self.prompt_len,
            self.tokens.len(),
            prompt_ts - self.timestamp,
            now - prompt_ts,
            now - self.timestamp,
            self.total_sampling_time,
        );
    }

    /// Buffer one streaming delta for the current decoding step.
    pub fn add_streaming_chunk_choice_to_group(&self, chunk: ChunkChoice, group: &mut SequenceGroup)
        requires
            old(group).streaming_chunks@.len() < usize::MAX,
        ensures
            final(group).streaming_chunks@ == old(group).streaming_chunks@.push(chunk),
            final(group).spec_choices() == old(group).spec_choices(),
            final(group).spec_target() == old(group).spec_target(),
            final(group).total_prompt_toks == old(group).total_prompt_toks,
            final(group).total_toks == old(group).total_toks,
            final(group).total_prompt_time == old(group).total_prompt_time,
            final(group).total_time == old(group).total_time,
            final(group).total_completion_time == old(group).total_completion_time,
            final(group).total_sampling_time == old(group).total_sampling_time,
            final(group).is_streaming == old(group).is_streaming,
    {
        group.push_streaming_chunk(chunk);
    }
}

} // verus!
