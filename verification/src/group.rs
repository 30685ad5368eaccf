//! The cohort of parallel "choices" answering one client request, its
//! running usage totals, and the dispatcher that emits the request's
//! responses.
//!
//! The done response is emitted when, and only when, the number of
//! finalized choices equals the target choice count. The target can only
//! decrease (one step per member sequence that errors out), finalized
//! choices are append-only, and the finalized count grows one at a time,
//! so along any run the dispatch condition holds at most once: exactly-once
//! delivery is a consequence of the contracts here, provided the owner
//! performs the dispatch check under the group's mutual-exclusion
//! discipline after every finalization.

use std::sync::mpsc::Sender;
use vstd::prelude::*;
use crate::channel;
use crate::response::{
    ChatCompletionChunkResponse, ChatCompletionResponse, ChatCompletionUsage, Choice, ChunkChoice,
    DispatchError, Response,
};
use crate::sequence::Sequence;
use vstd::string::StringExecFns;

verus! {

/// The dispatch condition of the done response: the finalized-choice
/// count has reached the (possibly reduced) target.
pub open spec fn should_dispatch(count: nat, target: nat) -> bool {
    count == target
}

/// Law: along a run whose finalized-choice counts grow strictly, the
/// dispatch condition holds at most once, so at most one done response is
/// emitted however many finalizations occur.
pub proof fn lemma_dispatch_at_most_once(counts: Seq<nat>, target: nat)
    requires
        forall|i: int, j: int| 0 <= i < j < counts.len() ==> counts[i] < counts[j],
    ensures
        forall|i: int, j: int|
            0 <= i < j < counts.len() && should_dispatch(counts[i], target) ==> !should_dispatch(
                counts[j],
                target,
            ),
{
    assert forall|i: int, j: int|
        0 <= i < j < counts.len() && should_dispatch(counts[i], target) implies !should_dispatch(
        counts[j],
        target,
    ) by {
        assert(counts[i] < counts[j]);
    }
}

/// Law: dropping one expected choice moves the dispatch point down by
/// exactly one: with one member errored out of a cohort of `target`, the
/// done response fires at `target - 1` genuine finalizations.
pub proof fn lemma_error_shifts_dispatch(target: nat, count: nat)
    requires
        target >= 1,
    ensures
        should_dispatch(count, (target - 1) as nat) <==> count + 1 == target,
{
}

/// The cohort answering one client request.
pub struct SequenceGroup {
    /// The target number of choices to return. Only ever decreased, by
    /// one per member sequence that transitions into `Error`.
    pub n_choices: usize,
    pub total_prompt_toks: usize,
    pub total_toks: usize,
    pub total_prompt_time: u128,
    pub total_time: u128,
    pub total_completion_time: u128,
    pub total_sampling_time: u128,
    pub choices: Vec<Choice>,
    pub streaming_chunks: Vec<ChunkChoice>,
    pub is_streaming: bool,
}

impl SequenceGroup {
    pub closed spec fn spec_target(self) -> nat {
        self.n_choices as nat
    }

    pub closed spec fn spec_choices(self) -> Seq<Choice> {
        self.choices@
    }

    /// The totals invariant: every finalized choice contributes at least
    /// as many total tokens as prompt tokens, so the completion-token
    /// count of the usage record never underflows.
    pub open spec fn wf(self) -> bool {
        self.total_toks >= self.total_prompt_toks
    }

    pub fn new(n_choices: usize, is_streaming: bool) -> (g: SequenceGroup)
        ensures
            g.wf(),
            g.spec_target() == n_choices,
            g.spec_choices().len() == 0,
            g.streaming_chunks@.len() == 0,
            g.is_streaming == is_streaming,
            g.total_prompt_toks == 0,
            g.total_toks == 0,
            g.total_prompt_time == 0,
            g.total_time == 0,
            g.total_completion_time == 0,
            g.total_sampling_time == 0,
    {
        SequenceGroup {
            n_choices,
            total_prompt_toks: 0,
            total_toks: 0,
            total_prompt_time: 0,
            total_time: 0,
            total_completion_time: 0,
            total_sampling_time: 0,
            choices: Vec::new(),
            streaming_chunks: Vec::new(),
            is_streaming,
        }
    }

    pub fn get_choices(&self) -> (r: &[Choice])
        ensures
            r@ == self.spec_choices(),
    {
        self.choices.as_slice()
    }

    /// One member sequence errored out: the cohort now expects one fewer
    /// finished choice. Called only from the sequence's error transition.
    pub(crate) fn decrement_target(&mut self)
        requires
            old(self).spec_target() >= 1,
        ensures
            final(self).spec_target() == old(self).spec_target() - 1,
            final(self).spec_choices() == old(self).spec_choices(),
            final(self).streaming_chunks == old(self).streaming_chunks,
            final(self).total_prompt_toks == old(self).total_prompt_toks,
            final(self).total_toks == old(self).total_toks,
            final(self).total_prompt_time == old(self).total_prompt_time,
            final(self).total_time == old(self).total_time,
            final(self).total_completion_time == old(self).total_completion_time,
            final(self).total_sampling_time == old(self).total_sampling_time,
            final(self).is_streaming == old(self).is_streaming,
            old(self).wf() ==> final(self).wf(),
    {
        self.n_choices = self.n_choices - 1;
    }

    /// Append a finalized choice and fold the completing sequence's
    /// counters into all six running totals.
    pub(crate) fn fold_in_choice(
        &mut self,
        choice: Choice,
        prompt_toks: usize,
        toks: usize,
        prompt_time: u128,
        completion_time: u128,
        total_time: u128,
        sampling_time: u128,
    )
        requires
            old(self).wf(),
            toks >= prompt_toks,
            old(self).total_prompt_toks + prompt_toks <= usize::MAX,
            old(self).total_toks + toks <= usize::MAX,
            old(self).total_prompt_time + prompt_time <= u128::MAX,
            old(self).total_completion_time + completion_time <= u128::MAX,
            old(self).total_time + total_time <= u128::MAX,
            old(self).total_sampling_time + sampling_time <= u128::MAX,
        ensures
            final(self).wf(),
            final(self).spec_choices() == old(self).spec_choices().push(choice),
            final(self).spec_target() == old(self).spec_target(),
            final(self).total_prompt_toks == old(self).total_prompt_toks + prompt_toks,
            final(self).total_toks == old(self).total_toks + toks,
            final(self).total_prompt_time == old(self).total_prompt_time + prompt_time,
            final(self).total_completion_time == old(self).total_completion_time
                + completion_time,
            final(self).total_time == old(self).total_time + total_time,
            final(self).total_sampling_time == old(self).total_sampling_time + sampling_time,
            final(self).streaming_chunks == old(self).streaming_chunks,
            final(self).is_streaming == old(self).is_streaming,
    {
        self.choices.push(choice);
        self.total_completion_time = self.total_completion_time + completion_time;
        self.total_prompt_time = self.total_prompt_time + prompt_time;
        self.total_time = self.total_time + total_time;
        self.total_prompt_toks = self.total_prompt_toks + prompt_toks;
        self.total_toks = self.total_toks + toks;
        self.total_sampling_time = self.total_sampling_time + sampling_time;
    }

    pub(crate) fn push_streaming_chunk(&mut self, chunk: ChunkChoice)
        requires
            old(self).streaming_chunks@.len() < usize::MAX,
        ensures
            final(self).streaming_chunks@ == old(self).streaming_chunks@.push(chunk),
            final(self).spec_choices() == old(self).spec_choices(),
            final(self).spec_target() == old(self).spec_target(),
            final(self).total_prompt_toks == old(self).total_prompt_toks,
            final(self).total_toks == old(self).total_toks,
            final(self).total_prompt_time == old(self).total_prompt_time,
            final(self).total_time == old(self).total_time,
            final(self).total_completion_time == old(self).total_completion_time,
            final(self).total_sampling_time == old(self).total_sampling_time,
            final(self).is_streaming == old(self).is_streaming,
    {
        self.streaming_chunks.push(chunk);
    }

    /// The aggregate usage snapshot: exact token counts and the
    /// millisecond times from which the reporting rates are derived.
    pub fn get_usage(&self) -> (u: ChatCompletionUsage)
        requires
            self.wf(),
        ensures
            u.completion_tokens == self.total_toks - self.total_prompt_toks,
            u.prompt_tokens == self.total_prompt_toks,
            u.total_tokens == self.total_toks,
            u.total_time_ms == self.total_time,
            u.total_prompt_time_ms == self.total_prompt_time,
            u.total_completion_time_ms == self.total_completion_time,
            u.total_sampling_time_ms == self.total_sampling_time,
    {
        ChatCompletionUsage {
            completion_tokens: self.total_toks - self.total_prompt_toks,
            prompt_tokens: self.total_prompt_toks,
            total_tokens: self.total_toks,
            total_time_ms: self.total_time,
            total_prompt_time_ms: self.total_prompt_time,
            total_completion_time_ms: self.total_completion_time,
            total_sampling_time_ms: self.total_sampling_time,
        }
    }

    /// Emit the done response if, and only if, the finalized-choice count
    /// has reached the target. Returns whether a response was dispatched;
    /// an error means a dispatch was due but the request's receiver is
    /// gone, which the caller must treat as fatal.
    pub fn maybe_send_done_response(
        &self,
        response: ChatCompletionResponse,
        sender: Sender<Response>,
    ) -> (r: Result<bool, DispatchError>)
        ensures
            r matches Ok(sent) ==> (sent <==> should_dispatch(
                self.spec_choices().len(),
                self.spec_target(),
            )),
            r is Err ==> should_dispatch(self.spec_choices().len(), self.spec_target()),
    {
        if self.choices.len() == self.n_choices {
            match channel::send_response(&sender, Response::Done(response)) {
                Ok(_) => Ok(true),
                Err(e) => Err(e),
            }
        } else {
            Ok(false)
        }
    }

    /// Flush the streaming buffer: once one delta per expected choice has
    /// been buffered for this decoding step, assemble one chunk response
    /// carrying all of them, send it, and clear the buffer. Returns
    /// whether a chunk was dispatched; an error means a dispatch was due
    /// but the request's receiver is gone.
    pub fn maybe_send_streaming_response(&mut self, seq: &Sequence, model: String) -> (r: Result<
        bool,
        DispatchError,
    >)
        ensures
            r matches Ok(sent) ==> (sent <==> (should_dispatch(
                old(self).streaming_chunks@.len(),
                old(self).spec_target(),
            ) && old(self).is_streaming)),
            r is Err ==> (should_dispatch(
                old(self).streaming_chunks@.len(),
                old(self).spec_target(),
            ) && old(self).is_streaming),
            (should_dispatch(old(self).streaming_chunks@.len(), old(self).spec_target()) && old(
                self,
            ).is_streaming) ==> final(self).streaming_chunks@.len() == 0,
            !(should_dispatch(old(self).streaming_chunks@.len(), old(self).spec_target()) && old(
                self,
            ).is_streaming) ==> final(self).streaming_chunks == old(self).streaming_chunks,
            final(self).spec_choices() == old(self).spec_choices(),
            final(self).spec_target() == old(self).spec_target(),
            final(self).total_prompt_toks == old(self).total_prompt_toks,
            final(self).total_toks == old(self).total_toks,
            final(self).total_prompt_time == old(self).total_prompt_time,
            final(self).total_time == old(self).total_time,
            final(self).total_completion_time == old(self).total_completion_time,
            final(self).total_sampling_time == old(self).total_sampling_time,
            final(self).is_streaming == old(self).is_streaming,
    {
        if self.streaming_chunks.len() == self.n_choices && self.is_streaming {
            let mut chunks: Vec<ChunkChoice> = Vec::new();
            core::mem::swap(&mut chunks, &mut self.streaming_chunks);
            let resp = build_chunk_response(seq, chunks, model);
            match channel::send_response(seq.responder_ref(), Response::Chunk(resp)) {
                Ok(_) => Ok(true),
                Err(e) => Err(e),
            }
        } else {
            Ok(false)
        }
    }
}

/// Assemble one streaming chunk response: the buffered deltas of one
/// decoding step, tagged with the sequence's identity, its creation
/// timestamp, the model name, the fixed system fingerprint, and the
/// object string that marks it as a chunk.
pub fn build_chunk_response(seq: &Sequence, chunks: Vec<ChunkChoice>, model: String) -> (r:
    ChatCompletionChunkResponse)
    ensures
        r.id@ =~= crate::response::spec_decimal(seq.spec_id() as nat),
        r.choices@ == chunks@,
        r.created == seq.spec_timestamp(),
        r.model == model,
        r.system_fingerprint@ == "local"@,
        r.object@ == "chat.completion.chunk"@,
{
    ChatCompletionChunkResponse {
        id: crate::response::usize_to_string(*seq.id()),
        choices: chunks,
        created: seq.timestamp(),
        model,
        system_fingerprint: String::from_str(crate::response::system_fingerprint()),
        object: String::from_str("chat.completion.chunk"),
    }
}

} // verus!
