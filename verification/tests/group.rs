use std::sync::mpsc::{channel, Receiver, Sender};

use seqcore::group::SequenceGroup;
use seqcore::response::{
    ChatCompletionResponse, Choice, ChunkChoice, DispatchError, Response,
};
use seqcore::sequence::{Sequence, SequenceState};

fn make_seq(tx: Sender<Response>, index: usize) -> Sequence {
    let mut seq =
        Sequence::new_waiting(vec![1, 2], index, 1000, 2, tx, vec![], None, false, false, index);
    seq.prompt_timestamp = Some(1400);
    seq.total_sampling_time = 25;
    seq
}

fn choice(index: usize) -> Choice {
    Choice { finish_reason: "stop".to_string(), index, text: "out".to_string() }
}

fn done_response(group: &SequenceGroup) -> ChatCompletionResponse {
    ChatCompletionResponse {
        id: "1".to_string(),
        choices: group.get_choices().to_vec(),
        created: 1000,
        model: "m".to_string(),
        system_fingerprint: "local".to_string(),
        object: "chat.completion".to_string(),
        usage: group.get_usage(),
    }
}

fn count_done(rx: &Receiver<Response>) -> usize {
    let mut n = 0;
    while let Ok(msg) = rx.try_recv() {
        if let Response::Done(_) = msg {
            n += 1;
        }
    }
    n
}

#[test]
fn third_choice_of_three_sends_exactly_one_done_response() {
    let (tx, rx) = channel();
    let mut group = SequenceGroup::new(3, false);
    for i in 0..3usize {
        let seq = make_seq(tx.clone(), i);
        seq.add_choice_to_group(choice(i), 2000, &mut group);
        let sent = group
            .maybe_send_done_response(done_response(&group), tx.clone())
            .unwrap();
        assert_eq!(sent, i == 2, "only the third finalization may dispatch");
    }
    assert_eq!(count_done(&rx), 1);
    assert_eq!(group.get_choices().len(), 3);

    // A fourth finalization, were it to occur, must not send a second
    // done response: the dispatch condition is equality with the target.
    let seq = make_seq(tx.clone(), 3);
    seq.add_choice_to_group(choice(3), 2500, &mut group);
    let sent = group
        .maybe_send_done_response(done_response(&group), tx)
        .unwrap();
    assert!(!sent);
    assert_eq!(count_done(&rx), 0);
}

#[test]
fn error_transition_reduces_target_to_two() {
    let (tx, rx) = channel();
    let mut group = SequenceGroup::new(3, false);

    let mut failing = make_seq(tx.clone(), 2);
    failing.set_state(SequenceState::RunningPrompt, &mut group);
    failing.set_state(SequenceState::Error, &mut group);

    for i in 0..2usize {
        let seq = make_seq(tx.clone(), i);
        seq.add_choice_to_group(choice(i), 2000, &mut group);
        let sent = group
            .maybe_send_done_response(done_response(&group), tx.clone())
            .unwrap();
        assert_eq!(sent, i == 1, "the reduced target is two finalizations");
    }
    assert_eq!(count_done(&rx), 1);
}

#[test]
fn usage_totals_and_completion_tokens() {
    let (tx, _rx) = channel();
    let mut group = SequenceGroup::new(1, false);
    let mut seq = make_seq(tx, 0);
    for t in 0..118u32 {
        seq.add_token(seqcore::sequence::Logprobs {
            token: t,
            logprob_bits: 0,
            bytes: String::new(),
        });
    }
    // 2 prompt tokens + 118 generated; creation at 1000 ms, prompt end at
    // 1400 ms, finalized at 3000 ms.
    seq.add_choice_to_group(choice(0), 3000, &mut group);
    let usage = group.get_usage();
    assert_eq!(usage.prompt_tokens, 2);
    assert_eq!(usage.total_tokens, 120);
    assert_eq!(usage.completion_tokens, 118);
    assert_eq!(usage.total_prompt_time_ms, 400);
    assert_eq!(usage.total_completion_time_ms, 1600);
    assert_eq!(usage.total_time_ms, 2000);
    assert_eq!(usage.total_sampling_time_ms, 25);
}

#[test]
fn usage_rate_formula_scenario() {
    // total_tokens = 120, prompt_tokens = 20, total_time_ms = 2000.
    let mut group = SequenceGroup::new(1, false);
    group.total_toks = 120;
    group.total_prompt_toks = 20;
    group.total_time = 2000;
    let usage = group.get_usage();
    assert_eq!(usage.completion_tokens, 100);
    let avg_tok_per_sec = (usage.total_tokens as f32 / usage.total_time_ms as f32) * 1000.0;
    assert_eq!(avg_tok_per_sec, 60.0);
    // A zero denominator is "not yet measurable", not an error.
    let unmeasured = (usage.prompt_tokens as f32 / usage.total_prompt_time_ms as f32) * 1000.0;
    assert!(!unmeasured.is_finite());
}

#[test]
fn streaming_flush_sends_one_chunk_per_step_and_clears_buffer() {
    let (tx, rx) = channel();
    let mut group = SequenceGroup::new(2, true);
    let seq = make_seq(tx, 0);

    let delta0 = ChunkChoice { delta: "he".to_string(), index: 0, finish_reason: None };
    seq.add_streaming_chunk_choice_to_group(delta0, &mut group);
    let sent = group
        .maybe_send_streaming_response(&seq, "m".to_string())
        .unwrap();
    assert!(!sent, "one delta of two is not a full step");

    let delta1 = ChunkChoice { delta: "llo".to_string(), index: 1, finish_reason: None };
    seq.add_streaming_chunk_choice_to_group(delta1, &mut group);
    let sent = group
        .maybe_send_streaming_response(&seq, "m".to_string())
        .unwrap();
    assert!(sent);
    assert!(group.streaming_chunks.is_empty(), "buffer is cleared after the flush");

    match rx.try_recv().unwrap() {
        Response::Chunk(chunk) => {
            assert_eq!(chunk.id, "0");
            assert_eq!(chunk.created, 1000);
            assert_eq!(chunk.model, "m");
            assert_eq!(chunk.system_fingerprint, "local");
            assert_eq!(chunk.object, "chat.completion.chunk");
            assert_eq!(chunk.choices.len(), 2);
            assert_eq!(chunk.choices[0].delta, "he");
            assert_eq!(chunk.choices[1].delta, "llo");
        }
        _ => panic!("expected a chunk response"),
    }
    assert!(rx.try_recv().is_err(), "exactly one chunk per step");
}

#[test]
fn non_streaming_group_never_flushes() {
    let (tx, rx) = channel();
    let mut group = SequenceGroup::new(1, false);
    let seq = make_seq(tx, 0);
    let delta = ChunkChoice { delta: "x".to_string(), index: 0, finish_reason: None };
    seq.add_streaming_chunk_choice_to_group(delta, &mut group);
    let sent = group
        .maybe_send_streaming_response(&seq, "m".to_string())
        .unwrap();
    assert!(!sent);
    assert!(rx.try_recv().is_err());
}

#[test]
fn closed_channel_reports_fatal_dispatch_error() {
    let (tx, rx) = channel();
    let mut group = SequenceGroup::new(1, false);
    let seq = make_seq(tx.clone(), 0);
    seq.add_choice_to_group(choice(0), 2000, &mut group);
    drop(rx);
    let err = group
        .maybe_send_done_response(done_response(&group), tx)
        .unwrap_err();
    assert_eq!(err, DispatchError::ChannelClosed);
}

#[test]
fn decimal_formatting_matches_std() {
    for n in [0usize, 1, 7, 9, 10, 42, 99, 100, 120, 90210, usize::MAX] {
        assert_eq!(seqcore::response::usize_to_string(n), format!("{n}"));
    }
}

#[test]
fn new_group_is_empty() {
    let group = SequenceGroup::new(4, true);
    assert!(group.get_choices().is_empty());
    assert!(group.streaming_chunks.is_empty());
    assert!(group.is_streaming);
    let usage = group.get_usage();
    assert_eq!(usage.total_tokens, 0);
    assert_eq!(usage.completion_tokens, 0);
    assert_eq!(usage.total_time_ms, 0);
}
