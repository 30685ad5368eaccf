use std::sync::mpsc::channel;
use candle_core::{DType, Device, Tensor};

use seqcore::group::SequenceGroup;
use seqcore::response::Response;
use seqcore::sequence::{Logprobs, Sequence, SequenceState, StopReason};

fn record(token: u32) -> Logprobs {
    Logprobs { token, logprob_bits: (-0.5f32).to_bits(), bytes: String::new() }
}

fn make_seq(
    prompt: Vec<u32>,
    stop_tokens: Vec<u32>,
    max_len: Option<usize>,
) -> (Sequence, std::sync::mpsc::Receiver<Response>) {
    let (tx, rx) = channel();
    let seq = Sequence::new_waiting(prompt, 7, 1000, 4, tx, stop_tokens, max_len, false, false, 0);
    (seq, rx)
}

#[test]
fn token_count_never_below_prompt_len() {
    let (mut seq, _rx) = make_seq(vec![1, 2, 3], vec![], None);
    assert_eq!(seq.len(), 3);
    assert_eq!(seq.prompt_tokens(), 3);
    assert!(seq.len() >= seq.prompt_tokens());
    for t in 10..20 {
        seq.add_token(record(t));
        assert!(seq.len() >= seq.prompt_tokens());
    }
    assert_eq!(seq.len(), 13);
    let mut group = SequenceGroup::new(1, false);
    seq.set_state(SequenceState::RunningPrompt, &mut group);
    assert!(seq.len() >= seq.prompt_tokens());
}

#[test]
fn eos_takes_precedence_over_stop_token() {
    // Token 42 is both the eos id and a configured stop token: Eos wins.
    let (mut seq, _rx) = make_seq(vec![1, 2], vec![42, 99], None);
    seq.add_token(record(42));
    assert_eq!(seq.is_done(42, 42, 4096), Some(StopReason::Eos));
}

#[test]
fn stop_token_detected() {
    let (mut seq, _rx) = make_seq(vec![1, 2], vec![42, 99], None);
    seq.add_token(record(99));
    assert_eq!(seq.is_done(99, 2, 4096), Some(StopReason::StopTok(99)));
}

#[test]
fn length_limit_fires_exactly_at_max_generated() {
    let (mut seq, _rx) = make_seq(vec![1, 2, 3], vec![], Some(5));
    for i in 0..4 {
        seq.add_token(record(100 + i));
        assert_eq!(seq.is_done(100 + i, 2, 4096), None, "stopped before the limit");
    }
    seq.add_token(record(104));
    assert_eq!(seq.is_done(104, 2, 4096), Some(StopReason::Length(5)));
}

#[test]
fn model_length_limit_fires_without_configured_max() {
    let (mut seq, _rx) = make_seq(vec![1], vec![], None);
    seq.add_token(record(5));
    seq.add_token(record(6));
    assert_eq!(seq.is_done(6, 99, 3), None);
    seq.add_token(record(7));
    assert_eq!(seq.is_done(7, 99, 3), Some(StopReason::ModelLength(3)));
}

#[test]
fn finish_reason_strings() {
    assert_eq!(StopReason::Eos.to_string(), "stop");
    assert_eq!(StopReason::StopTok(42).to_string(), "stop");
    assert_eq!(StopReason::Length(5).to_string(), "length");
    assert_eq!(StopReason::ModelLength(4096).to_string(), "length");
}

#[test]
fn lifecycle_accessors() {
    let (mut seq, _rx) = make_seq(vec![1], vec![], None);
    let mut group = SequenceGroup::new(1, false);
    assert!(seq.is_waiting());
    assert!(!seq.is_running());
    seq.set_state(SequenceState::RunningPrompt, &mut group);
    assert!(seq.is_prompt());
    assert!(seq.is_running());
    assert!(!seq.is_completion());
    seq.set_state(SequenceState::RunningCompletion, &mut group);
    assert!(seq.is_completion());
    assert!(seq.is_running());
    seq.set_state(SequenceState::Done(StopReason::Eos), &mut group);
    assert!(!seq.is_running());
    assert!(!seq.is_waiting());
}

#[test]
fn metadata_accessors() {
    let (mut seq, _rx) = make_seq(vec![8, 9], vec![], None);
    assert_eq!(*seq.id(), 7);
    assert_eq!(seq.timestamp(), 1000);
    assert_eq!(seq.prompt_timestamp(), None);
    assert_eq!(seq.get_response_index(), 0);
    assert!(!seq.return_logprobs());
    assert_eq!(seq.get_toks(), &[8, 9]);
    seq.add_token(record(10));
    assert_eq!(seq.get_toks(), &[8, 9, 10]);
    assert_eq!(seq.logprobs().len(), 1);
    assert_eq!(seq.logprobs()[0].token, 10);
}

#[test]
fn cache_slots_per_layer() {
    let (tx, _rx) = channel();
    let mut seq =
        Sequence::new_waiting(vec![1], 1, 0, 3, tx, vec![], None, false, true, 0);
    assert!(seq.is_xlora());
    assert_eq!(seq.cache().len(), 3);
    assert_eq!(seq.xlora_cache().len(), 3);
    assert!(seq.cache().iter().all(|slot| slot.is_none()));

    let t = Tensor::zeros((2, 2), DType::F32, &Device::Cpu).unwrap();
    seq.cache()[1] = Some((t.clone(), t.clone()));
    assert!(seq.cache()[1].is_some());
    assert!(seq.cache()[0].is_none());

    assert!(seq.scaling_cache().is_none());
    *seq.scaling_cache() = Some(t);
    assert!(seq.scaling_cache().is_some());
}

#[test]
fn non_adapter_sequence_has_no_xlora_cache() {
    let (seq, _rx) = make_seq(vec![1], vec![], None);
    assert!(!seq.is_xlora());
}

#[test]
fn responder_clone_reaches_same_receiver() {
    let (mut seq, rx) = make_seq(vec![1], vec![], None);
    let mut group = SequenceGroup::new(2, true);
    seq.prompt_timestamp = Some(1500);
    let sender = seq.responder();
    let response = seqcore::response::ChatCompletionResponse {
        id: "7".to_string(),
        choices: vec![],
        created: 1000,
        model: "m".to_string(),
        system_fingerprint: "local".to_string(),
        object: "chat.completion".to_string(),
        usage: group.get_usage(),
    };
    sender.send(Response::Done(response)).unwrap();
    match rx.recv().unwrap() {
        Response::Done(r) => assert_eq!(r.id, "7"),
        _ => panic!("expected a done response"),
    }
}
