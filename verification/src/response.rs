//! The message shapes that the lifecycle core puts on a request's outbound
//! channel: one final aggregated response per request, and, for streaming
//! requests, one chunk response per decoding step.
//!
//! Rates in the usage record are ratios of token counts to wall times; the
//! record carries the integer counts and millisecond times that define
//! them, so a presentation layer can form the floating-point quotients
//! (tokens per second, undefined when a time is zero) without this core
//! holding any floating-point state.

use vstd::prelude::*;
use vstd::string::StringExecFns;

verus! {

/// The character of one decimal digit.
pub open spec fn spec_digit_char(d: nat) -> char {
    if d == 0 {
        '0'
    } else if d == 1 {
        '1'
    } else if d == 2 {
        '2'
    } else if d == 3 {
        '3'
    } else if d == 4 {
        '4'
    } else if d == 5 {
        '5'
    } else if d == 6 {
        '6'
    } else if d == 7 {
        '7'
    } else if d == 8 {
        '8'
    } else {
        '9'
    }
}

/// The decimal representation of a number: most significant digit first,
/// no leading zeros (except for zero itself).
pub open spec fn spec_decimal(n: nat) -> Seq<char>
    decreases n,
{
    if n < 10 {
        seq![spec_digit_char(n)]
    } else {
        spec_decimal(n / 10).push(spec_digit_char(n % 10))
    }
}

fn digit_str(d: u8) -> (r: &'static str)
    requires
        d < 10,
    ensures
        r@ =~= seq![spec_digit_char(d as nat)],
{
    proof {
        reveal_strlit("0");
        reveal_strlit("1");
        reveal_strlit("2");
        reveal_strlit("3");
        reveal_strlit("4");
        reveal_strlit("5");
        reveal_strlit("6");
        reveal_strlit("7");
        reveal_strlit("8");
        reveal_strlit("9");
    }
    match d {
        0 => "0",
        1 => "1",
        2 => "2",
        3 => "3",
        4 => "4",
        5 => "5",
        6 => "6",
        7 => "7",
        8 => "8",
        _ => "9",
    }
}

/// Format a number in decimal, the identifier form used in response ids.
pub fn usize_to_string(n: usize) -> (r: String)
    ensures
        r@ =~= spec_decimal(n as nat),
{
    if n == 0 {
        proof {
            reveal_strlit("0");
        }
        return "0".to_owned();
    }
    let mut m: usize = n;
    let mut s = String::new();
    while m > 0
        invariant
            m > 0 ==> spec_decimal(n as nat) =~= spec_decimal(m as nat) + s@,
            m == 0 ==> spec_decimal(n as nat) =~= s@,
        decreases m,
    {
        let d = (m % 10) as u8;
        let prefix = String::from_str(digit_str(d));
        s = prefix.concat(s.as_str());
        m = m / 10;
    }
    s
}

/// Aggregate usage of one finished request.
///
/// The four rates of the reporting interface are derived from these
/// fields, each as `tokens / time_ms * 1000`:
/// `avg_tok_per_sec` from `total_tokens` and `total_time_ms`,
/// `avg_prompt_tok_per_sec` from `prompt_tokens` and `total_prompt_time_ms`,
/// `avg_compl_tok_per_sec` from `completion_tokens` and `total_completion_time_ms`,
/// `avg_sample_tok_per_sec` from `total_tokens` and `total_sampling_time_ms`.
#[derive(Clone, Copy, Debug)]
pub struct ChatCompletionUsage {
    pub completion_tokens: usize,
    pub prompt_tokens: usize,
    pub total_tokens: usize,
    pub total_time_ms: u128,
    pub total_prompt_time_ms: u128,
    pub total_completion_time_ms: u128,
    pub total_sampling_time_ms: u128,
}

/// One finalized choice of a finished request.
#[derive(Clone, Debug)]
pub struct Choice {
    pub finish_reason: String,
    pub index: usize,
    pub text: String,
}

/// One choice's incremental output for one decoding step.
#[derive(Clone, Debug)]
pub struct ChunkChoice {
    pub delta: String,
    pub index: usize,
    pub finish_reason: Option<String>,
}

/// The final aggregated response for one request.
#[derive(Clone, Debug)]
pub struct ChatCompletionResponse {
    pub id: String,
    pub choices: Vec<Choice>,
    pub created: u128,
    pub model: String,
    pub system_fingerprint: String,
    pub object: String,
    pub usage: ChatCompletionUsage,
}

/// One streaming chunk, carrying up to one delta per choice of the cohort.
#[derive(Clone, Debug)]
pub struct ChatCompletionChunkResponse {
    pub id: String,
    pub choices: Vec<ChunkChoice>,
    pub created: u128,
    pub model: String,
    pub system_fingerprint: String,
    pub object: String,
}

/// A message on a request's outbound channel.
#[derive(Clone, Debug)]
pub enum Response {
    Done(ChatCompletionResponse),
    Chunk(ChatCompletionChunkResponse),
}

/// Why a dispatch failed: the only failure this core can meet when
/// sending is that the request's receiver is gone, which callers must
/// treat as fatal.
#[derive(Clone, Copy, Debug, PartialEq, Eq, Structural)]
pub enum DispatchError {
    ChannelClosed,
}

/// The fixed identifier tagging every streaming chunk.
pub fn system_fingerprint() -> (r: &'static str)
    ensures
        r@ == "local"@,
{
    "local"
}

} // verus!
