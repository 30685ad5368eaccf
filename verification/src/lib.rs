//! Request/sequence lifecycle core of an LLM inference server.
//!
//! Tracks each in-flight generation stream ([`sequence::Sequence`]), decides
//! when generation must stop and why ([`sequence::StopReason`]), reconciles
//! the parallel "choices" of one client request into a single response
//! ([`group::SequenceGroup`]), and selects the execution strategy for
//! composing low-rank adapters into a frozen linear layer ([`adapter`]).

pub mod adapter;
pub mod channel;
pub mod group;
pub mod response;
pub mod sequence;
