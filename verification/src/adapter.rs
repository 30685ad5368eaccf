//! Strategy selection for composing low-rank adapters into a frozen linear
//! layer.
//!
//! A layer may carry several named adapters. When every adapter agrees on
//! its whole configuration tuple, all adapter matrices can be stacked and
//! applied in one batched matrix multiply; otherwise each adapter must be
//! applied separately, in configuration order. The choice is made once, at
//! construction time, and a per-call plan then decides between bypassing
//! the adapters entirely (a scaling pass with weight zero), the batched
//! path, and the per-adapter path.
//!
//! Floating-point configuration constants (the scale numerator and the
//! optional dropout probability) are carried as their IEEE 754 bit
//! patterns: agreement between adapters is bit-for-bit agreement of the
//! configured constants, and the zero test of the scaling-pass override
//! recognises exactly the two bit patterns that compare numerically equal
//! to zero.

use vstd::prelude::*;

verus! {

/// The configuration tuple of one adapter of one layer: the fields that
/// decide whether the batched execution strategy applies.
#[derive(Clone, Copy, Debug)]
pub struct AdapterParams {
    /// Rank of the low-rank decomposition (rows of A, columns of B).
    pub rank: usize,
    /// Input width of the frozen base layer (columns of A).
    pub in_features: usize,
    /// Output width of the frozen base layer (rows of B).
    pub out_features: usize,
    /// Bit pattern of the scale numerator (`alpha`).
    pub alpha_bits: u64,
    /// Bit pattern of the dropout probability, if dropout is configured.
    pub dropout_bits: Option<u64>,
}

/// How a layer's adapters are executed: one batched matrix multiply over
/// stacked adapter matrices, or one pass per adapter in configuration
/// order. Fixed at construction time, never re-evaluated per call.
#[derive(Clone, Copy, Debug)]
pub enum ComposeStrategy {
    Batched,
    PerAdapter,
}

/// What one forward call does, decided from the strategy, the
/// scaling-pass override and the shape of the scalings signal.
#[derive(Clone, Copy, Debug)]
pub enum ForwardPlan {
    /// Return the frozen base layer's output unchanged.
    BaseOnly,
    /// Accumulate each adapter's contribution separately.
    PerAdapter,
    /// One batched multiply over the stacked adapter matrices.
    Batched,
}

/// Every adapter agrees with the first on the whole configuration tuple
/// (vacuously true of an empty configuration).
pub open spec fn all_params_same(params: Seq<AdapterParams>) -> bool {
    forall|i: int| 0 <= i < params.len() ==> #[trigger] params[i] == params[0]
}

/// The two IEEE 754 doubles that compare numerically equal to zero:
/// positive and negative zero.
pub open spec fn f64_bits_are_zero(bits: u64) -> bool {
    bits == 0u64 || bits == 0x8000_0000_0000_0000u64
}

/// A scaling-pass override is present and numerically equal to zero, so
/// the adapters are bypassed entirely.
pub open spec fn is_adapter_bypass(scaling_pass_bits: Option<u64>) -> bool {
    scaling_pass_bits matches Some(b) && f64_bits_are_zero(b)
}

fn params_eq(a: &AdapterParams, b: &AdapterParams) -> (r: bool)
    ensures
        r <==> *a == *b,
{
    let dropout_same = match (a.dropout_bits, b.dropout_bits) {
        (None, None) => true,
        (Some(x), Some(y)) => x == y,
        _ => false,
    };
    a.rank == b.rank && a.in_features == b.in_features && a.out_features == b.out_features
        && a.alpha_bits == b.alpha_bits && dropout_same
}

impl ComposeStrategy {
    /// Construction-time choice: the batched strategy exactly when every
    /// adapter shares an identical configuration tuple.
    pub fn select(params: &Vec<AdapterParams>) -> (s: ComposeStrategy)
        ensures
            s is Batched <==> all_params_same(params@),
    {
        let n = params.len();
        if n == 0 {
            return ComposeStrategy::Batched;
        }
        let mut i: usize = 1;
        while i < n
            invariant
                1 <= i <= n,
                n == params@.len(),
                forall|k: int| 0 <= k < i && k < n ==> #[trigger] params@[k] == params@[0],
            decreases n - i,
        {
            if !params_eq(&params[i], &params[0]) {
                return ComposeStrategy::PerAdapter;
            }
            i = i + 1;
        }
        ComposeStrategy::Batched
    }
}

/// The zero test of the scaling-pass override: true exactly when an
/// override is present and is numerically zero (either sign).
pub fn is_zero_scaling_pass(scaling_pass_bits: Option<u64>) -> (r: bool)
    ensures
        r <==> is_adapter_bypass(scaling_pass_bits),
{
    match scaling_pass_bits {
        Some(bits) => bits == 0u64 || bits == 0x8000_0000_0000_0000u64,
        None => false,
    }
}

/// Decide what one forward call does.
///
/// `scalings_seq_len` is the middle extent of the three-dimensional
/// scalings signal after restriction to this layer; the batched multiply
/// only handles a single active token position per call, so any other
/// extent forces the per-adapter path even under the batched strategy.
pub fn plan_forward(
    strategy: &ComposeStrategy,
    scaling_pass_bits: Option<u64>,
    scalings_seq_len: usize,
) -> (p: ForwardPlan)
    ensures
        p is BaseOnly <==> is_adapter_bypass(scaling_pass_bits),
        !is_adapter_bypass(scaling_pass_bits) ==> ((p is PerAdapter) <==> (*strategy is PerAdapter
            || scalings_seq_len != 1)),
        !is_adapter_bypass(scaling_pass_bits) ==> ((p is Batched) <==> (*strategy is Batched
            && scalings_seq_len == 1)),
{
    if is_zero_scaling_pass(scaling_pass_bits) {
        ForwardPlan::BaseOnly
    } else {
        match strategy {
            ComposeStrategy::PerAdapter => ForwardPlan::PerAdapter,
            ComposeStrategy::Batched => {
                if scalings_seq_len != 1 {
                    ForwardPlan::PerAdapter
                } else {
                    ForwardPlan::Batched
                }
            },
        }
    }
}

/// Law: adapters that agree pairwise on every configuration field select
/// the batched strategy, and conversely.
pub proof fn lemma_batched_iff_pairwise_identical(params: Seq<AdapterParams>)
    ensures
        all_params_same(params) <==> (forall|i: int, j: int|
            0 <= i < params.len() && 0 <= j < params.len() ==> params[i] == params[j]),
{
    if all_params_same(params) {
        assert forall|i: int, j: int|
            0 <= i < params.len() && 0 <= j < params.len() implies params[i] == params[j] by {
            assert(params[i] == params[0]);
            assert(params[j] == params[0]);
        }
    }
}

/// Law: a scaling-pass override numerically equal to zero bypasses the
/// adapters whatever the strategy and whatever the call shape.
pub proof fn lemma_zero_pass_always_bypasses(bits: u64)
    requires
        f64_bits_are_zero(bits),
    ensures
        is_adapter_bypass(Some(bits)),
{
}

} // verus!
