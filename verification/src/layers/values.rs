//! What recorded work computes.
//!
//! A command takes what stands at some addresses and leaves a result at others.
//! Here that result is an expression: which weight was multiplied with what, and
//! which values a kernel was given in which role. Two programs that leave the same
//! expression compute the same thing, whatever buffers they use.
use vstd::prelude::*;

use crate::device::{
    CommandOf, CommandView, DeviceCall, DevicePtr, FfnComponent, Float32, LaunchView, PassContext,
};

verus! {

/// What an address holds.
#[allow(inconsistent_fields)]
pub enum Term {
    /// What stood at the address before.
    Before(DevicePtr),
    /// The `n` by `k` matrix at `weight` times a vector.
    Product { weight: DevicePtr, n: u32, k: u32, input: Box<Term> },
    /// As `Product`, with a quantised matrix and the kernels of an attention layer.
    QuantizedProduct {
        layer: usize,
        gemv_sw: bool,
        weight: DevicePtr,
        n: u32,
        k: u32,
        input: Box<Term>,
    },
    /// One product for each head, each with the next `n` by `k` matrix, with the
    /// part of the input that starts `input_stride` elements further on, to a part
    /// that starts `output_stride` elements further on.
    HeadProducts {
        weight: DevicePtr,
        n: u32,
        k: u32,
        heads: u32,
        input_stride: u32,
        output_stride: u32,
        input: Box<Term>,
    },
    /// The rotary part of each head, which follows its first `nope` elements.
    RotaryParts { heads: u32, head_dim: u32, nope: u32, rope: u32, input: Box<Term> },
    /// Heads of `stride` elements with a rotary part at `offset` in each.
    WithRotaryParts {
        heads: u32,
        rope: u32,
        offset: u32,
        stride: u32,
        query: Box<Term>,
        parts: Box<Term>,
    },
    /// Heads rotated by the positions of their tokens.
    Rotated {
        heads: u32,
        head_dim: u32,
        rotary_dim: u32,
        inv_freq: DevicePtr,
        theta: Float32,
        positions: DevicePtr,
        input: Box<Term>,
    },
    /// A cache entry: the latent, and the rotary key behind it or zeros.
    KeyEntry { kv_lora: u32, rope: u32, width: u32, latent: Box<Term>, key: Box<Term> },
    ValueEntry { kv_lora: u32, rope: u32, width: u32, latent: Box<Term> },
    /// A cache of an attention layer with an entry written to `slot`.
    Stored {
        layer: usize,
        slot: DevicePtr,
        width: u32,
        block_size: u32,
        captured: bool,
        pool: Box<Term>,
        entry: Box<Term>,
    },
    /// Attention over the whole of a paged cache.
    Attended {
        heads: u32,
        head_dim: u32,
        query_stride: u32,
        block_size: u32,
        scale: Float32,
        block_table: DevicePtr,
        seq_len: DevicePtr,
        max_blocks: u32,
        query: Box<Term>,
        keys: Box<Term>,
        values: Box<Term>,
    },
    /// Attention over listed tokens of a paged cache.
    AttendedTokens {
        count: u32,
        heads: u32,
        kv_lora: u32,
        block_size: u32,
        scale: Float32,
        block_table: DevicePtr,
        query: Box<Term>,
        keys: Box<Term>,
        values: Box<Term>,
        tokens: Box<Term>,
    },
    /// An index pool with the raw key and gate of a token filed at `slot`.
    Filed {
        slot: DevicePtr,
        dim: u32,
        block_size: u32,
        block_stride: u32,
        pool: Box<Term>,
        key: Box<Term>,
        gate: Box<Term>,
    },
    /// The `count` best of the complete pools of an index pool.
    BestPools {
        count: u32,
        candidates: u32,
        kpool: u32,
        heads: u32,
        dim: u32,
        block_size: u32,
        block_stride: u32,
        block_table: DevicePtr,
        positions: DevicePtr,
        query: Box<Term>,
        weights: Box<Term>,
        pool: Box<Term>,
    },
    /// The tokens of listed pools, and the last `tail` tokens of the sequence.
    TokensOf { count: u32, kpool: u32, seq_len: u32, tail: u32, pools: Box<Term> },
    /// A vector, normalised by its mean square and scaled.
    Norm { weight: DevicePtr, width: u32, eps: Float32, input: Box<Term> },
    /// A vector, normalised by mean and variance, scaled and shifted.
    LayerNorm { weight: DevicePtr, bias: DevicePtr, width: u32, eps: Float32, input: Box<Term> },
    /// What a causal convolution gives, and the tail that it keeps.
    Convolved(Convolution),
    ConvolutionTail(Convolution),
    /// What one step of the delta rule gives, and the state that it keeps.
    Recurred(Recurrence),
    RecurrentState(Recurrence),
    /// Each head normalised, scaled and gated.
    GatedNorm {
        weight: DevicePtr,
        heads: u32,
        head_dim: u32,
        eps: Float32,
        input: Box<Term>,
        gate: Box<Term>,
    },
    /// One hidden state in each of `streams` streams.
    Spread { streams: u32, width: u32, input: Box<Term> },
    /// The streams collapsed to one, and the two mixes for merging them again.
    Collapsed(Collapse),
    PostMix(Collapse),
    StreamMix(Collapse),
    /// The output of a block merged into the streams.
    Merged {
        streams: u32,
        width: u32,
        block: Box<Term>,
        residual: Box<Term>,
        post: Box<Term>,
        mix: Box<Term>,
    },
    /// The mean of the streams.
    Mean { streams: u32, width: u32, input: Box<Term> },
    /// What a feed-forward block makes of its input in a forward pass.
    FedForward { ffn: FfnComponent, pass: PassContext, input: Box<Term> },
    /// Nothing that is known.
    Unknown,
}

/// A causal convolution over query, key and value.
pub struct Convolution {
    pub weight: DevicePtr,
    pub channels: u32,
    pub taps: u32,
    pub tail: Box<Term>,
    pub query: Box<Term>,
    pub key: Box<Term>,
    pub value: Box<Term>,
}

/// One step of the delta rule.
pub struct Recurrence {
    pub a_log: DevicePtr,
    pub dt_bias: DevicePtr,
    pub heads: u32,
    pub head_dim: u32,
    pub bound: Option<Float32>,
    pub state: Box<Term>,
    pub qkv: Box<Term>,
    pub forget: Box<Term>,
    pub beta: Box<Term>,
}

/// The streams of a hyper-connection on their way into a block.
pub struct Collapse {
    pub weight: DevicePtr,
    pub scale: DevicePtr,
    pub base: DevicePtr,
    pub width: u32,
    pub streams: u32,
    pub iterations: u32,
    pub norm_eps: Float32,
    pub eps: Float32,
    pub input: Box<Term>,
}

pub type Memory = Map<DevicePtr, Term>;

/// Memory of which nothing is known.
pub open spec fn unknown() -> Memory {
    Map::new(|ptr: DevicePtr| true, |ptr: DevicePtr| Term::Unknown)
}

/// What stands at `ptr`.
pub open spec fn read(memory: Memory, ptr: DevicePtr) -> Term {
    if memory.contains_key(ptr) {
        memory[ptr]
    } else {
        Term::Before(ptr)
    }
}

/// Argument `i` of a launch, if it is an address.
pub open spec fn ptr_arg(launch: LaunchView, i: int) -> DevicePtr {
    launch.args[i]->Ptr_0
}

pub open spec fn u32_arg(launch: LaunchView, i: int) -> u32 {
    launch.args[i]->U32_0
}

pub open spec fn f32_arg(launch: LaunchView, i: int) -> Float32 {
    launch.args[i]->F32_0
}

/// The stream that a command runs on.
pub open spec fn stream_of(step: CommandView) -> Option<u64> {
    match step {
        CommandOf::Launch(launch) => Some(launch.stream),
        CommandOf::Call(call) => match call {
            DeviceCall::MemsetAsync { stream, .. } => Some(stream),
            DeviceCall::CopyD2dAsync { stream, .. } => Some(stream),
            DeviceCall::DenseGemv { stream, .. } => Some(stream),
            DeviceCall::Nvfp4Gemv { stream, .. } => Some(stream),
            DeviceCall::RmsNorm { stream, .. } => Some(stream),
            DeviceCall::Conv1dUpdate { stream, .. } => Some(stream),
            DeviceCall::MlaBatchedGemv { stream, .. } => Some(stream),
            DeviceCall::MlaQRopeScatter { stream, .. } => Some(stream),
            DeviceCall::RopeYarn { stream, .. } => Some(stream),
            DeviceCall::MlaQRopeWriteback { stream, .. } => Some(stream),
            DeviceCall::MlaCacheAssemble { stream, .. } => Some(stream),
            DeviceCall::WriteKvCache { stream, .. } => Some(stream),
            DeviceCall::PagedDecodeAttention { stream, .. } => Some(stream),
            DeviceCall::FfnForward { stream, .. } => Some(stream),
            _ => None,
        },
        _ => None,
    }
}

} // verus!
