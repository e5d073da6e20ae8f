//! What a decode step with latent attention computes.
use vstd::prelude::*;

use crate::device::{
    call, dim3, CommandOf, CommandView, DenseWeight, DeviceCall, DevicePtr, Float32, LaunchView,
    QuantizedWeight,
};
use crate::layers::index_selection::{selection, IndexSelection};
use crate::layers::mla_decode::{DecodeMlaArgs, KvLayerPools, Qwen3AttentionLayer};
use crate::layers::mla_laws::{is_mark, law_profiling_only_watches, unmarked, unprofiled};
use crate::layers::values::{f32_arg, ptr_arg, read, stream_of, u32_arg, unknown, Memory, Term};
use crate::layers::ForwardContext;
use crate::ops::law_groups_cover;
use crate::weight_map::Glm5IndexerWeights;

verus! {

/// One millionth, as a single-precision float.
pub const EPSILON: u32 = 0x3586_37bd;

/// How many blocks of 256 threads cover `count`.
pub open spec fn covered_by(blocks: u32, count: int) -> bool {
    (blocks - 1) * 256 < count <= blocks * 256
}

/// What a launch of one of the kernels of `layer` leaves behind. A list of no pools
/// is not read.
pub open spec fn launch_effect(
    layer: Qwen3AttentionLayer,
    memory: Memory,
    launch: LaunchView,
) -> Memory {
    let at = |i: int| Box::new(read(memory, ptr_arg(launch, i)));
    if launch.block != dim3(256, 1, 1) {
        unknown()
    } else if launch.kernel == layer.glm_index_norm_k {
        if launch.args.len() == 6 && launch.grid == dim3(1, 1, 1) {
            memory.insert(
                ptr_arg(launch, 3),
                Term::LayerNorm {
                    weight: ptr_arg(launch, 1),
                    bias: ptr_arg(launch, 2),
                    width: u32_arg(launch, 4),
                    eps: f32_arg(launch, 5),
                    input: at(0),
                },
            )
        } else {
            unknown()
        }
    } else if launch.kernel == layer.glm_index_write_k {
        if launch.args.len() == 8 && launch.grid.y == 1 && launch.grid.z == 1 && covered_by(
            launch.grid.x,
            2 * u32_arg(launch, 5),
        ) && u32_arg(launch, 4) == 1 {
            memory.insert(
                ptr_arg(launch, 3),
                Term::Filed {
                    slot: ptr_arg(launch, 2),
                    dim: u32_arg(launch, 5),
                    block_size: u32_arg(launch, 6),
                    block_stride: u32_arg(launch, 7),
                    pool: at(3),
                    key: at(0),
                    gate: at(1),
                },
            )
        } else {
            unknown()
        }
    } else if launch.kernel == layer.glm_index_select_k {
        if launch.args.len() == 13 && launch.grid == dim3(1, 1, 1) && launch.shared_mem == u32_arg(
            launch,
            12,
        ) * 8 {
            memory.insert(
                ptr_arg(launch, 5),
                Term::BestPools {
                    count: u32_arg(launch, 12),
                    candidates: u32_arg(launch, 6),
                    kpool: u32_arg(launch, 11),
                    heads: u32_arg(launch, 9),
                    dim: u32_arg(launch, 10),
                    block_size: u32_arg(launch, 7),
                    block_stride: u32_arg(launch, 8),
                    block_table: ptr_arg(launch, 4),
                    positions: ptr_arg(launch, 3),
                    query: at(0),
                    weights: at(2),
                    pool: at(1),
                },
            )
        } else {
            unknown()
        }
    } else if launch.kernel == layer.glm_index_expand_k {
        if launch.args.len() == 6 && launch.grid.y == 1 && launch.grid.z == 1 && covered_by(
            launch.grid.x,
            u32_arg(launch, 2) * u32_arg(launch, 3) + u32_arg(launch, 5),
        ) {
            let pools = if u32_arg(launch, 2) == 0 {
                Box::new(Term::Unknown)
            } else {
                at(0)
            };
            memory.insert(
                ptr_arg(launch, 1),
                Term::TokensOf {
                    count: u32_arg(launch, 2),
                    kpool: u32_arg(launch, 3),
                    seq_len: u32_arg(launch, 4),
                    tail: u32_arg(launch, 5),
                    pools,
                },
            )
        } else {
            unknown()
        }
    } else if launch.kernel == layer.glm_selected_mla_k && launch.args.len() == 11 && launch.grid
        == dim3(u32_arg(launch, 9), 1, 1) {
        memory.insert(
            ptr_arg(launch, 5),
            Term::AttendedTokens {
                count: u32_arg(launch, 6),
                heads: u32_arg(launch, 9),
                kv_lora: u32_arg(launch, 8),
                block_size: u32_arg(launch, 7),
                scale: f32_arg(launch, 10),
                block_table: ptr_arg(launch, 3),
                query: at(0),
                keys: at(1),
                values: at(2),
                tokens: at(4),
            },
        )
    } else {
        unknown()
    }
}

/// What a runtime operation with the kernels of `layer` leaves behind. A rotary
/// part of width zero is neither read nor written.
pub open spec fn call_effect(
    layer: Qwen3AttentionLayer,
    memory: Memory,
    call: DeviceCall,
) -> Memory {
    let at = |ptr: DevicePtr| Box::new(read(memory, ptr));
    match call {
        DeviceCall::DenseGemv { kernel, input, weight, output, n, k, .. } => {
            if kernel == layer.dense_gemv_k {
                memory.insert(
                    output,
                    Term::Product { weight: weight.weight, n, k, input: at(input) },
                )
            } else {
                unknown()
            }
        },
        DeviceCall::Nvfp4Gemv { layer: number, gemv_sw, input, weight, output, n, k, .. } => {
            memory.insert(
                output,
                Term::QuantizedProduct {
                    layer: number,
                    gemv_sw,
                    weight: weight.weight,
                    n,
                    k,
                    input: at(input),
                },
            )
        },
        DeviceCall::RmsNorm { kernel, input, weight, output, rows, width, eps, .. } => {
            if kernel == layer.rms_norm_w_k && rows == 1 {
                memory.insert(
                    output,
                    Term::Norm { weight: weight.weight, width, eps, input: at(input) },
                )
            } else {
                unknown()
            }
        },
        DeviceCall::MlaBatchedGemv {
            kernel,
            input,
            weight,
            output,
            n,
            k,
            heads,
            input_stride,
            output_stride,
            ..
        } => {
            if kernel == layer.mla_batched_gemv_k {
                memory.insert(
                    output,
                    Term::HeadProducts {
                        weight,
                        n,
                        k,
                        heads,
                        input_stride,
                        output_stride,
                        input: at(input),
                    },
                )
            } else {
                unknown()
            }
        },
        DeviceCall::MlaQRopeScatter {
            kernel,
            q_full,
            q_absorbed,
            q_rope,
            heads,
            head_dim,
            nope,
            rope,
            kv_lora,
            cache_dim,
            ..
        } => {
            let parts = Term::RotaryParts { heads, head_dim, nope, rope, input: at(q_full) };
            if kernel != layer.mla_q_rope_scatter_k {
                unknown()
            } else if rope == 0 {
                memory
            } else {
                memory.insert(q_rope, parts).insert(
                    q_absorbed,
                    Term::WithRotaryParts {
                        heads,
                        rope,
                        offset: kv_lora,
                        stride: cache_dim,
                        query: at(q_absorbed),
                        parts: Box::new(parts),
                    },
                )
            }
        },
        DeviceCall::RopeYarn {
            kernel,
            q,
            k,
            positions,
            rows,
            q_heads,
            k_heads,
            head_dim,
            rotary_dim,
            inv_freq,
            theta,
            ..
        } => {
            if kernel == layer.rope_yarn_k && rows == 1 {
                memory.insert(
                    q,
                    Term::Rotated {
                        heads: q_heads,
                        head_dim,
                        rotary_dim,
                        inv_freq,
                        theta,
                        positions,
                        input: at(q),
                    },
                ).insert(
                    k,
                    Term::Rotated {
                        heads: k_heads,
                        head_dim,
                        rotary_dim,
                        inv_freq,
                        theta,
                        positions,
                        input: at(k),
                    },
                )
            } else {
                unknown()
            }
        },
        DeviceCall::MlaQRopeWriteback {
            kernel,
            q_rope,
            q_absorbed,
            heads,
            rope,
            kv_lora,
            cache_dim,
            ..
        } => {
            if kernel == layer.mla_q_rope_writeback_k {
                memory.insert(
                    q_absorbed,
                    Term::WithRotaryParts {
                        heads,
                        rope,
                        offset: kv_lora,
                        stride: cache_dim,
                        query: at(q_absorbed),
                        parts: at(q_rope),
                    },
                )
            } else {
                unknown()
            }
        },
        DeviceCall::MlaCacheAssemble {
            kernel,
            kv_latent,
            k_rope,
            k_entry,
            v_entry,
            kv_lora,
            rope,
            cache_dim,
            ..
        } => {
            let key = if rope == 0 {
                Box::new(Term::Unknown)
            } else {
                at(k_rope)
            };
            if kernel == layer.mla_cache_assemble_k {
                memory.insert(
                    k_entry,
                    Term::KeyEntry { kv_lora, rope, width: cache_dim, latent: at(kv_latent), key },
                ).insert(
                    v_entry,
                    Term::ValueEntry { kv_lora, rope, width: cache_dim, latent: at(kv_latent) },
                )
            } else {
                unknown()
            }
        },
        DeviceCall::WriteKvCache {
            layer: number,
            k_pool,
            v_pool,
            k_entry,
            v_entry,
            slot,
            rows,
            kv_heads,
            head_dim,
            block_size,
            k_stride,
            v_stride,
            graph_capture,
            ..
        } => {
            let stored = |pool: DevicePtr, entry: DevicePtr|
                Term::Stored {
                    layer: number,
                    slot,
                    width: head_dim,
                    block_size,
                    captured: graph_capture,
                    pool: at(pool),
                    entry: at(entry),
                };
            if rows == 1 && kv_heads == 1 && k_stride == head_dim && v_stride == head_dim {
                memory.insert(k_pool, stored(k_pool, k_entry)).insert(
                    v_pool,
                    stored(v_pool, v_entry),
                )
            } else {
                unknown()
            }
        },
        DeviceCall::PagedDecodeAttention {
            kernel,
            q,
            k_pool,
            v_pool,
            output,
            block_table,
            seq_len,
            max_blocks_per_seq,
            rows,
            q_heads,
            kv_heads,
            head_dim,
            block_size,
            scale,
            q_stride,
            window,
            ..
        } => {
            if kernel == layer.paged_decode_mla_k && rows == 1 && kv_heads == 1 && window == 0 {
                memory.insert(
                    output,
                    Term::Attended {
                        heads: q_heads,
                        head_dim,
                        query_stride: q_stride,
                        block_size,
                        scale,
                        block_table,
                        seq_len,
                        max_blocks: max_blocks_per_seq,
                        query: at(q),
                        keys: at(k_pool),
                        values: at(v_pool),
                    },
                )
            } else {
                unknown()
            }
        },
        _ => unknown(),
    }
}

/// What a command on `stream` leaves behind. Section marks leave nothing.
pub open spec fn effect(
    layer: Qwen3AttentionLayer,
    stream: u64,
    memory: Memory,
    step: CommandView,
) -> Memory {
    if is_mark(step) {
        memory
    } else if stream_of(step) != Some(stream) {
        unknown()
    } else {
        match step {
            CommandOf::Launch(launch) => launch_effect(layer, memory, launch),
            CommandOf::Call(call) => call_effect(layer, memory, call),
            _ => unknown(),
        }
    }
}

/// What `steps` leave behind on `stream`.
pub open spec fn after(
    layer: Qwen3AttentionLayer,
    stream: u64,
    memory: Memory,
    steps: Seq<CommandView>,
) -> Memory
    decreases steps.len(),
{
    if steps.len() == 0 {
        memory
    } else {
        effect(layer, stream, after(layer, stream, memory, steps.drop_last()), steps.last())
    }
}

proof fn lemma_after_one(
    layer: Qwen3AttentionLayer,
    stream: u64,
    memory: Memory,
    steps: Seq<CommandView>,
    i: int,
)
    requires
        0 <= i < steps.len(),
    ensures
        after(layer, stream, memory, steps.take(i + 1)) == effect(
            layer,
            stream,
            after(layer, stream, memory, steps.take(i)),
            steps[i],
        ),
{
    assert(steps.take(i + 1).drop_last() =~= steps.take(i));
}

proof fn lemma_after_add(
    layer: Qwen3AttentionLayer,
    stream: u64,
    memory: Memory,
    first: Seq<CommandView>,
    second: Seq<CommandView>,
)
    ensures
        after(layer, stream, memory, first + second) == after(
            layer,
            stream,
            after(layer, stream, memory, first),
            second,
        ),
    decreases second.len(),
{
    if second.len() == 0 {
        assert(first + second =~= first);
    } else {
        lemma_after_add(layer, stream, memory, first, second.drop_last());
        assert((first + second).drop_last() =~= first + second.drop_last());
    }
}

/// Section marks leave nothing behind.
proof fn lemma_after_unmarked(
    layer: Qwen3AttentionLayer,
    stream: u64,
    memory: Memory,
    steps: Seq<CommandView>,
)
    ensures
        after(layer, stream, memory, unmarked(steps)) == after(layer, stream, memory, steps),
    decreases steps.len(),
{
    reveal(Seq::filter);
    if steps.len() > 0 {
        let rest = steps.drop_last();
        lemma_after_unmarked(layer, stream, memory, rest);
        let kept = unmarked(rest);
        if !is_mark(steps.last()) {
            assert(unmarked(steps) == kept.push(steps.last()));
            assert(kept.push(steps.last()).drop_last() =~= kept);
        } else {
            assert(unmarked(steps) == kept);
        }
    }
}

/// A projection of `input`, with the quantised weight where there is one.
pub open spec fn projected(
    layer: Qwen3AttentionLayer,
    ctx: ForwardContext,
    quantized: Option<QuantizedWeight>,
    dense: DenseWeight,
    n: u32,
    k: u32,
    input: Term,
) -> Term {
    match quantized {
        Some(weight) => Term::QuantizedProduct {
            layer: layer.attn_layer_idx,
            gemv_sw: ctx.gemv_sw,
            weight: weight.weight,
            n,
            k,
            input: Box::new(input),
        },
        None => Term::Product { weight: dense.weight, n, k, input: Box::new(input) },
    }
}

/// The normalised query latent of a token with normalised hidden state `x`.
pub open spec fn query_latent(
    layer: Qwen3AttentionLayer,
    ctx: ForwardContext,
    args: DecodeMlaArgs,
    x: Term,
) -> Term {
    let mla = layer.mla->0;
    let rank = mla.q_lora_rank as u32;
    Term::Norm {
        weight: mla.q_a_norm.weight,
        width: rank,
        eps: args.eps,
        input: Box::new(projected(layer, ctx, mla.wq_a_nvfp4, mla.wq_a, rank, args.h, x)),
    }
}

/// The query of every head.
pub open spec fn expanded_query(
    layer: Qwen3AttentionLayer,
    ctx: ForwardContext,
    args: DecodeMlaArgs,
    x: Term,
) -> Term {
    let mla = layer.mla->0;
    projected(
        layer,
        ctx,
        mla.wq_b_nvfp4,
        mla.wq_b,
        args.q_dim,
        mla.q_lora_rank as u32,
        query_latent(layer, ctx, args, x),
    )
}

/// The width of a cache entry.
pub open spec fn entry_width(layer: Qwen3AttentionLayer) -> u32 {
    ((layer.mla->0.kv_lora_rank as u32) + (layer.mla->0.rope as u32)) as u32
}

/// The rotary parts of the query.
pub open spec fn query_parts(
    layer: Qwen3AttentionLayer,
    ctx: ForwardContext,
    args: DecodeMlaArgs,
    x: Term,
) -> Term {
    let mla = layer.mla->0;
    Term::RotaryParts {
        heads: args.nq,
        head_dim: args.hd,
        nope: mla.nope as u32,
        rope: mla.rope as u32,
        input: Box::new(expanded_query(layer, ctx, args, x)),
    }
}

/// `query` with `parts` as the rotary part of each head.
pub open spec fn with_parts(
    layer: Qwen3AttentionLayer,
    args: DecodeMlaArgs,
    query: Term,
    parts: Term,
) -> Term {
    let mla = layer.mla->0;
    Term::WithRotaryParts {
        heads: args.nq,
        rope: mla.rope as u32,
        offset: mla.kv_lora_rank as u32,
        stride: entry_width(layer),
        query: Box::new(query),
        parts: Box::new(parts),
    }
}

/// The query in the space of the latent: each head multiplied with its own key
/// up-projection, and its rotary part, not rotated yet, behind it.
pub open spec fn absorbed_query(
    layer: Qwen3AttentionLayer,
    ctx: ForwardContext,
    args: DecodeMlaArgs,
    x: Term,
) -> Term {
    let mla = layer.mla->0;
    let absorbed = Term::HeadProducts {
        weight: mla.w_uk_t.weight,
        n: mla.kv_lora_rank as u32,
        k: mla.nope as u32,
        heads: args.nq,
        input_stride: args.hd,
        output_stride: entry_width(layer),
        input: Box::new(expanded_query(layer, ctx, args, x)),
    };
    if mla.rope as u32 == 0 {
        absorbed
    } else {
        with_parts(layer, args, absorbed, query_parts(layer, ctx, args, x))
    }
}

/// `heads` rotary parts, rotated by the position of the token.
pub open spec fn rotated(
    layer: Qwen3AttentionLayer,
    ctx: ForwardContext,
    heads: u32,
    input: Term,
) -> Term {
    let mla = layer.mla->0;
    Term::Rotated {
        heads,
        head_dim: mla.rope as u32,
        rotary_dim: mla.rope as u32,
        inv_freq: mla.yarn_inv_freq,
        theta: Float32::Rounded(ctx.config.rope_theta),
        positions: ctx.attn_metadata->0.positions,
        input: Box::new(input),
    }
}

/// The query that attends.
pub open spec fn attending_query(
    layer: Qwen3AttentionLayer,
    ctx: ForwardContext,
    args: DecodeMlaArgs,
    x: Term,
) -> Term {
    let absorbed = absorbed_query(layer, ctx, args, x);
    if layer.mla->0.rope as u32 == 0 {
        absorbed
    } else {
        with_parts(
            layer,
            args,
            absorbed,
            rotated(layer, ctx, args.nq, query_parts(layer, ctx, args, x)),
        )
    }
}

/// The normalised key/value latent of the token.
pub open spec fn kv_latent(
    layer: Qwen3AttentionLayer,
    ctx: ForwardContext,
    args: DecodeMlaArgs,
    x: Term,
) -> Term {
    let mla = layer.mla->0;
    let rank = mla.kv_lora_rank as u32;
    Term::Norm {
        weight: mla.kv_a_norm.weight,
        width: rank,
        eps: args.eps,
        input: Box::new(projected(layer, ctx, mla.wkv_a_nvfp4, mla.wkv_a, rank, args.h, x)),
    }
}

/// The rotated rotary key of the token, which all heads share.
pub open spec fn rotary_key(
    layer: Qwen3AttentionLayer,
    ctx: ForwardContext,
    args: DecodeMlaArgs,
    x: Term,
) -> Term {
    let mla = layer.mla->0;
    rotated(
        layer,
        ctx,
        1,
        Term::Product {
            weight: mla.wkv_a_rope.weight,
            n: mla.rope as u32,
            k: args.h,
            input: Box::new(x),
        },
    )
}

/// The key entry of the token: its latent and its rotary key.
pub open spec fn key_entry(
    layer: Qwen3AttentionLayer,
    ctx: ForwardContext,
    args: DecodeMlaArgs,
    x: Term,
) -> Term {
    let mla = layer.mla->0;
    Term::KeyEntry {
        kv_lora: mla.kv_lora_rank as u32,
        rope: mla.rope as u32,
        width: entry_width(layer),
        latent: Box::new(kv_latent(layer, ctx, args, x)),
        key: Box::new(
            if mla.rope as u32 == 0 {
                Term::Unknown
            } else {
                rotary_key(layer, ctx, args, x)
            },
        ),
    }
}

/// The value entry of the token: its latent.
pub open spec fn value_entry(
    layer: Qwen3AttentionLayer,
    ctx: ForwardContext,
    args: DecodeMlaArgs,
    x: Term,
) -> Term {
    let mla = layer.mla->0;
    Term::ValueEntry {
        kv_lora: mla.kv_lora_rank as u32,
        rope: mla.rope as u32,
        width: entry_width(layer),
        latent: Box::new(kv_latent(layer, ctx, args, x)),
    }
}

/// The cache in `pool` with `entry` at the slot of the token.
pub open spec fn stored(
    layer: Qwen3AttentionLayer,
    ctx: ForwardContext,
    args: DecodeMlaArgs,
    pool: Term,
    entry: Term,
) -> Term {
    Term::Stored {
        layer: layer.attn_layer_idx,
        slot: ctx.attn_metadata->0.slot,
        width: entry_width(layer),
        block_size: args.bs as u32,
        captured: ctx.graph_capture,
        pool: Box::new(pool),
        entry: Box::new(entry),
    }
}

/// `attended`, taken out of the space of the latent by the value up-projection of
/// each head, and projected.
pub open spec fn projected_output(
    layer: Qwen3AttentionLayer,
    ctx: ForwardContext,
    args: DecodeMlaArgs,
    attended: Term,
) -> Term {
    let mla = layer.mla->0;
    projected(
        layer,
        ctx,
        mla.wo_nvfp4,
        mla.wo,
        args.h,
        (args.nq * (mla.v_dim as u32)) as u32,
        Term::HeadProducts {
            weight: mla.w_uv.weight,
            n: mla.v_dim as u32,
            k: mla.kv_lora_rank as u32,
            heads: args.nq,
            input_stride: entry_width(layer),
            output_stride: mla.v_dim as u32,
            input: Box::new(attended),
        },
    )
}

/// What a dense step leaves at the output, of the token's normalised hidden state
/// `x` and the cache that stands in `keys` and `values`.
pub open spec fn dense_output(
    layer: Qwen3AttentionLayer,
    ctx: ForwardContext,
    args: DecodeMlaArgs,
    x: Term,
    keys: Term,
    values: Term,
) -> Term {
    let meta = ctx.attn_metadata->0;
    let width = entry_width(layer);
    projected_output(
        layer,
        ctx,
        args,
        Term::Attended {
            heads: args.nq,
            head_dim: width,
            query_stride: (args.nq * width) as u32,
            block_size: args.bs as u32,
            scale: args.inv_sqrt_d,
            block_table: meta.block_table,
            seq_len: meta.seq_len,
            max_blocks: meta.max_blocks_per_seq,
            query: Box::new(attending_query(layer, ctx, args, x)),
            keys: Box::new(
                stored(layer, ctx, args, keys, key_entry(layer, ctx, args, x)),
            ),
            values: Box::new(
                stored(layer, ctx, args, values, value_entry(layer, ctx, args, x)),
            ),
        },
    )
}

/// The addresses that a step works on, up to attention.
pub open spec fn places(
    ctx: ForwardContext,
    args: DecodeMlaArgs,
    kv: KvLayerPools,
) -> Seq<DevicePtr> {
    seq![
        args.normed,
        ctx.buffers.ssm_ba,
        ctx.buffers.ssm_deinterleaved,
        ctx.buffers.expert_up_out,
        ctx.buffers.ssm_conv_out_f32,
        ctx.buffers.expert_gate_out,
        args.k_out,
        args.v_out,
        kv.k_pool,
        kv.v_pool,
        ctx.buffers.attn_output,
    ]
}

/// The kernels that take all heads of a token at once are there.
pub open spec fn batched(layer: Qwen3AttentionLayer) -> bool {
    &&& layer.mla_batched_gemv_k.present()
    &&& layer.mla_q_rope_scatter_k.present()
    &&& layer.mla->0.rope as u32 > 0 ==> layer.mla_q_rope_writeback_k.present()
    &&& layer.mla_cache_assemble_k.present()
}

/// Query, absorption and rotary parts.
proof fn lemma_query(
    layer: Qwen3AttentionLayer,
    ctx: ForwardContext,
    args: DecodeMlaArgs,
    kv: KvLayerPools,
    memory: Memory,
)
    requires
        !ctx.profile,
        batched(layer),
        places(ctx, args, kv).no_duplicates(),
    ensures
        ({
            let steps = layer.query_steps(ctx, args) + layer.absorb_steps(ctx, args)
                + layer.scatter_steps(ctx, args);
            let end = after(layer, args.stream, memory, steps);
            let x = read(memory, args.normed);
            &&& read(end, ctx.buffers.ssm_ba) == query_latent(layer, ctx, args, x)
            &&& read(end, ctx.buffers.expert_up_out) == absorbed_query(layer, ctx, args, x)
            &&& layer.mla->0.rope as u32 > 0 ==> read(end, ctx.buffers.ssm_conv_out_f32)
                == query_parts(layer, ctx, args, x)
            &&& forall|ptr: DevicePtr|
                ptr != ctx.buffers.ssm_ba && ptr != ctx.buffers.ssm_deinterleaved && ptr
                    != ctx.buffers.expert_up_out && ptr != ctx.buffers.ssm_conv_out_f32
                    ==> #[trigger] read(end, ptr) == read(memory, ptr)
        }),
{
    let all = places(ctx, args, kv);
    assert(all[0] == args.normed && all[1] == ctx.buffers.ssm_ba);
    assert(all[2] == ctx.buffers.ssm_deinterleaved && all[3] == ctx.buffers.expert_up_out);
    assert(all[4] == ctx.buffers.ssm_conv_out_f32);
    let mla = layer.mla->0;
    let steps = layer.query_steps(ctx, args) + layer.absorb_steps(ctx, args)
        + layer.scatter_steps(ctx, args);
    lemma_after_one(layer, args.stream, memory, steps, 0);
    lemma_after_one(layer, args.stream, memory, steps, 1);
    lemma_after_one(layer, args.stream, memory, steps, 2);
    lemma_after_one(layer, args.stream, memory, steps, 3);
    lemma_after_one(layer, args.stream, memory, steps, 4);
    assert(steps.take(0).len() == 0);
    assert(steps.take(5) =~= steps);
}

/// The latent and the rotation.
proof fn lemma_rotated(
    layer: Qwen3AttentionLayer,
    ctx: ForwardContext,
    args: DecodeMlaArgs,
    kv: KvLayerPools,
    memory: Memory,
    x: Term,
)
    requires
        !ctx.profile,
        batched(layer),
        places(ctx, args, kv).no_duplicates(),
        read(memory, args.normed) == x,
        read(memory, ctx.buffers.expert_up_out) == absorbed_query(layer, ctx, args, x),
        layer.mla->0.rope as u32 > 0 ==> read(memory, ctx.buffers.ssm_conv_out_f32) == query_parts(
            layer,
            ctx,
            args,
            x,
        ),
    ensures
        ({
            let steps = layer.latent_steps(ctx, args) + layer.rope_steps(
                ctx,
                args,
                ctx.attn_metadata->0,
            );
            let end = after(layer, args.stream, memory, steps);
            &&& read(end, ctx.buffers.expert_up_out) == attending_query(layer, ctx, args, x)
            &&& read(end, ctx.buffers.expert_gate_out) == kv_latent(layer, ctx, args, x)
            &&& layer.mla->0.rope as u32 > 0 ==> read(end, ctx.buffers.ssm_ba) == rotary_key(
                layer,
                ctx,
                args,
                x,
            )
            &&& forall|ptr: DevicePtr|
                ptr != ctx.buffers.ssm_ba && ptr != ctx.buffers.ssm_conv_out_f32 && ptr
                    != ctx.buffers.expert_up_out && ptr != ctx.buffers.expert_gate_out
                    ==> #[trigger] read(end, ptr) == read(memory, ptr)
        }),
{
    let meta = ctx.attn_metadata->0;
    let all = places(ctx, args, kv);
    assert(all[0] == args.normed && all[1] == ctx.buffers.ssm_ba);
    assert(all[3] == ctx.buffers.expert_up_out && all[4] == ctx.buffers.ssm_conv_out_f32);
    assert(all[5] == ctx.buffers.expert_gate_out);
    let first = layer.latent_steps(ctx, args);
    let second = layer.rope_steps(ctx, args, meta);
    lemma_after_add(layer, args.stream, memory, first, second);
    lemma_after_one(layer, args.stream, memory, first, 0);
    lemma_after_one(layer, args.stream, memory, first, 1);
    assert(first.take(0).len() == 0);
    assert(first.take(2) =~= first);
    let middle = after(layer, args.stream, memory, first);
    if layer.mla->0.rope as u32 == 0 {
        assert(second.len() == 0);
    } else {
        lemma_after_one(layer, args.stream, middle, second, 0);
        lemma_after_one(layer, args.stream, middle, second, 1);
        lemma_after_one(layer, args.stream, middle, second, 2);
        assert(second.take(0).len() == 0);
        assert(second.take(3) =~= second);
    }
}

/// The cache entry.
proof fn lemma_cached(
    layer: Qwen3AttentionLayer,
    ctx: ForwardContext,
    args: DecodeMlaArgs,
    kv: KvLayerPools,
    memory: Memory,
    x: Term,
)
    requires
        !ctx.profile,
        batched(layer),
        places(ctx, args, kv).no_duplicates(),
        read(memory, ctx.buffers.expert_gate_out) == kv_latent(layer, ctx, args, x),
        layer.mla->0.rope as u32 > 0 ==> read(memory, ctx.buffers.ssm_ba) == rotary_key(
            layer,
            ctx,
            args,
            x,
        ),
    ensures
        ({
            let steps = layer.cache_steps(ctx, args, ctx.attn_metadata->0, kv);
            let end = after(layer, args.stream, memory, steps);
            &&& read(end, kv.k_pool) == stored(
                layer,
                ctx,
                args,
                read(memory, kv.k_pool),
                key_entry(layer, ctx, args, x),
            )
            &&& read(end, kv.v_pool) == stored(
                layer,
                ctx,
                args,
                read(memory, kv.v_pool),
                value_entry(layer, ctx, args, x),
            )
            &&& forall|ptr: DevicePtr|
                ptr != args.k_out && ptr != args.v_out && ptr != kv.k_pool && ptr != kv.v_pool
                    ==> #[trigger] read(end, ptr) == read(memory, ptr)
        }),
{
    let all = places(ctx, args, kv);
    assert(all[6] == args.k_out && all[7] == args.v_out);
    assert(all[8] == kv.k_pool && all[9] == kv.v_pool);
    let steps = layer.cache_steps(ctx, args, ctx.attn_metadata->0, kv);
    lemma_after_one(layer, args.stream, memory, steps, 0);
    lemma_after_one(layer, args.stream, memory, steps, 1);
    assert(steps.take(0).len() == 0);
    assert(steps.take(2) =~= steps);
}

/// Latent, rotation and cache entry.
proof fn lemma_entry(
    layer: Qwen3AttentionLayer,
    ctx: ForwardContext,
    args: DecodeMlaArgs,
    kv: KvLayerPools,
    memory: Memory,
    x: Term,
)
    requires
        !ctx.profile,
        batched(layer),
        places(ctx, args, kv).no_duplicates(),
        read(memory, args.normed) == x,
        read(memory, ctx.buffers.expert_up_out) == absorbed_query(layer, ctx, args, x),
        layer.mla->0.rope as u32 > 0 ==> read(memory, ctx.buffers.ssm_conv_out_f32) == query_parts(
            layer,
            ctx,
            args,
            x,
        ),
    ensures
        ({
            let meta = ctx.attn_metadata->0;
            let steps = layer.latent_steps(ctx, args) + layer.rope_steps(ctx, args, meta)
                + layer.cache_steps(ctx, args, meta, kv);
            let end = after(layer, args.stream, memory, steps);
            &&& read(end, ctx.buffers.expert_up_out) == attending_query(layer, ctx, args, x)
            &&& read(end, kv.k_pool) == stored(
                layer,
                ctx,
                args,
                read(memory, kv.k_pool),
                key_entry(layer, ctx, args, x),
            )
            &&& read(end, kv.v_pool) == stored(
                layer,
                ctx,
                args,
                read(memory, kv.v_pool),
                value_entry(layer, ctx, args, x),
            )
            &&& forall|ptr: DevicePtr|
                ptr != ctx.buffers.ssm_ba && ptr != ctx.buffers.ssm_conv_out_f32 && ptr
                    != ctx.buffers.expert_up_out && ptr != ctx.buffers.expert_gate_out && ptr
                    != args.k_out && ptr != args.v_out && ptr != kv.k_pool && ptr != kv.v_pool
                    ==> #[trigger] read(end, ptr) == read(memory, ptr)
        }),
{
    let meta = ctx.attn_metadata->0;
    let all = places(ctx, args, kv);
    assert(all[1] == ctx.buffers.ssm_ba && all[3] == ctx.buffers.expert_up_out);
    assert(all[4] == ctx.buffers.ssm_conv_out_f32 && all[5] == ctx.buffers.expert_gate_out);
    assert(all[6] == args.k_out && all[7] == args.v_out);
    assert(all[8] == kv.k_pool && all[9] == kv.v_pool);
    let first = layer.latent_steps(ctx, args) + layer.rope_steps(ctx, args, meta);
    lemma_after_add(layer, args.stream, memory, first, layer.cache_steps(ctx, args, meta, kv));
    lemma_rotated(layer, ctx, args, kv, memory, x);
    lemma_cached(layer, ctx, args, kv, after(layer, args.stream, memory, first), x);
}

/// Value extraction and output projection.
proof fn lemma_output(
    layer: Qwen3AttentionLayer,
    ctx: ForwardContext,
    args: DecodeMlaArgs,
    memory: Memory,
)
    requires
        !ctx.profile,
        batched(layer),
    ensures
        ({
            let end = after(layer, args.stream, memory, layer.output_steps(ctx, args));
            &&& read(end, ctx.buffers.qkv_output) == projected_output(
                layer,
                ctx,
                args,
                read(memory, ctx.buffers.attn_output),
            )
            &&& forall|ptr: DevicePtr|
                ptr != ctx.buffers.norm_output && ptr != ctx.buffers.qkv_output
                    ==> #[trigger] read(end, ptr) == read(memory, ptr)
        }),
{
    let steps = layer.output_steps(ctx, args);
    lemma_after_one(layer, args.stream, memory, steps, 0);
    lemma_after_one(layer, args.stream, memory, steps, 1);
    assert(steps.take(0).len() == 0);
    assert(steps.take(2) =~= steps);
}

/// The cache pools are no output buffers.
pub open spec fn pools_apart(ctx: ForwardContext, kv: KvLayerPools) -> bool {
    &&& kv.k_pool != ctx.buffers.norm_output && kv.k_pool != ctx.buffers.qkv_output
    &&& kv.v_pool != ctx.buffers.norm_output && kv.v_pool != ctx.buffers.qkv_output
}

proof fn lemma_dense_quietly(
    layer: Qwen3AttentionLayer,
    ctx: ForwardContext,
    args: DecodeMlaArgs,
    kv: KvLayerPools,
    memory: Memory,
)
    requires
        !ctx.profile,
        batched(layer),
        places(ctx, args, kv).no_duplicates(),
        pools_apart(ctx, kv),
    ensures
        ({
            let steps = layer.decode_trace(ctx, args, kv, false).steps;
            let end = after(layer, args.stream, memory, steps);
            let x = read(memory, args.normed);
            let keys = read(memory, kv.k_pool);
            let values = read(memory, kv.v_pool);
            &&& read(end, ctx.buffers.qkv_output) == dense_output(
                layer,
                ctx,
                args,
                x,
                keys,
                values,
            )
            &&& read(end, kv.k_pool) == stored(
                layer,
                ctx,
                args,
                keys,
                key_entry(layer, ctx, args, x),
            )
            &&& read(end, kv.v_pool) == stored(
                layer,
                ctx,
                args,
                values,
                value_entry(layer, ctx, args, x),
            )
        }),
{
    let meta = ctx.attn_metadata->0;
    let all = places(ctx, args, kv);
    assert(all[0] == args.normed && all[1] == ctx.buffers.ssm_ba);
    assert(all[2] == ctx.buffers.ssm_deinterleaved && all[3] == ctx.buffers.expert_up_out);
    assert(all[4] == ctx.buffers.ssm_conv_out_f32);
    assert(all[8] == kv.k_pool && all[9] == kv.v_pool && all[10] == ctx.buffers.attn_output);
    let x = read(memory, args.normed);
    let first = layer.query_steps(ctx, args) + layer.absorb_steps(ctx, args)
        + layer.scatter_steps(ctx, args);
    let second = layer.latent_steps(ctx, args) + layer.rope_steps(ctx, args, meta)
        + layer.cache_steps(ctx, args, meta, kv);
    let attention = layer.paged_steps(ctx, args, meta, kv);
    let output = layer.output_steps(ctx, args);
    let steps = layer.decode_trace(ctx, args, kv, false).steps;
    assert(steps =~= first + (second + (attention + output)));
    lemma_after_add(layer, args.stream, memory, first, second + (attention + output));
    let m1 = after(layer, args.stream, memory, first);
    lemma_after_add(layer, args.stream, m1, second, attention + output);
    let m2 = after(layer, args.stream, m1, second);
    lemma_after_add(layer, args.stream, m2, attention, output);
    let m3 = after(layer, args.stream, m2, attention);
    lemma_query(layer, ctx, args, kv, memory);
    lemma_entry(layer, ctx, args, kv, m1, x);
    lemma_after_one(layer, args.stream, m2, attention, 0);
    assert(attention.take(0).len() == 0);
    assert(attention.take(1) =~= attention);
    lemma_output(layer, ctx, args, m3);
}

/// What a dense step leaves behind: at the output the projected values of an
/// attention over the cache of the layer in which the token itself stands, by a
/// query that was absorbed with the key up-projection and taken back with the value
/// up-projection; in the cache the entry of the token and nothing else. It is so
/// whether or not the step is profiled.
pub proof fn law_dense_step_attends(
    layer: Qwen3AttentionLayer,
    ctx: ForwardContext,
    args: DecodeMlaArgs,
    kv: KvLayerPools,
    memory: Memory,
)
    requires
        batched(layer),
        places(ctx, args, kv).no_duplicates(),
        pools_apart(ctx, kv),
    ensures
        ({
            let steps = layer.decode_trace(ctx, args, kv, false).steps;
            let end = after(layer, args.stream, memory, steps);
            let x = read(memory, args.normed);
            let keys = read(memory, kv.k_pool);
            let values = read(memory, kv.v_pool);
            &&& layer.decode_trace(ctx, args, kv, false).outcome is Ok
            &&& read(end, layer.decode_trace(ctx, args, kv, false).outcome->Ok_0) == dense_output(
                layer,
                ctx,
                args,
                x,
                keys,
                values,
            )
            &&& read(end, kv.k_pool) == stored(
                layer,
                ctx,
                args,
                keys,
                key_entry(layer, ctx, args, x),
            )
            &&& read(end, kv.v_pool) == stored(
                layer,
                ctx,
                args,
                values,
                value_entry(layer, ctx, args, x),
            )
        }),
{
    let quiet = unprofiled(ctx);
    let steps = layer.decode_trace(ctx, args, kv, false).steps;
    law_profiling_only_watches(layer, ctx, args, kv, false);
    lemma_after_unmarked(layer, args.stream, memory, steps);
    lemma_dense_quietly(layer, quiet, args, kv, memory);
    lemma_same_terms(layer, ctx, args, read(memory, args.normed));
}

/// Terms do not depend on profiling.
proof fn lemma_same_terms(
    layer: Qwen3AttentionLayer,
    ctx: ForwardContext,
    args: DecodeMlaArgs,
    x: Term,
)
    ensures
        query_latent(layer, unprofiled(ctx), args, x) == query_latent(layer, ctx, args, x),
        attending_query(layer, unprofiled(ctx), args, x) == attending_query(layer, ctx, args, x),
        key_entry(layer, unprofiled(ctx), args, x) == key_entry(layer, ctx, args, x),
        value_entry(layer, unprofiled(ctx), args, x) == value_entry(layer, ctx, args, x),
{
}

/// The query of the indexer: the query latent, projected for its heads.
pub open spec fn index_query(
    layer: Qwen3AttentionLayer,
    ctx: ForwardContext,
    args: DecodeMlaArgs,
    indexer: Glm5IndexerWeights,
    x: Term,
) -> Term {
    Term::Product {
        weight: indexer.wq_b.weight,
        n: (ctx.config.index_n_heads * ctx.config.index_head_dim) as u32,
        k: layer.mla->0.q_lora_rank as u32,
        input: Box::new(query_latent(layer, ctx, args, x)),
    }
}

/// The weight of each head of the indexer for this token.
pub open spec fn index_head_weights(
    ctx: ForwardContext,
    args: DecodeMlaArgs,
    indexer: Glm5IndexerWeights,
    x: Term,
) -> Term {
    Term::Product {
        weight: indexer.weights_proj.weight,
        n: ctx.config.index_n_heads as u32,
        k: args.h,
        input: Box::new(x),
    }
}

/// The index key of the token: projected, and normalised by mean and variance with
/// an epsilon of one millionth.
pub open spec fn index_key(
    ctx: ForwardContext,
    args: DecodeMlaArgs,
    indexer: Glm5IndexerWeights,
    x: Term,
) -> Term {
    let dim = ctx.config.index_head_dim as u32;
    Term::LayerNorm {
        weight: indexer.k_norm_weight.weight,
        bias: indexer.k_norm_bias.weight,
        width: dim,
        eps: Float32::Bits(EPSILON),
        input: Box::new(
            Term::Product {
                weight: indexer.wk.weight,
                n: dim,
                k: args.h,
                input: Box::new(x),
            },
        ),
    }
}

/// The compression gate of the token.
pub open spec fn index_gate(
    ctx: ForwardContext,
    args: DecodeMlaArgs,
    indexer: Glm5IndexerWeights,
    x: Term,
) -> Term {
    Term::Product {
        weight: indexer.kpool_compress_gate.weight,
        n: ctx.config.index_head_dim as u32,
        k: args.h,
        input: Box::new(x),
    }
}

/// The index pool with the raw key and compression gate of the token filed.
pub open spec fn filed(
    ctx: ForwardContext,
    args: DecodeMlaArgs,
    kv: KvLayerPools,
    indexer: Glm5IndexerWeights,
    x: Term,
    pool: Term,
) -> Term {
    Term::Filed {
        slot: ctx.attn_metadata->0.slot,
        dim: ctx.config.index_head_dim as u32,
        block_size: args.bs as u32,
        block_stride: kv.index_raw_block_stride->0 as u32,
        pool: Box::new(pool),
        key: Box::new(index_key(ctx, args, indexer, x)),
        gate: Box::new(index_gate(ctx, args, indexer, x)),
    }
}

/// The tokens that the step attends to: those of the best pools by the index query,
/// and the tail of the sequence.
pub open spec fn chosen_tokens(
    layer: Qwen3AttentionLayer,
    ctx: ForwardContext,
    args: DecodeMlaArgs,
    kv: KvLayerPools,
    indexer: Glm5IndexerWeights,
    chosen: IndexSelection,
    x: Term,
    pool: Term,
) -> Term {
    Term::TokensOf {
        count: chosen.select_count,
        kpool: chosen.kpool,
        seq_len: chosen.seq_len,
        tail: chosen.tail_count,
        pools: Box::new(
            if chosen.select_count == 0 {
                Term::Unknown
            } else {
                Term::BestPools {
                    count: chosen.select_count,
                    candidates: chosen.candidates,
                    kpool: chosen.kpool,
                    heads: ctx.config.index_n_heads as u32,
                    dim: ctx.config.index_head_dim as u32,
                    block_size: args.bs as u32,
                    block_stride: kv.index_raw_block_stride->0 as u32,
                    block_table: ctx.attn_metadata->0.block_table,
                    positions: indexer.kpool_compress_ape.weight,
                    query: Box::new(index_query(layer, ctx, args, indexer, x)),
                    weights: Box::new(index_head_weights(ctx, args, indexer, x)),
                    pool: Box::new(filed(ctx, args, kv, indexer, x, pool)),
                }
            },
        ),
    }
}

/// What a sparse step leaves at the output.
pub open spec fn sparse_output(
    layer: Qwen3AttentionLayer,
    ctx: ForwardContext,
    args: DecodeMlaArgs,
    kv: KvLayerPools,
    indexer: Glm5IndexerWeights,
    chosen: IndexSelection,
    x: Term,
    keys: Term,
    values: Term,
    pool: Term,
) -> Term {
    projected_output(
        layer,
        ctx,
        args,
        Term::AttendedTokens {
            count: (chosen.select_count * chosen.kpool + chosen.tail_count) as u32,
            heads: args.nq,
            kv_lora: layer.mla->0.kv_lora_rank as u32,
            block_size: args.bs as u32,
            scale: args.inv_sqrt_d,
            block_table: ctx.attn_metadata->0.block_table,
            query: Box::new(attending_query(layer, ctx, args, x)),
            keys: Box::new(stored(layer, ctx, args, keys, key_entry(layer, ctx, args, x))),
            values: Box::new(stored(layer, ctx, args, values, value_entry(layer, ctx, args, x))),
            tokens: Box::new(
                chosen_tokens(layer, ctx, args, kv, indexer, chosen, x, pool),
            ),
        },
    )
}

/// The addresses that the indexer works on besides those of a dense step: the raw
/// key and compression gate behind it, two bytes for each element, the index pool, and the
/// head weights behind the index query.
pub open spec fn index_places(
    ctx: ForwardContext,
    args: DecodeMlaArgs,
    kv: KvLayerPools,
) -> Seq<DevicePtr> {
    seq![
        args.q_out,
        args.q_out.plus(ctx.config.index_head_dim * 2),
        kv.index_raw_pool->0,
        ctx.buffers.ssm_deinterleaved.plus(
            ctx.config.index_n_heads * ctx.config.index_head_dim * 2,
        ),
    ]
}

/// The kernels of the indexer are different ones.
pub open spec fn index_kernels_differ(layer: Qwen3AttentionLayer) -> bool {
    seq![
        layer.glm_index_norm_k,
        layer.glm_index_write_k,
        layer.glm_index_select_k,
        layer.glm_index_expand_k,
        layer.glm_selected_mla_k,
    ].no_duplicates()
}

proof fn lemma_index_query(
    layer: Qwen3AttentionLayer,
    ctx: ForwardContext,
    args: DecodeMlaArgs,
    kv: KvLayerPools,
    indexer: Glm5IndexerWeights,
    memory: Memory,
    x: Term,
)
    requires
        !ctx.profile,
        (places(ctx, args, kv) + index_places(ctx, args, kv)).no_duplicates(),
        read(memory, args.normed) == x,
        read(memory, ctx.buffers.ssm_ba) == query_latent(layer, ctx, args, x),
    ensures
        ({
            let steps = layer.index_query_steps(ctx, args, indexer);
            let end = after(layer, args.stream, memory, steps);
            let behind = index_places(ctx, args, kv)[3];
            &&& read(end, ctx.buffers.ssm_deinterleaved) == index_query(
                layer,
                ctx,
                args,
                indexer,
                x,
            )
            &&& read(end, behind) == index_head_weights(ctx, args, indexer, x)
            &&& forall|ptr: DevicePtr|
                ptr != ctx.buffers.ssm_deinterleaved && ptr != behind ==> #[trigger] read(end, ptr)
                    == read(memory, ptr)
        }),
{
    let all = places(ctx, args, kv) + index_places(ctx, args, kv);
    assert(all[0] == args.normed && all[1] == ctx.buffers.ssm_ba);
    assert(all[2] == ctx.buffers.ssm_deinterleaved && all[14] == index_places(ctx, args, kv)[3]);
    let steps = layer.index_query_steps(ctx, args, indexer);
    lemma_after_one(layer, args.stream, memory, steps, 0);
    lemma_after_one(layer, args.stream, memory, steps, 1);
    assert(steps.take(0).len() == 0);
    assert(steps.take(2) =~= steps);
}

proof fn lemma_filed(
    layer: Qwen3AttentionLayer,
    ctx: ForwardContext,
    args: DecodeMlaArgs,
    kv: KvLayerPools,
    indexer: Glm5IndexerWeights,
    memory: Memory,
    x: Term,
)
    requires
        !ctx.profile,
        (places(ctx, args, kv) + index_places(ctx, args, kv)).no_duplicates(),
        index_kernels_differ(layer),
        read(memory, args.normed) == x,
        layer.index_cache_trace(ctx, args, ctx.attn_metadata->0, kv, indexer).outcome is Ok,
    ensures
        ({
            let steps = layer.index_cache_trace(
                ctx,
                args,
                ctx.attn_metadata->0,
                kv,
                indexer,
            ).steps;
            let end = after(layer, args.stream, memory, steps);
            let pool = kv.index_raw_pool->0;
            &&& read(end, pool) == filed(ctx, args, kv, indexer, x, read(memory, pool))
            &&& forall|ptr: DevicePtr|
                ptr != index_places(ctx, args, kv)[0] && ptr != index_places(ctx, args, kv)[1]
                    && ptr != pool ==> #[trigger] read(end, ptr) == read(memory, ptr)
        }),
{
    let all = places(ctx, args, kv) + index_places(ctx, args, kv);
    let own = index_places(ctx, args, kv);
    assert(all[0] == args.normed && all[11] == own[0] && all[12] == own[1] && all[13] == own[2]);
    let kernels = seq![
        layer.glm_index_norm_k,
        layer.glm_index_write_k,
        layer.glm_index_select_k,
        layer.glm_index_expand_k,
        layer.glm_selected_mla_k,
    ];
    assert(kernels[0] == layer.glm_index_norm_k && kernels[1] == layer.glm_index_write_k);
    let meta = ctx.attn_metadata->0;
    let steps = layer.index_cache_trace(ctx, args, meta, kv, indexer).steps;
    let dim = ctx.config.index_head_dim as u32;
    law_groups_cover(2 * dim, 256);
    assert(steps.len() == 4);
    lemma_after_one(layer, args.stream, memory, steps, 0);
    lemma_after_one(layer, args.stream, memory, steps, 1);
    lemma_after_one(layer, args.stream, memory, steps, 2);
    lemma_after_one(layer, args.stream, memory, steps, 3);
    assert(steps.take(0).len() == 0);
    assert(steps.take(4) =~= steps);
}

/// Selection, expansion and attention.
proof fn lemma_attended_tokens(
    layer: Qwen3AttentionLayer,
    ctx: ForwardContext,
    args: DecodeMlaArgs,
    kv: KvLayerPools,
    indexer: Glm5IndexerWeights,
    chosen: IndexSelection,
    memory: Memory,
    x: Term,
    pool: Term,
)
    requires
        !ctx.profile,
        (places(ctx, args, kv) + index_places(ctx, args, kv)).no_duplicates(),
        index_kernels_differ(layer),
        selection(*ctx.config, args.pos) matches Ok(found) && found == chosen,
        layer.sparse_trace(ctx, args, ctx.attn_metadata->0, kv, indexer).outcome is Ok,
        read(memory, ctx.buffers.ssm_deinterleaved) == index_query(layer, ctx, args, indexer, x),
        read(memory, index_places(ctx, args, kv)[3]) == index_head_weights(ctx, args, indexer, x),
        read(memory, kv.index_raw_pool->0) == filed(ctx, args, kv, indexer, x, pool),
    ensures
        ({
            let steps = layer.sparse_trace(ctx, args, ctx.attn_metadata->0, kv, indexer).steps;
            let end = after(layer, args.stream, memory, steps);
            &&& read(end, ctx.buffers.attn_output) == (Term::AttendedTokens {
                count: (chosen.select_count * chosen.kpool + chosen.tail_count) as u32,
                heads: args.nq,
                kv_lora: layer.mla->0.kv_lora_rank as u32,
                block_size: args.bs as u32,
                scale: args.inv_sqrt_d,
                block_table: ctx.attn_metadata->0.block_table,
                query: Box::new(read(memory, ctx.buffers.expert_up_out)),
                keys: Box::new(read(memory, kv.k_pool)),
                values: Box::new(read(memory, kv.v_pool)),
                tokens: Box::new(
                    chosen_tokens(layer, ctx, args, kv, indexer, chosen, x, pool),
                ),
            })
            &&& forall|ptr: DevicePtr|
                ptr != ctx.buffers.attn_output && ptr != ctx.buffers.ssm_deinterleaved && ptr
                    != args.q_out ==> #[trigger] read(end, ptr) == read(memory, ptr)
        }),
{
    let all = places(ctx, args, kv) + index_places(ctx, args, kv);
    let own = index_places(ctx, args, kv);
    let meta = ctx.attn_metadata->0;
    assert(all[2] == ctx.buffers.ssm_deinterleaved && all[3] == ctx.buffers.expert_up_out);
    assert(all[8] == kv.k_pool && all[9] == kv.v_pool && all[10] == ctx.buffers.attn_output);
    assert(all[11] == own[0] && all[12] == own[1] && all[13] == own[2] && all[14] == own[3]);
    let kernels = seq![
        layer.glm_index_norm_k,
        layer.glm_index_write_k,
        layer.glm_index_select_k,
        layer.glm_index_expand_k,
        layer.glm_selected_mla_k,
    ];
    assert(kernels[0] == layer.glm_index_norm_k && kernels[1] == layer.glm_index_write_k);
    assert(kernels[2] == layer.glm_index_select_k && kernels[3] == layer.glm_index_expand_k);
    assert(kernels[4] == layer.glm_selected_mla_k);
    let select = layer.select_trace(ctx, args, meta, kv, indexer, chosen).steps;
    let expand = layer.expand_trace(ctx, args, chosen).steps;
    let attend = layer.attend_selected_trace(ctx, args, meta, kv, chosen).steps;
    let steps = layer.sparse_trace(ctx, args, meta, kv, indexer).steps;
    assert(steps == select + expand + attend);
    lemma_after_add(layer, args.stream, memory, select + expand, attend);
    lemma_after_add(layer, args.stream, memory, select, expand);
    let m1 = after(layer, args.stream, memory, select);
    let m2 = after(layer, args.stream, m1, expand);
    if chosen.select_count > 0 {
        assert(select.len() == 1);
        lemma_after_one(layer, args.stream, memory, select, 0);
        assert(select.take(0).len() == 0);
        assert(select.take(1) =~= select);
    } else {
        assert(select.len() == 0);
    }
    let width = chosen.select_count * chosen.kpool + chosen.tail_count;
    assert(0 <= chosen.select_count * chosen.kpool) by (nonlinear_arith);
    law_groups_cover(width, 256);
    assert(expand.len() == 1 && attend.len() == 1);
    lemma_after_one(layer, args.stream, m1, expand, 0);
    assert(expand.take(0).len() == 0);
    assert(expand.take(1) =~= expand);
    lemma_after_one(layer, args.stream, m2, attend, 0);
    assert(attend.take(0).len() == 0);
    assert(attend.take(1) =~= attend);
}

proof fn lemma_prefix(all: Seq<DevicePtr>, first: Seq<DevicePtr>, rest: Seq<DevicePtr>)
    requires
        all == first + rest,
        all.no_duplicates(),
    ensures
        first.no_duplicates(),
{
    assert forall|i: int, j: int| 0 <= i < first.len() && 0 <= j < first.len() && i != j implies
        first[i] != first[j] by {
        assert(all[i] == first[i] && all[j] == first[j]);
    }
}

proof fn lemma_sparse_quietly(
    layer: Qwen3AttentionLayer,
    ctx: ForwardContext,
    args: DecodeMlaArgs,
    kv: KvLayerPools,
    indexer: Glm5IndexerWeights,
    chosen: IndexSelection,
    memory: Memory,
)
    requires
        !ctx.profile,
        batched(layer),
        layer.active_indexer(true) == Some(indexer),
        (places(ctx, args, kv) + index_places(ctx, args, kv)).no_duplicates(),
        pools_apart(ctx, kv),
        index_kernels_differ(layer),
        kv.index_raw_pool->0 != ctx.buffers.norm_output,
        kv.index_raw_pool->0 != ctx.buffers.qkv_output,
        selection(*ctx.config, args.pos) matches Ok(found) && found == chosen,
        layer.decode_trace(ctx, args, kv, true).outcome is Ok,
    ensures
        sparse_holds(layer, ctx, args, kv, indexer, chosen, memory),
{
    let meta = ctx.attn_metadata->0;
    let all = places(ctx, args, kv) + index_places(ctx, args, kv);
    let own = index_places(ctx, args, kv);
    lemma_prefix(all, places(ctx, args, kv), own);
    assert(all[0] == args.normed && all[1] == ctx.buffers.ssm_ba);
    assert(all[2] == ctx.buffers.ssm_deinterleaved && all[3] == ctx.buffers.expert_up_out);
    assert(all[4] == ctx.buffers.ssm_conv_out_f32 && all[5] == ctx.buffers.expert_gate_out);
    assert(all[6] == args.k_out && all[7] == args.v_out);
    assert(all[8] == kv.k_pool && all[9] == kv.v_pool && all[10] == ctx.buffers.attn_output);
    assert(all[11] == own[0] && all[12] == own[1] && all[13] == own[2] && all[14] == own[3]);
    let x = read(memory, args.normed);
    let pool = read(memory, kv.index_raw_pool->0);
    let first = layer.query_steps(ctx, args) + layer.absorb_steps(ctx, args)
        + layer.scatter_steps(ctx, args);
    let index = layer.index_query_steps(ctx, args, indexer);
    let second = layer.latent_steps(ctx, args) + layer.rope_steps(ctx, args, meta)
        + layer.cache_steps(ctx, args, meta, kv);
    let filing = layer.index_cache_trace(ctx, args, meta, kv, indexer).steps;
    let attention = layer.sparse_trace(ctx, args, meta, kv, indexer).steps;
    let output = layer.output_steps(ctx, args);
    let steps = layer.decode_trace(ctx, args, kv, true).steps;
    assert(steps =~= first + (index + (second + (filing + (attention + output)))));
    lemma_after_add(
        layer,
        args.stream,
        memory,
        first,
        index + (second + (filing + (attention + output))),
    );
    let m1 = after(layer, args.stream, memory, first);
    lemma_after_add(layer, args.stream, m1, index, second + (filing + (attention + output)));
    let m2 = after(layer, args.stream, m1, index);
    lemma_after_add(layer, args.stream, m2, second, filing + (attention + output));
    let m3 = after(layer, args.stream, m2, second);
    lemma_after_add(layer, args.stream, m3, filing, attention + output);
    let m4 = after(layer, args.stream, m3, filing);
    lemma_after_add(layer, args.stream, m4, attention, output);
    let m5 = after(layer, args.stream, m4, attention);
    lemma_query(layer, ctx, args, kv, memory);
    lemma_index_query(layer, ctx, args, kv, indexer, m1, x);
    lemma_entry(layer, ctx, args, kv, m2, x);
    lemma_filed(layer, ctx, args, kv, indexer, m3, x);
    lemma_attended_tokens(layer, ctx, args, kv, indexer, chosen, m4, x, pool);
    lemma_output(layer, ctx, args, m5);
}

/// What a sparse step leaves behind.
pub open spec fn sparse_holds(
    layer: Qwen3AttentionLayer,
    ctx: ForwardContext,
    args: DecodeMlaArgs,
    kv: KvLayerPools,
    indexer: Glm5IndexerWeights,
    chosen: IndexSelection,
    memory: Memory,
) -> bool {
    let trace = layer.decode_trace(ctx, args, kv, true);
    let end = after(layer, args.stream, memory, trace.steps);
    let x = read(memory, args.normed);
    let keys = read(memory, kv.k_pool);
    let values = read(memory, kv.v_pool);
    let pool = read(memory, kv.index_raw_pool->0);
    &&& read(end, trace.outcome->Ok_0) == sparse_output(
        layer,
        ctx,
        args,
        kv,
        indexer,
        chosen,
        x,
        keys,
        values,
        pool,
    )
    &&& read(end, kv.k_pool) == stored(layer, ctx, args, keys, key_entry(layer, ctx, args, x))
    &&& read(end, kv.v_pool) == stored(layer, ctx, args, values, value_entry(layer, ctx, args, x))
    &&& read(end, kv.index_raw_pool->0) == filed(ctx, args, kv, indexer, x, pool)
}

/// What a sparse step leaves behind: at the output what a dense step leaves, but
/// attending only to the tokens that the indexer chose. It chose them by a query
/// from the query latent and by head weights from the hidden state, over an index
/// pool in which the token's own key, projected and normalised, and its compression
/// gate stand already. The cache and the index pool keep the token, and nothing
/// else in them changes. It is so whether or not the step is profiled.
pub proof fn law_sparse_step_attends(
    layer: Qwen3AttentionLayer,
    ctx: ForwardContext,
    args: DecodeMlaArgs,
    kv: KvLayerPools,
    indexer: Glm5IndexerWeights,
    chosen: IndexSelection,
    memory: Memory,
)
    requires
        batched(layer),
        layer.active_indexer(true) == Some(indexer),
        (places(ctx, args, kv) + index_places(ctx, args, kv)).no_duplicates(),
        pools_apart(ctx, kv),
        index_kernels_differ(layer),
        kv.index_raw_pool->0 != ctx.buffers.norm_output,
        kv.index_raw_pool->0 != ctx.buffers.qkv_output,
        selection(*ctx.config, args.pos) matches Ok(found) && found == chosen,
        layer.decode_trace(ctx, args, kv, true).outcome is Ok,
    ensures
        sparse_holds(layer, ctx, args, kv, indexer, chosen, memory),
{
    let quiet = unprofiled(ctx);
    let steps = layer.decode_trace(ctx, args, kv, true).steps;
    law_profiling_only_watches(layer, ctx, args, kv, true);
    lemma_after_unmarked(layer, args.stream, memory, steps);
    lemma_sparse_quietly(layer, quiet, args, kv, indexer, chosen, memory);
    lemma_same_terms(layer, ctx, args, read(memory, args.normed));
}

} // verus!
