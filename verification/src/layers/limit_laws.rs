//! Steps of ordinary size can always be recorded.
use vstd::prelude::*;

use crate::device::DevicePtr;
use crate::layers::kda::Glm5KdaLayer;
use crate::layers::mla_decode::{DecodeMlaArgs, KvLayerPools, Qwen3AttentionLayer};
use crate::layers::ForwardContext;

verus! {

/// Far from the end of the address space.
pub open spec fn low(ptr: DevicePtr) -> bool {
    ptr.bytes <= 0x4000_0000_0000_0000
}

proof fn lemma_product(a: int, b: int, most_a: int, most_b: int)
    requires
        0 <= a <= most_a,
        0 <= b <= most_b,
    ensures
        0 <= a * b <= most_a * most_b,
{
    assert(0 <= a * b <= most_a * most_b) by (nonlinear_arith)
        requires
            0 <= a <= most_a,
            0 <= b <= most_b,
    ;
}

/// A batch of a thousand rows fits wherever the heads and the hidden state are
/// at most some thousands wide.
pub proof fn law_ordinary_rows_fit(
    layer: Glm5KdaLayer,
    hidden: DevicePtr,
    ctx: ForwardContext,
    rows: int,
)
    requires
        ctx.config.linear_num_key_heads <= 0x400,
        ctx.config.linear_key_head_dim <= 0x400,
        ctx.config.hidden_size <= 0x4000,
        layer.hc.hc_mult <= 0x10,
        layer.layer_idx < usize::MAX,
        rows <= 0x400,
        low(hidden),
        low(ctx.buffers.hc_streams),
        low(ctx.buffers.hc_post),
        low(ctx.buffers.hc_comb),
        low(ctx.buffers.ssm_qkvz),
    ensures
        Glm5KdaLayer::attention_fits(ctx),
        layer.batch_fits(hidden, ctx, rows),
{
    let config = *ctx.config;
    lemma_product(
        config.linear_num_key_heads as int,
        config.linear_key_head_dim as int,
        0x400,
        0x400,
    );
    lemma_product(layer.hc.hc_mult as int, config.hidden_size as int, 0x10, 0x4000);
    assert forall|row: int| 0 <= row < rows implies #[trigger] layer.batch_row_fits(
        hidden,
        ctx,
        row,
    ) by {
        lemma_product(row, layer.hc_row_bytes(ctx), 0x400, 0x8_0000);
        lemma_product(row, Glm5KdaLayer::hidden_bytes(ctx), 0x400, 0x8000);
    }
}

/// The sizes and addresses of a decoding step are of ordinary size.
pub open spec fn ordinary(
    layer: Qwen3AttentionLayer,
    ctx: ForwardContext,
    args: DecodeMlaArgs,
) -> bool {
    &&& layer.mla is Some
    &&& ctx.attn_metadata is Some
    &&& layer.weights().kv_lora_rank <= 0x400
    &&& layer.weights().nope <= 0x400
    &&& layer.weights().rope <= 0x400
    &&& layer.weights().v_dim <= 0x400
    &&& args.hd <= 0x800
    &&& args.nq <= 0x200
    &&& 0 < ctx.config.index_kpool
    &&& ctx.config.index_n_heads <= 0x200
    &&& ctx.config.index_head_dim <= 0x400
    &&& low(ctx.buffers.ssm_deinterleaved)
    &&& low(ctx.buffers.ssm_conv_out_f32)
    &&& low(ctx.buffers.expert_up_out)
    &&& low(ctx.buffers.attn_output)
    &&& low(ctx.buffers.norm_output)
    &&& low(layer.weights().w_uk_t.weight)
    &&& low(layer.weights().w_uv.weight)
    &&& low(args.q_out)
    &&& low(args.k_out)
    &&& low(args.v_out)
}

proof fn lemma_head_fits(
    layer: Qwen3AttentionLayer,
    ctx: ForwardContext,
    args: DecodeMlaArgs,
    head: int,
)
    requires
        ordinary(layer, ctx, args),
        0 <= head < args.nq,
    ensures
        layer.absorb_head_fits(ctx, args, head),
        layer.scatter_head_fits(ctx, args, head),
        layer.writeback_head_fits(ctx, head),
        layer.extract_head_fits(ctx, head),
{
    let mla = layer.weights();
    let entry = layer.cache_dim() as int;
    assert(entry == mla.kv_lora_rank + mla.rope);
    lemma_product(head, args.hd as int, 0x200, 0x800);
    lemma_product(head, entry, 0x200, 0x800);
    lemma_product(head, mla.nope as int, 0x200, 0x400);
    lemma_product(head * mla.nope, mla.kv_lora_rank as int, 0x8_0000, 0x400);
    lemma_product(head, mla.v_dim as int, 0x200, 0x400);
    lemma_product(head * mla.v_dim, mla.kv_lora_rank as int, 0x8_0000, 0x400);
    lemma_product(head, mla.rope as int, 0x200, 0x400);
}

/// A decoding step fits wherever there are at most some hundreds of heads, each at
/// most a thousand wide.
pub proof fn law_ordinary_step_fits(
    layer: Qwen3AttentionLayer,
    ctx: ForwardContext,
    args: DecodeMlaArgs,
    kv: KvLayerPools,
    sparse_attention: bool,
)
    requires
        ordinary(layer, ctx, args),
    ensures
        layer.decode_fits(ctx, args, kv, sparse_attention),
{
    let mla = layer.weights();
    let entry = layer.cache_dim() as int;
    assert(entry == mla.kv_lora_rank + mla.rope);
    lemma_product(ctx.config.index_n_heads as int, ctx.config.index_head_dim as int, 0x200, 0x400);
    lemma_product(args.nq as int, layer.v_dim() as int, 0x200, 0x400);
    lemma_product(args.nq as int, entry, 0x200, 0x800);
    assert forall|head: int| 0 <= head < args.nq implies #[trigger] layer.absorb_head_fits(
        ctx,
        args,
        head,
    ) by {
        lemma_head_fits(layer, ctx, args, head);
    }
    assert forall|head: int| 0 <= head < args.nq implies #[trigger] layer.scatter_head_fits(
        ctx,
        args,
        head,
    ) by {
        lemma_head_fits(layer, ctx, args, head);
    }
    assert forall|head: int| 0 <= head < args.nq implies #[trigger] layer.writeback_head_fits(
        ctx,
        head,
    ) by {
        lemma_head_fits(layer, ctx, args, head);
    }
    assert forall|head: int| 0 <= head < args.nq implies #[trigger] layer.extract_head_fits(
        ctx,
        head,
    ) by {
        lemma_head_fits(layer, ctx, args, head);
    }
}

} // verus!
