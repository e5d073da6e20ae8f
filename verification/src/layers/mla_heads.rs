//! Heads one by one, where a kernel for all of them is missing.
use vstd::prelude::*;

use crate::device::{
    AttnMetadata, CommandOf, CommandView, DeviceCall, DevicePtr, KernelHandle,
};
use crate::layers::mla_decode::{DecodeMlaArgs, Qwen3AttentionLayer};
use crate::layers::values::stream_of;
use crate::layers::ForwardContext;

verus! {

/// The least that a command can do to the device.
pub enum Move {
    /// The `n` by `k` matrix at `weight` times what stands at `input`.
    Product { weight: DevicePtr, n: u32, k: u32, input: DevicePtr, output: DevicePtr },
    Copy { src: DevicePtr, dst: DevicePtr, bytes: int },
    Zero { dst: DevicePtr, bytes: int },
    /// A command that is not taken apart.
    Other(CommandView),
}

/// What one product for each of `heads` heads does, two bytes for each element.
pub open spec fn head_products(
    weight: DevicePtr,
    n: u32,
    k: u32,
    heads: u32,
    input: DevicePtr,
    input_stride: u32,
    output: DevicePtr,
    output_stride: u32,
) -> Seq<Move> {
    Seq::new(
        heads as nat,
        |head: int|
            Move::Product {
                weight: weight.plus(2 * (head * (n * k))),
                n,
                k,
                input: input.plus(2 * (head * input_stride)),
                output: output.plus(2 * (head * output_stride)),
            },
    )
}

/// The rotary part of head `head`, which follows `nope` elements, taken out of the
/// query and put behind the latent of the absorbed query.
pub open spec fn scattered_head(
    q_full: DevicePtr,
    q_rope: DevicePtr,
    q_absorbed: DevicePtr,
    head_dim: u32,
    nope: u32,
    rope: u32,
    kv_lora: u32,
    head: int,
) -> Seq<Move> {
    let src = q_full.plus(2 * (head * head_dim + nope));
    seq![
        Move::Copy { src, dst: q_rope.plus(2 * (head * rope)), bytes: 2 * rope as int },
        Move::Copy {
            src,
            dst: q_absorbed.plus(2 * (head * (kv_lora + rope) + kv_lora)),
            bytes: 2 * rope as int,
        },
    ]
}

pub open spec fn scattered(
    q_full: DevicePtr,
    q_rope: DevicePtr,
    q_absorbed: DevicePtr,
    head_dim: u32,
    nope: u32,
    rope: u32,
    kv_lora: u32,
    heads: nat,
) -> Seq<Move>
    decreases heads,
{
    if heads == 0 {
        Seq::empty()
    } else {
        scattered(
            q_full,
            q_rope,
            q_absorbed,
            head_dim,
            nope,
            rope,
            kv_lora,
            (heads - 1) as nat,
        ) + scattered_head(
            q_full,
            q_rope,
            q_absorbed,
            head_dim,
            nope,
            rope,
            kv_lora,
            heads - 1,
        )
    }
}

/// What a command of `layer` on `stream` does, taken apart head by head.
pub open spec fn moves(
    layer: Qwen3AttentionLayer,
    stream: u64,
    step: CommandView,
) -> Seq<Move> {
    match step {
        _ if stream_of(step) != Some(stream) => seq![Move::Other(step)],
        CommandOf::Call(DeviceCall::DenseGemv { kernel, input, weight, output, n, k, .. })
            if kernel == layer.dense_gemv_k => seq![
            Move::Product { weight: weight.weight, n, k, input, output },
        ],
        CommandOf::Call(DeviceCall::MlaBatchedGemv {
            input,
            weight,
            output,
            n,
            k,
            heads,
            input_stride,
            output_stride,
            ..
        }) => head_products(weight, n, k, heads, input, input_stride, output, output_stride),
        CommandOf::Call(DeviceCall::MlaQRopeScatter {
            q_full,
            q_absorbed,
            q_rope,
            heads,
            head_dim,
            nope,
            rope,
            kv_lora,
            ..
        }) => scattered(q_full, q_rope, q_absorbed, head_dim, nope, rope, kv_lora, heads as nat),
        CommandOf::Call(DeviceCall::MlaQRopeWriteback {
            q_rope,
            q_absorbed,
            heads,
            rope,
            kv_lora,
            ..
        }) => Seq::new(
            heads as nat,
            |head: int|
                Move::Copy {
                    src: q_rope.plus(2 * (head * rope)),
                    dst: q_absorbed.plus(2 * (head * (kv_lora + rope) + kv_lora)),
                    bytes: 2 * rope as int,
                },
        ),
        CommandOf::Call(DeviceCall::MlaCacheAssemble {
            kv_latent,
            k_rope,
            k_entry,
            v_entry,
            kv_lora,
            rope,
            ..
        }) => seq![
            Move::Copy { src: kv_latent, dst: k_entry, bytes: 2 * kv_lora as int },
            Move::Copy {
                src: k_rope,
                dst: k_entry.plus(2 * kv_lora as int),
                bytes: 2 * rope as int,
            },
            Move::Copy { src: kv_latent, dst: v_entry, bytes: 2 * kv_lora as int },
            Move::Zero { dst: v_entry.plus(2 * kv_lora as int), bytes: 2 * rope as int },
        ],
        CommandOf::Call(DeviceCall::CopyD2dAsync { src, dst, bytes, .. }) => seq![
            Move::Copy { src, dst, bytes: bytes as int },
        ],
        CommandOf::Call(DeviceCall::MemsetAsync { dst, value, bytes, .. }) => if value == 0 {
            seq![Move::Zero { dst, bytes: bytes as int }]
        } else {
            seq![Move::Other(step)]
        },
        _ => seq![Move::Other(step)],
    }
}

pub open spec fn all_moves(
    layer: Qwen3AttentionLayer,
    stream: u64,
    steps: Seq<CommandView>,
) -> Seq<Move>
    decreases steps.len(),
{
    if steps.len() == 0 {
        Seq::empty()
    } else {
        all_moves(layer, stream, steps.drop_last()) + moves(layer, stream, steps.last())
    }
}

proof fn lemma_moves_add(
    layer: Qwen3AttentionLayer,
    stream: u64,
    first: Seq<CommandView>,
    second: Seq<CommandView>,
)
    ensures
        all_moves(layer, stream, first + second) == all_moves(layer, stream, first) + all_moves(
            layer,
            stream,
            second,
        ),
    decreases second.len(),
{
    let before = all_moves(layer, stream, first);
    if second.len() == 0 {
        assert(first + second =~= first);
        assert(before + all_moves(layer, stream, second) =~= before);
    } else {
        lemma_moves_add(layer, stream, first, second.drop_last());
        assert((first + second).drop_last() =~= first + second.drop_last());
        let most = all_moves(layer, stream, second.drop_last());
        let last = moves(layer, stream, second.last());
        assert(before + (most + last) =~= before + most + last);
    }
}

proof fn lemma_moves_one(layer: Qwen3AttentionLayer, stream: u64, step: CommandView)
    ensures
        all_moves(layer, stream, seq![step]) == moves(layer, stream, step),
{
    reveal_with_fuel(all_moves, 2);
    assert(seq![step].drop_last() =~= Seq::<CommandView>::empty());
    assert(Seq::<Move>::empty() + moves(layer, stream, step) =~= moves(layer, stream, step));
}

/// Commands that do one thing each.
proof fn lemma_moves_each(
    layer: Qwen3AttentionLayer,
    stream: u64,
    steps: Seq<CommandView>,
    each: Seq<Move>,
)
    requires
        steps.len() == each.len(),
        forall|i: int|
            0 <= i < steps.len() ==> moves(layer, stream, #[trigger] steps[i]) == seq![each[i]],
    ensures
        all_moves(layer, stream, steps) == each,
    decreases steps.len(),
{
    if steps.len() > 0 {
        let rest = steps.drop_last();
        assert forall|i: int| 0 <= i < rest.len() implies moves(
            layer,
            stream,
            #[trigger] rest[i],
        ) == seq![each.drop_last()[i]] by {
            assert(rest[i] == steps[i]);
        }
        lemma_moves_each(layer, stream, rest, each.drop_last());
        assert(moves(layer, stream, steps[steps.len() - 1]) == seq![each[steps.len() - 1]]);
        assert(each.drop_last() + seq![each.last()] =~= each);
    } else {
        assert(each =~= Seq::empty());
    }
}

/// The ranks and widths of the layer are widths of kernels.
pub open spec fn widths_fit(layer: Qwen3AttentionLayer) -> bool {
    let mla = layer.mla->0;
    &&& mla.nope <= u32::MAX
    &&& mla.v_dim <= u32::MAX
    &&& mla.kv_lora_rank + mla.rope <= u32::MAX
    &&& (mla.kv_lora_rank + mla.rope) * 2 <= usize::MAX
}

/// Without the kernel for all heads, absorption and value extraction do what it
/// does, one head after the other: the same matrices, the same inputs, the same
/// outputs.
pub proof fn law_products_head_by_head(
    layer: Qwen3AttentionLayer,
    ctx: ForwardContext,
    args: DecodeMlaArgs,
)
    requires
        layer.mla_batched_gemv_k.present(),
        widths_fit(layer),
    ensures
        ({
            let bare = Qwen3AttentionLayer { mla_batched_gemv_k: KernelHandle::Raw(0), ..layer };
            let does = |steps: Seq<CommandView>| all_moves(layer, args.stream, steps);
            &&& does(bare.absorb_body(ctx, args)) == does(layer.absorb_body(ctx, args))
            &&& does(bare.extract_body(ctx, args)) == does(layer.extract_body(ctx, args))
        }),
{
    let bare = Qwen3AttentionLayer { mla_batched_gemv_k: KernelHandle::Raw(0), ..layer };
    let mla = layer.mla->0;
    let absorbed = moves(layer, args.stream, layer.absorb_body(ctx, args)[0]);
    let extracted = moves(layer, args.stream, layer.extract_body(ctx, args)[0]);
    assert(layer.absorb_body(ctx, args) =~= seq![layer.absorb_body(ctx, args)[0]]);
    assert(layer.extract_body(ctx, args) =~= seq![layer.extract_body(ctx, args)[0]]);
    lemma_moves_one(layer, args.stream, layer.absorb_body(ctx, args)[0]);
    lemma_moves_one(layer, args.stream, layer.extract_body(ctx, args)[0]);
    assert forall|head: int| 0 <= head < args.nq implies moves(layer, args.stream, 
        #[trigger] bare.absorb_body(ctx, args)[head],
    ) == seq![absorbed[head]] by {
        let nope = mla.nope as int;
        let rank = mla.kv_lora_rank as int;
        assert(head * nope * rank * 2 == 2 * (head * (rank * nope))) by (nonlinear_arith);
        assert(head * args.hd * 2 == 2 * (head * args.hd)) by (nonlinear_arith);
        assert(head * layer.cache_dim() * 2 == 2 * (head * layer.cache_dim())) by (nonlinear_arith);
    }
    assert forall|head: int| 0 <= head < args.nq implies moves(layer, args.stream, 
        #[trigger] bare.extract_body(ctx, args)[head],
    ) == seq![extracted[head]] by {
        let width = mla.v_dim as int;
        let rank = mla.kv_lora_rank as int;
        assert(head * width * rank * 2 == 2 * (head * (width * rank))) by (nonlinear_arith);
        assert(head * width * 2 == 2 * (head * width)) by (nonlinear_arith);
        assert(head * layer.cache_dim() * 2 == 2 * (head * layer.cache_dim())) by (nonlinear_arith);
    }
    lemma_moves_each(layer, args.stream, bare.absorb_body(ctx, args), absorbed);
    lemma_moves_each(layer, args.stream, bare.extract_body(ctx, args), extracted);
}

proof fn lemma_scattered(
    layer: Qwen3AttentionLayer,
    bare: Qwen3AttentionLayer,
    ctx: ForwardContext,
    args: DecodeMlaArgs,
    count: nat,
)
    requires
        widths_fit(bare),
    ensures
        all_moves(layer, args.stream, bare.scatter_heads(ctx, args, count)) == scattered(
            ctx.buffers.ssm_deinterleaved,
            ctx.buffers.ssm_conv_out_f32,
            ctx.buffers.expert_up_out,
            args.hd,
            bare.mla->0.nope as u32,
            bare.mla->0.rope as u32,
            bare.mla->0.kv_lora_rank as u32,
            count,
        ),
    decreases count,
{
    if count > 0 {
        let head = count - 1;
        let mla = bare.mla->0;
        let rope = mla.rope as int;
        let rank = mla.kv_lora_rank as int;
        let before = bare.scatter_heads(ctx, args, head as nat);
        let steps = bare.scatter_heads(ctx, args, count);
        let own = steps.skip(before.len() as int);
        assert(steps =~= before + own);
        lemma_scattered(layer, bare, ctx, args, head as nat);
        lemma_moves_add(layer, args.stream, before, own);
        let each = scattered_head(
            ctx.buffers.ssm_deinterleaved,
            ctx.buffers.ssm_conv_out_f32,
            ctx.buffers.expert_up_out,
            args.hd,
            mla.nope as u32,
            mla.rope as u32,
            mla.kv_lora_rank as u32,
            head,
        );
        assert(head * rope * 2 == 2 * (head * rope)) by (nonlinear_arith);
        assert(bare.cache_dim() == rank + rope);
        assert(own.len() == 2);
        assert(moves(layer, args.stream, own[0]) =~= seq![each[0]]);
        assert(moves(layer, args.stream, own[1]) =~= seq![each[1]]);
        lemma_moves_each(layer, args.stream, own, each);
    }
}

/// Without the kernels that move rotary parts, copies move them one head after the
/// other, from where and to where the kernels do.
pub proof fn law_rotary_parts_head_by_head(
    layer: Qwen3AttentionLayer,
    ctx: ForwardContext,
    args: DecodeMlaArgs,
    meta: AttnMetadata,
)
    requires
        layer.mla_q_rope_scatter_k.present(),
        layer.mla_q_rope_writeback_k.present(),
        widths_fit(layer),
    ensures
        ({
            let bare = Qwen3AttentionLayer {
                mla_q_rope_scatter_k: KernelHandle::Raw(0),
                mla_q_rope_writeback_k: KernelHandle::Raw(0),
                ..layer
            };
            let does = |steps: Seq<CommandView>| all_moves(layer, args.stream, steps);
            &&& does(bare.scatter_body(ctx, args)) == does(layer.scatter_body(ctx, args))
            &&& does(bare.rope_body(ctx, args, meta)) == does(layer.rope_body(ctx, args, meta))
        }),
{
    let bare = Qwen3AttentionLayer {
        mla_q_rope_scatter_k: KernelHandle::Raw(0),
        mla_q_rope_writeback_k: KernelHandle::Raw(0),
        ..layer
    };
    let mla = layer.mla->0;
    let scatter = layer.scatter_body(ctx, args);
    assert(scatter =~= seq![scatter[0]]);
    lemma_moves_one(layer, args.stream, scatter[0]);
    lemma_scattered(layer, bare, ctx, args, args.nq as nat);
    if layer.rope() > 0 {
        let first = layer.rope_body(ctx, args, meta).take(2);
        let whole = layer.rope_body(ctx, args, meta)[2];
        let each = moves(layer, args.stream, whole);
        let heads = bare.writeback_heads(ctx, args, args.nq as nat);
        assert(layer.rope_body(ctx, args, meta) =~= first + seq![whole]);
        assert(bare.rope_body(ctx, args, meta) =~= first + heads);
        lemma_moves_add(layer, args.stream, first, seq![whole]);
        lemma_moves_add(layer, args.stream, first, heads);
        lemma_moves_one(layer, args.stream, whole);
        assert forall|head: int| 0 <= head < heads.len() implies moves(
            layer,
            args.stream,
            #[trigger] heads[head],
        ) == seq![each[head]] by {
            let rope = mla.rope as int;
            assert(head * rope * 2 == 2 * (head * rope)) by (nonlinear_arith);
            assert(layer.cache_dim() == mla.kv_lora_rank + mla.rope);
        }
        lemma_moves_each(layer, args.stream, heads, each);
    }
}

/// Without the kernel that assembles a cache entry, copies assemble it: the latent
/// in both entries, the rotary key behind the one and zeros behind the other.
pub proof fn law_entry_part_by_part(
    layer: Qwen3AttentionLayer,
    ctx: ForwardContext,
    args: DecodeMlaArgs,
)
    requires
        layer.mla_cache_assemble_k.present(),
        widths_fit(layer),
    ensures
        ({
            let bare = Qwen3AttentionLayer { mla_cache_assemble_k: KernelHandle::Raw(0), ..layer };
            let does = |steps: Seq<CommandView>| all_moves(layer, args.stream, steps);
            does(bare.cache_entry(ctx, args)) == does(layer.cache_entry(ctx, args))
        }),
{
    let bare = Qwen3AttentionLayer { mla_cache_assemble_k: KernelHandle::Raw(0), ..layer };
    let whole = layer.cache_entry(ctx, args);
    let parts = bare.cache_entry(ctx, args);
    let each = moves(layer, args.stream, whole[0]);
    assert(whole =~= seq![whole[0]]);
    lemma_moves_one(layer, args.stream, whole[0]);
    assert(parts.len() == 4 && each.len() == 4);
    assert(moves(layer, args.stream, parts[0]) =~= seq![each[0]]);
    assert(moves(layer, args.stream, parts[1]) =~= seq![each[1]]);
    assert(moves(layer, args.stream, parts[2]) =~= seq![each[2]]);
    assert(moves(layer, args.stream, parts[3]) =~= seq![each[3]]);
    lemma_moves_each(layer, args.stream, parts, each);
}

} // verus!
