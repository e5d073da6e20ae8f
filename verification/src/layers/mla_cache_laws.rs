//! What a decode step reads back of what it wrote.
use vstd::prelude::*;

use crate::device::{
    chain, closing, opening, AttnMetadata, CommandOf, CommandView, DeviceCall, KernelArg,
};
use crate::layers::index_selection::{selection, IndexSelection};
use crate::layers::mla_decode::{DecodeMlaArgs, KvLayerPools, Qwen3AttentionLayer};
use crate::layers::mla_laws::{
    is_store, lemma_attention, lemma_entry, lemma_output_section, storeless,
};
use crate::layers::ForwardContext;
use crate::weight_map::Glm5IndexerWeights;

verus! {

/// Whether a command attends, on behalf of `layer`, over the cache in the pools
/// of `kv`: the kernel over the whole cache, or the one over selected tokens.
pub open spec fn attends(
    step: CommandView,
    layer: Qwen3AttentionLayer,
    kv: KvLayerPools,
) -> bool {
    match step {
        CommandOf::Call(DeviceCall::PagedDecodeAttention { kernel, k_pool, v_pool, .. }) => {
            kernel == layer.paged_decode_mla_k && k_pool == kv.k_pool && v_pool == kv.v_pool
        },
        CommandOf::Launch(launch) => {
            &&& launch.kernel == layer.glm_selected_mla_k
            &&& launch.args.len() == 11
            &&& launch.args[1] == KernelArg::Ptr(kv.k_pool)
            &&& launch.args[2] == KernelArg::Ptr(kv.v_pool)
        },
        _ => false,
    }
}

/// Whether a command writes an entry to the cache of `layer`, in the pools of
/// `kv`.
pub open spec fn stores(step: CommandView, layer: Qwen3AttentionLayer, kv: KvLayerPools) -> bool {
    match step {
        CommandOf::Call(DeviceCall::WriteKvCache { layer: number, k_pool, v_pool, .. }) => {
            number == layer.attn_layer_idx && k_pool == kv.k_pool && v_pool == kv.v_pool
        },
        _ => false,
    }
}

/// Whether a command writes raw keys and gates, on behalf of `layer`, to the
/// index pool of `kv`.
pub open spec fn files(step: CommandView, layer: Qwen3AttentionLayer, kv: KvLayerPools) -> bool {
    match step {
        CommandOf::Launch(launch) => {
            &&& launch.kernel == layer.glm_index_write_k
            &&& launch.args.len() == 8
            &&& kv.index_raw_pool is Some
            &&& launch.args[3] == KernelArg::Ptr(kv.index_raw_pool->0)
        },
        _ => false,
    }
}

/// Whether a command searches, on behalf of `layer`, the index pool of `kv`.
pub open spec fn searches(step: CommandView, layer: Qwen3AttentionLayer, kv: KvLayerPools) -> bool {
    match step {
        CommandOf::Launch(launch) => {
            &&& launch.kernel == layer.glm_index_select_k
            &&& launch.args.len() == 13
            &&& kv.index_raw_pool is Some
            &&& launch.args[1] == KernelArg::Ptr(kv.index_raw_pool->0)
        },
        _ => false,
    }
}

/// One of the commands is of the kind.
#[verifier::opaque]
spec fn somewhere(steps: Seq<CommandView>, kind: spec_fn(CommandView) -> bool) -> bool {
    exists|i: int| 0 <= i < steps.len() && kind(#[trigger] steps[i])
}

proof fn lemma_somewhere_add(
    first: Seq<CommandView>,
    second: Seq<CommandView>,
    kind: spec_fn(CommandView) -> bool,
)
    ensures
        somewhere(first, kind) || somewhere(second, kind) ==> somewhere(first + second, kind),
{
    reveal(somewhere);
    let both = first + second;
    if somewhere(first, kind) {
        let i = choose|i: int| 0 <= i < first.len() && kind(#[trigger] first[i]);
        assert(both[i] == first[i]);
    }
    if somewhere(second, kind) {
        let i = choose|i: int| 0 <= i < second.len() && kind(#[trigger] second[i]);
        assert(both[first.len() + i] == second[i]);
    }
}

/// A command of one kind in `first` comes before one of the other in `second`.
proof fn lemma_in_order(
    first: Seq<CommandView>,
    between: Seq<CommandView>,
    second: Seq<CommandView>,
    rest: Seq<CommandView>,
    early: spec_fn(CommandView) -> bool,
    late: spec_fn(CommandView) -> bool,
)
    requires
        somewhere(first, early),
        somewhere(second, late),
    ensures
        exists|i: int, j: int|
            0 <= i < j < (first + between + second + rest).len() && early(
                #[trigger] (first + between + second + rest)[i],
            ) && late(#[trigger] (first + between + second + rest)[j]),
{
    reveal(somewhere);
    let all = first + between + second + rest;
    let i = choose|i: int| 0 <= i < first.len() && early(#[trigger] first[i]);
    let j = choose|j: int| 0 <= j < second.len() && late(#[trigger] second[j]);
    assert(all[i] == first[i]);
    assert(all[first.len() + between.len() + j] == second[j]);
}

/// A section around a run of commands holds what they hold.
proof fn lemma_somewhere_timed(
    profile: bool,
    label: &'static str,
    after_failure: bool,
    stream: u64,
    body: Seq<CommandView>,
    kind: spec_fn(CommandView) -> bool,
)
    requires
        somewhere(body, kind),
    ensures
        somewhere(
            opening(profile) + body + closing(profile, label, after_failure, stream),
            kind,
        ),
{
    lemma_somewhere_add(opening(profile), body, kind);
    lemma_somewhere_add(
        opening(profile) + body,
        closing(profile, label, after_failure, stream),
        kind,
    );
}

proof fn lemma_entry_stored(
    layer: Qwen3AttentionLayer,
    ctx: ForwardContext,
    args: DecodeMlaArgs,
    kv: KvLayerPools,
    sparse_attention: bool,
)
    ensures
        somewhere(
            layer.entry_steps(ctx, args, kv, sparse_attention),
            |step: CommandView| stores(step, layer, kv),
        ),
{
    let kind = |step: CommandView| stores(step, layer, kv);
    let body = layer.cache_body(ctx, args, ctx.attn_metadata->0, kv);
    assert(somewhere(body, kind)) by {
        reveal(somewhere);
        assert(kind(body[layer.cache_entry(ctx, args).len() as int]));
    }
    lemma_somewhere_timed(ctx.profile, "cache_asm+write", true, args.stream, body, kind);
    lemma_somewhere_add(
        layer.entry_prefix(ctx, args, sparse_attention),
        layer.cache_steps(ctx, args, ctx.attn_metadata->0, kv),
        kind,
    );
}

proof fn lemma_attended(
    layer: Qwen3AttentionLayer,
    ctx: ForwardContext,
    args: DecodeMlaArgs,
    kv: KvLayerPools,
    sparse_attention: bool,
)
    requires
        layer.attention_trace(ctx, args, kv, sparse_attention).outcome is Ok,
    ensures
        somewhere(
            layer.attention_trace(ctx, args, kv, sparse_attention).steps,
            |step: CommandView| attends(step, layer, kv),
        ),
{
    let kind = |step: CommandView| attends(step, layer, kv);
    let meta = ctx.attn_metadata->0;
    match layer.active_indexer(sparse_attention) {
        None => {
            let body = layer.paged_body(ctx, args, meta, kv);
            assert(somewhere(body, kind)) by {
                reveal(somewhere);
                assert(kind(body[0]));
            }
            lemma_somewhere_timed(ctx.profile, "paged_attn", true, args.stream, body, kind);
        },
        Some(indexer) => {
            let chosen = selection(*ctx.config, args.pos)->Ok_0;
            let selected = layer.select_trace(ctx, args, meta, kv, indexer, chosen);
            let expanded = layer.expand_trace(ctx, args, chosen);
            let dispatch = layer.attend_dispatch(ctx, args, meta, kv, chosen);
            let body = Seq::<CommandView>::empty() + dispatch.steps;
            assert(somewhere(body, kind)) by {
                reveal(somewhere);
                assert(kind(body[0]));
            }
            lemma_somewhere_timed(ctx.profile, "glm_selected_mla", true, args.stream, body, kind);
            lemma_somewhere_add(
                chain(selected, expanded).steps,
                layer.attend_selected_trace(ctx, args, meta, kv, chosen).steps,
                kind,
            );
        },
    }
}

/// No command of the section writes elsewhere than to the cache of the layer.
proof fn lemma_own_cache(
    layer: Qwen3AttentionLayer,
    ctx: ForwardContext,
    args: DecodeMlaArgs,
    kv: KvLayerPools,
)
    ensures
        forall|i: int|
            0 <= i < layer.cache_steps(ctx, args, ctx.attn_metadata->0, kv).len() && is_store(
                #[trigger] layer.cache_steps(ctx, args, ctx.attn_metadata->0, kv)[i],
            ) ==> stores(layer.cache_steps(ctx, args, ctx.attn_metadata->0, kv)[i], layer, kv),
{
}

/// A decode step writes its entry to the cache of its own layer and to no other,
/// and the attention that follows reads that cache: in a step that succeeds, the
/// write to the pools of the layer comes before an attention over the same pools,
/// by the kernel over the whole cache or by the one over selected tokens.
pub proof fn law_attends_to_what_it_stored(
    layer: Qwen3AttentionLayer,
    ctx: ForwardContext,
    args: DecodeMlaArgs,
    kv: KvLayerPools,
    sparse_attention: bool,
)
    requires
        layer.decode_trace(ctx, args, kv, sparse_attention).outcome is Ok,
    ensures
        ({
            let steps = layer.decode_trace(ctx, args, kv, sparse_attention).steps;
            &&& exists|i: int, j: int|
                0 <= i < j < steps.len() && stores(#[trigger] steps[i], layer, kv) && attends(
                    #[trigger] steps[j],
                    layer,
                    kv,
                )
            &&& forall|i: int|
                0 <= i < steps.len() && is_store(#[trigger] steps[i]) ==> stores(
                    steps[i],
                    layer,
                    kv,
                )
        }),
{
    let steps = layer.decode_trace(ctx, args, kv, sparse_attention).steps;
    let prefix = layer.entry_prefix(ctx, args, sparse_attention);
    let cache = layer.cache_steps(ctx, args, ctx.attn_metadata->0, kv);
    let entry = layer.entry_steps(ctx, args, kv, sparse_attention);
    let stored = layer.sidecar_trace(ctx, args, kv, sparse_attention).steps;
    let attended = layer.attention_trace(ctx, args, kv, sparse_attention).steps;
    let output = layer.output_steps(ctx, args);
    assert(steps == entry + stored + attended + output);
    assert(exists|i: int, j: int|
        0 <= i < j < steps.len() && stores(#[trigger] steps[i], layer, kv) && attends(
            #[trigger] steps[j],
            layer,
            kv,
        )) by {
        let early = |step: CommandView| stores(step, layer, kv);
        let late = |step: CommandView| attends(step, layer, kv);
        lemma_entry_stored(layer, ctx, args, kv, sparse_attention);
        lemma_attended(layer, ctx, args, kv, sparse_attention);
        lemma_in_order(entry, stored, attended, output, early, late);
        let (i, j) = choose|i: int, j: int|
            0 <= i < j < steps.len() && early(#[trigger] steps[i]) && late(#[trigger] steps[j]);
        assert(stores(steps[i], layer, kv) && attends(steps[j], layer, kv));
    }
    assert forall|i: int| 0 <= i < steps.len() && is_store(#[trigger] steps[i]) implies stores(
        steps[i],
        layer,
        kv,
    ) by {
        lemma_entry(layer, ctx, args, kv, sparse_attention);
        lemma_attention(layer, ctx, args, kv, sparse_attention);
        lemma_output_section(layer, ctx, args);
        lemma_own_cache(layer, ctx, args, kv);
        lemma_store_place(prefix, cache, stored, attended, output, i);
    }
}

/// Where nothing else stores, a write to a cache stands in the cache section.
proof fn lemma_store_place(
    prefix: Seq<CommandView>,
    cache: Seq<CommandView>,
    stored: Seq<CommandView>,
    attended: Seq<CommandView>,
    output: Seq<CommandView>,
    i: int,
)
    requires
        storeless(prefix),
        storeless(stored),
        storeless(attended),
        storeless(output),
        0 <= i < (prefix + cache + stored + attended + output).len(),
        is_store((prefix + cache + stored + attended + output)[i]),
    ensures
        prefix.len() <= i < prefix.len() + cache.len(),
        (prefix + cache + stored + attended + output)[i] == cache[i - prefix.len()],
{
    reveal(storeless);
    let step = (prefix + cache + stored + attended + output)[i];
    let after_cache = i - prefix.len() - cache.len();
    if i < prefix.len() {
        assert(step == prefix[i]);
    } else if after_cache < 0 {
    } else if after_cache < stored.len() {
        assert(step == stored[after_cache]);
    } else if after_cache < stored.len() + attended.len() {
        assert(step == attended[after_cache - stored.len()]);
    } else {
        assert(step == output[after_cache - stored.len() - attended.len()]);
    }
}

/// The indexer searches the pool that it fills: in a step that succeeds and keeps
/// a pool, the raw key of the token is written to the index pool of the layer
/// before that pool is searched.
pub proof fn law_searches_what_it_filed(
    layer: Qwen3AttentionLayer,
    ctx: ForwardContext,
    args: DecodeMlaArgs,
    kv: KvLayerPools,
    indexer: Glm5IndexerWeights,
    chosen: IndexSelection,
)
    requires
        layer.active_indexer(true) == Some(indexer),
        layer.decode_trace(ctx, args, kv, true).outcome is Ok,
        selection(*ctx.config, args.pos) matches Ok(found) && found == chosen,
        chosen.select_count > 0,
    ensures
        ({
            let steps = layer.decode_trace(ctx, args, kv, true).steps;
            exists|i: int, j: int|
                0 <= i < j < steps.len() && files(#[trigger] steps[i], layer, kv) && searches(
                    #[trigger] steps[j],
                    layer,
                    kv,
                )
        }),
{
    let meta = ctx.attn_metadata->0;
    let early = |step: CommandView| files(step, layer, kv);
    let late = |step: CommandView| searches(step, layer, kv);
    let steps = layer.decode_trace(ctx, args, kv, true).steps;
    let entry = layer.entry_steps(ctx, args, kv, true);
    let stored = layer.sidecar_trace(ctx, args, kv, true).steps;
    let attended = layer.attention_trace(ctx, args, kv, true).steps;
    let output = layer.output_steps(ctx, args);
    assert(steps == entry + stored + attended + output);
    lemma_filed(layer, ctx, args, meta, kv, indexer);
    lemma_searched(layer, ctx, args, meta, kv, indexer, chosen);
    lemma_somewhere_add(entry, stored, early);
    let nothing = Seq::<CommandView>::empty();
    lemma_in_order(entry + stored, nothing, attended, output, early, late);
    assert(entry + stored + nothing =~= entry + stored);
    let (i, j) = choose|i: int, j: int|
        0 <= i < j < steps.len() && early(#[trigger] steps[i]) && late(#[trigger] steps[j]);
    assert(files(steps[i], layer, kv) && searches(steps[j], layer, kv));
}

proof fn lemma_filed(
    layer: Qwen3AttentionLayer,
    ctx: ForwardContext,
    args: DecodeMlaArgs,
    meta: AttnMetadata,
    kv: KvLayerPools,
    indexer: Glm5IndexerWeights,
)
    requires
        layer.index_cache_trace(ctx, args, meta, kv, indexer).outcome is Ok,
    ensures
        somewhere(
            layer.index_cache_trace(ctx, args, meta, kv, indexer).steps,
            |step: CommandView| files(step, layer, kv),
        ),
        kv.index_raw_pool is Some,
{
    let kind = |step: CommandView| files(step, layer, kv);
    let before = layer.index_key(ctx, args, indexer) + layer.index_norm(ctx, args, indexer).steps
        + layer.index_gate(ctx, args, indexer);
    let written = layer.index_write(ctx, args, meta, kv).steps;
    assert(somewhere(written, kind)) by {
        reveal(somewhere);
        assert(kind(written[0]));
    }
    lemma_somewhere_add(before, written, kind);
    lemma_somewhere_timed(
        ctx.profile,
        "glm_index_cache",
        true,
        args.stream,
        before + written,
        kind,
    );
}

proof fn lemma_searched(
    layer: Qwen3AttentionLayer,
    ctx: ForwardContext,
    args: DecodeMlaArgs,
    meta: AttnMetadata,
    kv: KvLayerPools,
    indexer: Glm5IndexerWeights,
    chosen: IndexSelection,
)
    requires
        kv.index_raw_pool is Some,
        chosen.select_count > 0,
        selection(*ctx.config, args.pos) matches Ok(found) && found == chosen,
        layer.sparse_trace(ctx, args, meta, kv, indexer).outcome is Ok,
    ensures
        somewhere(
            layer.sparse_trace(ctx, args, meta, kv, indexer).steps,
            |step: CommandView| searches(step, layer, kv),
        ),
{
    let kind = |step: CommandView| searches(step, layer, kv);
    let selected = layer.select_trace(ctx, args, meta, kv, indexer, chosen);
    let expanded = layer.expand_trace(ctx, args, chosen);
    let dispatch = layer.select_dispatch(ctx, args, meta, kv, indexer, chosen);
    let body = Seq::<CommandView>::empty() + dispatch.steps;
    assert(somewhere(body, kind)) by {
        reveal(somewhere);
        assert(kind(body[0]));
    }
    lemma_somewhere_timed(ctx.profile, "glm_index_select", true, args.stream, body, kind);
    lemma_somewhere_add(selected.steps, expanded.steps, kind);
    lemma_somewhere_add(
        chain(selected, expanded).steps,
        layer.attend_selected_trace(ctx, args, meta, kv, chosen).steps,
        kind,
    );
}

} // verus!
