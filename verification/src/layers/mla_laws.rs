//! What holds of every decode step with latent attention.
use vstd::prelude::*;

use crate::device::{
    call, chain, closing, done, opening, timed, AttnMetadata, CommandOf, CommandView, DeviceCall,
    Trace,
};
use crate::layers::index_selection::{selection, IndexSelection};
use crate::layers::mla_decode::{DecodeMlaArgs, KvLayerPools, Qwen3AttentionLayer};
use crate::layers::mla_index::{dispatch_section, DecodeError};
use crate::layers::ForwardContext;
use crate::ops::OpsError;
use crate::weight_map::Glm5IndexerWeights;

verus! {

/// Whether a command only begins or ends a timed section.
pub open spec fn is_mark(step: CommandView) -> bool {
    match step {
        CommandOf::Call(DeviceCall::ProfileStart) => true,
        CommandOf::Call(DeviceCall::ProfileEnd { .. }) => true,
        _ => false,
    }
}

/// The commands that are no section marks, in order.
pub open spec fn unmarked(steps: Seq<CommandView>) -> Seq<CommandView> {
    steps.filter(|step: CommandView| !is_mark(step))
}

/// None of the commands is a section mark.
#[verifier::opaque]
pub open spec fn markless(steps: Seq<CommandView>) -> bool {
    forall|i: int| 0 <= i < steps.len() ==> !is_mark(#[trigger] steps[i])
}

/// The same context with profiling off.
pub open spec fn unprofiled<'a>(ctx: ForwardContext<'a>) -> ForwardContext<'a> {
    ForwardContext { profile: false, ..ctx }
}

/// `quiet` is `full` without its section marks.
pub open spec fn quiets<T, E>(full: Trace<T, E>, quiet: Trace<T, E>) -> bool {
    &&& unmarked(full.steps) == quiet.steps
    &&& full.outcome == quiet.outcome
}

proof fn lemma_unmarked_add(first: Seq<CommandView>, second: Seq<CommandView>)
    ensures
        unmarked(first + second) == unmarked(first) + unmarked(second),
{
    Seq::filter_distributes_over_add(first, second, |step: CommandView| !is_mark(step));
}

proof fn lemma_unmarked_markless(steps: Seq<CommandView>)
    requires
        markless(steps),
    ensures
        unmarked(steps) == steps,
    decreases steps.len(),
{
    reveal(Seq::filter);
    reveal(markless);
    if steps.len() > 0 {
        let rest = steps.drop_last();
        assert forall|i: int| 0 <= i < rest.len() implies !is_mark(#[trigger] rest[i]) by {
            assert(rest[i] == steps[i]);
        }
        lemma_unmarked_markless(rest);
        assert(steps =~= rest.push(steps.last()));
    }
}

proof fn lemma_unmarked_one(step: CommandView)
    ensures
        is_mark(step) ==> unmarked(seq![step]) == Seq::<CommandView>::empty(),
        !is_mark(step) ==> unmarked(seq![step]) == seq![step],
{
    reveal(Seq::filter);
    reveal_with_fuel(Seq::filter, 2);
    let steps = seq![step];
    assert(steps.drop_last() =~= Seq::<CommandView>::empty());
    assert(steps =~= Seq::<CommandView>::empty().push(step));
}

proof fn lemma_unmarked_opening(profile: bool)
    ensures
        unmarked(opening(profile)) == Seq::<CommandView>::empty(),
{
    if profile {
        lemma_unmarked_one(call(DeviceCall::ProfileStart));
    } else {
        reveal(markless);
        lemma_unmarked_markless(opening(profile));
    }
}

/// A timed section without its marks is its body.
proof fn lemma_unmarked_timed(
    profile: bool,
    label: &'static str,
    after_failure: bool,
    stream: u64,
    body: Seq<CommandView>,
)
    requires
        markless(body),
    ensures
        unmarked(timed(profile, label, after_failure, stream, body)) == body,
{
    let first = opening(profile);
    let last = closing(profile, label, after_failure, stream);
    lemma_unmarked_add(first + body, last);
    lemma_unmarked_add(first, body);
    lemma_unmarked_opening(profile);
    lemma_unmarked_markless(body);
    if profile {
        lemma_unmarked_one(call(DeviceCall::ProfileEnd { label, after_failure, stream }));
    } else {
        lemma_nothing();
        lemma_unmarked_markless(last);
    }
    assert(Seq::<CommandView>::empty() + body + Seq::<CommandView>::empty() =~= body);
}

proof fn lemma_quiets_chain<A, B, E>(
    first: Trace<A, E>,
    first_quiet: Trace<A, E>,
    second: Trace<B, E>,
    second_quiet: Trace<B, E>,
)
    requires
        quiets(first, first_quiet),
        quiets(second, second_quiet),
    ensures
        quiets(chain(first, second), chain(first_quiet, second_quiet)),
{
    lemma_unmarked_add(first.steps, second.steps);
}

/// Nothing holds no mark.
proof fn lemma_nothing()
    ensures
        markless(Seq::empty()),
        unmarked(Seq::empty()) == Seq::<CommandView>::empty(),
{
    reveal(markless);
    lemma_unmarked_markless(Seq::empty());
}

/// Whether a command writes to a key/value cache.
pub open spec fn is_store(step: CommandView) -> bool {
    step matches CommandOf::Call(DeviceCall::WriteKvCache { .. })
}

/// None of the commands writes to a key/value cache.
#[verifier::opaque]
pub open spec fn storeless(steps: Seq<CommandView>) -> bool {
    forall|i: int| 0 <= i < steps.len() ==> !is_store(#[trigger] steps[i])
}

/// What holds of two runs of commands holds of the one after the other.
pub(crate) proof fn lemma_plain_add(first: Seq<CommandView>, second: Seq<CommandView>)
    ensures
        markless(first) && markless(second) ==> markless(first + second),
        storeless(first) && storeless(second) ==> storeless(first + second),
{
    reveal(markless);
    reveal(storeless);
}

/// Section marks write to no cache.
proof fn lemma_marks_store_nothing(
    profile: bool,
    label: &'static str,
    after_failure: bool,
    stream: u64,
)
    ensures
        storeless(opening(profile)),
        storeless(closing(profile, label, after_failure, stream)),
{
    reveal(storeless);
}

/// A section whose body does not depend on profiling: off, it records the body,
/// and on, it records marks besides.
proof fn lemma_section(
    profile: bool,
    label: &'static str,
    wait: bool,
    stream: u64,
    body: Seq<CommandView>,
    quiet_body: Seq<CommandView>,
)
    requires
        body == quiet_body,
        markless(body),
    ensures
        unmarked(timed(profile, label, wait, stream, body)) == timed(
            false,
            label,
            wait,
            stream,
            quiet_body,
        ),
        storeless(body) ==> storeless(timed(profile, label, wait, stream, body)),
{
    lemma_unmarked_timed(profile, label, wait, stream, body);
    assert(timed(false, label, wait, stream, body) =~= body);
    lemma_marks_store_nothing(profile, label, wait, stream);
    lemma_plain_add(opening(profile), body);
    lemma_plain_add(opening(profile) + body, closing(profile, label, wait, stream));
}

pub(crate) proof fn lemma_scatter_heads(
    layer: Qwen3AttentionLayer,
    ctx: ForwardContext,
    args: DecodeMlaArgs,
    count: nat,
)
    ensures
        layer.scatter_heads(unprofiled(ctx), args, count) == layer.scatter_heads(ctx, args, count),
        markless(layer.scatter_heads(ctx, args, count)),
        storeless(layer.scatter_heads(ctx, args, count)),
    decreases count,
{
    reveal(markless);
    reveal(storeless);
    if count > 0 {
        lemma_scatter_heads(layer, ctx, args, (count - 1) as nat);
    }
}

proof fn lemma_absorb_section(
    layer: Qwen3AttentionLayer,
    ctx: ForwardContext,
    args: DecodeMlaArgs,
)
    ensures
        unmarked(layer.absorb_steps(ctx, args)) == layer.absorb_steps(
            unprofiled(ctx),
            args,
        ),
        storeless(layer.absorb_steps(ctx, args)),
{
    let quiet = unprofiled(ctx);
    let body = layer.absorb_body(ctx, args);
    let quiet_body = layer.absorb_body(quiet, args);
    assert(body =~= quiet_body);
    assert(markless(body)) by {
        reveal(markless);
    }
    assert(storeless(body)) by {
        reveal(storeless);
    }
    lemma_section(
        ctx.profile,
        "q_absorb",
        layer.mla_batched_gemv_k.present(),
        args.stream,
        body,
        quiet_body,
    );
}

proof fn lemma_scatter_section(
    layer: Qwen3AttentionLayer,
    ctx: ForwardContext,
    args: DecodeMlaArgs,
)
    ensures
        unmarked(layer.scatter_steps(ctx, args)) == layer.scatter_steps(
            unprofiled(ctx),
            args,
        ),
        storeless(layer.scatter_steps(ctx, args)),
{
    let quiet = unprofiled(ctx);
    lemma_scatter_heads(layer, ctx, args, args.nq as nat);
    let body = layer.scatter_body(ctx, args);
    let quiet_body = layer.scatter_body(quiet, args);
    assert(body =~= quiet_body);
    assert(markless(body)) by {
        reveal(markless);
    }
    assert(storeless(body)) by {
        reveal(storeless);
    }
    lemma_section(
        ctx.profile,
        "q_rope_scatter",
        layer.mla_q_rope_scatter_k.present(),
        args.stream,
        body,
        quiet_body,
    );
}

proof fn lemma_index_query_section(
    layer: Qwen3AttentionLayer,
    ctx: ForwardContext,
    args: DecodeMlaArgs,
    indexer: Glm5IndexerWeights,
)
    ensures
        unmarked(layer.index_query_steps(ctx, args, indexer)) == layer.index_query_steps(
            unprofiled(ctx),
            args,
            indexer,
        ),
        storeless(layer.index_query_steps(ctx, args, indexer)),
{
    let quiet = unprofiled(ctx);
    let body = layer.index_query_body(ctx, args, indexer);
    let quiet_body = layer.index_query_body(quiet, args, indexer);
    assert(body =~= quiet_body);
    assert(markless(body)) by {
        reveal(markless);
    }
    assert(storeless(body)) by {
        reveal(storeless);
    }
    lemma_section(ctx.profile, "glm_index_query", true, args.stream, body, quiet_body);
}

proof fn lemma_latent_section(
    layer: Qwen3AttentionLayer,
    ctx: ForwardContext,
    args: DecodeMlaArgs,
)
    ensures
        unmarked(layer.latent_steps(ctx, args)) == layer.latent_steps(
            unprofiled(ctx),
            args,
        ),
        storeless(layer.latent_steps(ctx, args)),
{
    let quiet = unprofiled(ctx);
    let body = layer.latent_body(ctx, args);
    let quiet_body = layer.latent_body(quiet, args);
    assert(body =~= quiet_body);
    assert(markless(body)) by {
        reveal(markless);
    }
    assert(storeless(body)) by {
        reveal(storeless);
    }
    lemma_section(ctx.profile, "wkv_a+norm", true, args.stream, body, quiet_body);
}

proof fn lemma_rope_section(
    layer: Qwen3AttentionLayer,
    ctx: ForwardContext,
    args: DecodeMlaArgs,
    meta: AttnMetadata,
)
    ensures
        unmarked(layer.rope_steps(ctx, args, meta)) == layer.rope_steps(
            unprofiled(ctx),
            args,
            meta,
        ),
        storeless(layer.rope_steps(ctx, args, meta)),
{
    let quiet = unprofiled(ctx);
    assert(layer.writeback_heads(quiet, args, args.nq as nat) =~= layer.writeback_heads(
        ctx,
        args,
        args.nq as nat,
    ));
    let body = layer.rope_body(ctx, args, meta);
    let quiet_body = layer.rope_body(quiet, args, meta);
    assert(body =~= quiet_body);
    assert(markless(body)) by {
        reveal(markless);
    }
    assert(storeless(body)) by {
        reveal(storeless);
    }
    lemma_section(
        ctx.profile,
        "k_rope+RoPE+wb",
        layer.rope() > 0 && layer.mla_q_rope_writeback_k.present(),
        args.stream,
        body,
        quiet_body,
    );
}

proof fn lemma_cache_section(
    layer: Qwen3AttentionLayer,
    ctx: ForwardContext,
    args: DecodeMlaArgs,
    meta: AttnMetadata,
    kv: KvLayerPools,
)
    ensures
        unmarked(layer.cache_steps(ctx, args, meta, kv)) == layer.cache_steps(
            unprofiled(ctx),
            args,
            meta,
            kv,
        ),
{
    let quiet = unprofiled(ctx);
    let body = layer.cache_body(ctx, args, meta, kv);
    let quiet_body = layer.cache_body(quiet, args, meta, kv);
    assert(body =~= quiet_body);
    assert(markless(body)) by {
        reveal(markless);
    }
    lemma_section(ctx.profile, "cache_asm+write", true, args.stream, body, quiet_body);
}

proof fn lemma_paged_section(
    layer: Qwen3AttentionLayer,
    ctx: ForwardContext,
    args: DecodeMlaArgs,
    meta: AttnMetadata,
    kv: KvLayerPools,
)
    ensures
        unmarked(layer.paged_steps(ctx, args, meta, kv)) == layer.paged_steps(
            unprofiled(ctx),
            args,
            meta,
            kv,
        ),
        storeless(layer.paged_steps(ctx, args, meta, kv)),
{
    let quiet = unprofiled(ctx);
    let body = layer.paged_body(ctx, args, meta, kv);
    let quiet_body = layer.paged_body(quiet, args, meta, kv);
    assert(body =~= quiet_body);
    assert(markless(body)) by {
        reveal(markless);
    }
    assert(storeless(body)) by {
        reveal(storeless);
    }
    lemma_section(ctx.profile, "paged_attn", true, args.stream, body, quiet_body);
}

/// At most one command, which is neither a mark nor a write to a cache.
pub(crate) proof fn lemma_single(steps: Seq<CommandView>)
    requires
        steps.len() <= 1,
        steps.len() == 1 ==> !is_mark(steps[0]) && !is_store(steps[0]),
    ensures
        markless(steps),
        storeless(steps),
{
    reveal(markless);
    reveal(storeless);
}

/// A section around one dispatch.
proof fn lemma_dispatch(
    profile: bool,
    label: &'static str,
    stream: u64,
    before: Seq<CommandView>,
    dispatch: Trace<(), OpsError>,
)
    requires
        markless(before),
        storeless(before),
        markless(dispatch.steps),
        storeless(dispatch.steps),
    ensures
        quiets(
            dispatch_section(profile, label, stream, before, dispatch),
            dispatch_section(false, label, stream, before, dispatch),
        ),
        storeless(dispatch_section(profile, label, stream, before, dispatch).steps),
{
    let body = before + dispatch.steps;
    lemma_plain_add(before, dispatch.steps);
    lemma_section(profile, label, dispatch.outcome is Ok, stream, body, body);
}

/// A section that was opened and given up.
proof fn lemma_abandoned(profile: bool, steps: Seq<CommandView>)
    requires
        markless(steps),
        storeless(steps),
    ensures
        unmarked(opening(profile) + steps) == opening(false) + steps,
        storeless(opening(profile) + steps),
{
    lemma_unmarked_opening(profile);
    lemma_unmarked_markless(steps);
    lemma_unmarked_add(opening(profile), steps);
    lemma_marks_store_nothing(profile, "", true, 0);
    lemma_plain_add(opening(profile), steps);
}

pub(crate) proof fn lemma_extract_section(
    layer: Qwen3AttentionLayer,
    ctx: ForwardContext,
    args: DecodeMlaArgs,
)
    ensures
        layer.extract_body(ctx, args) == layer.extract_body(unprofiled(ctx), args),
        markless(layer.extract_body(ctx, args)),
        storeless(layer.extract_body(ctx, args)),
{
    reveal(markless);
    reveal(storeless);
    assert(layer.extract_body(ctx, args) =~= layer.extract_body(unprofiled(ctx), args));
}

pub(crate) proof fn lemma_output_section(
    layer: Qwen3AttentionLayer,
    ctx: ForwardContext,
    args: DecodeMlaArgs,
)
    ensures
        unmarked(layer.output_steps(ctx, args)) == layer.output_steps(unprofiled(ctx), args),
        storeless(layer.output_steps(ctx, args)),
{
    let batched = layer.mla_batched_gemv_k.present();
    let body = layer.extract_body(ctx, args);
    let last = layer.wo_body(ctx, args);
    lemma_extract_section(layer, ctx, args);
    lemma_single(last);
    lemma_section(
        ctx.profile,
        "v_extract",
        batched,
        args.stream,
        body,
        layer.extract_body(unprofiled(ctx), args),
    );
    lemma_section(
        ctx.profile,
        "wo",
        true,
        args.stream,
        last,
        layer.wo_body(unprofiled(ctx), args),
    );
    let first = timed(ctx.profile, "v_extract", batched, args.stream, body);
    let second = timed(ctx.profile, "wo", true, args.stream, last);
    lemma_unmarked_add(first, second);
    lemma_plain_add(first, second);
}

proof fn lemma_index_cache_section(
    layer: Qwen3AttentionLayer,
    ctx: ForwardContext,
    args: DecodeMlaArgs,
    meta: AttnMetadata,
    kv: KvLayerPools,
    indexer: Glm5IndexerWeights,
)
    ensures
        quiets(
            layer.index_cache_trace(ctx, args, meta, kv, indexer),
            layer.index_cache_trace(unprofiled(ctx), args, meta, kv, indexer),
        ),
        storeless(layer.index_cache_trace(ctx, args, meta, kv, indexer).steps),
{
    let quiet = unprofiled(ctx);
    let key = layer.index_key(ctx, args, indexer);
    let norm = layer.index_norm(ctx, args, indexer);
    let gated = layer.index_gate(ctx, args, indexer);
    let written = layer.index_write(ctx, args, meta, kv);
    assert(key == layer.index_key(quiet, args, indexer));
    assert(norm == layer.index_norm(quiet, args, indexer));
    assert(gated == layer.index_gate(quiet, args, indexer));
    assert(written == layer.index_write(quiet, args, meta, kv));
    lemma_single(key);
    lemma_single(norm.steps);
    lemma_single(gated);
    lemma_single(written.steps);
    lemma_index_parts(layer, ctx, args, meta, kv, indexer, key, norm, gated, written);
}

proof fn lemma_index_parts(
    layer: Qwen3AttentionLayer,
    ctx: ForwardContext,
    args: DecodeMlaArgs,
    meta: AttnMetadata,
    kv: KvLayerPools,
    indexer: Glm5IndexerWeights,
    key: Seq<CommandView>,
    norm: Trace<(), OpsError>,
    gated: Seq<CommandView>,
    written: Trace<(), OpsError>,
)
    requires
        markless(key) && storeless(key),
        markless(norm.steps) && storeless(norm.steps),
        markless(gated) && storeless(gated),
        markless(written.steps) && storeless(written.steps),
    ensures
        quiets(
            layer.index_sections(ctx, args, kv, key, norm, gated, written),
            layer.index_sections(unprofiled(ctx), args, kv, key, norm, gated, written),
        ),
        storeless(layer.index_sections(ctx, args, kv, key, norm, gated, written).steps),
{
    let before = key + norm.steps + gated;
    let full = layer.index_sections(ctx, args, kv, key, norm, gated, written);
    let quiet = layer.index_sections(unprofiled(ctx), args, kv, key, norm, gated, written);
    assert(markless(before) && storeless(before)) by {
        lemma_plain_add(key, norm.steps);
        lemma_plain_add(key + norm.steps, gated);
    }
    if kv.index_raw_pool is None || kv.index_raw_block_stride is None {
        lemma_nothing();
        lemma_single(Seq::empty());
        assert(quiets(full, quiet));
    } else if norm.outcome is Err {
        lemma_abandoned(ctx.profile, key);
        assert(quiets(full, quiet));
    } else if kv.index_raw_block_stride->0 > u32::MAX {
        lemma_abandoned(ctx.profile, before);
        assert(quiets(full, quiet));
    } else {
        lemma_dispatch(ctx.profile, "glm_index_cache", args.stream, before, written);
        assert(quiets(full, quiet));
    }
}

proof fn lemma_select_section(
    layer: Qwen3AttentionLayer,
    ctx: ForwardContext,
    args: DecodeMlaArgs,
    meta: AttnMetadata,
    kv: KvLayerPools,
    indexer: Glm5IndexerWeights,
    chosen: IndexSelection,
)
    ensures
        quiets(
            layer.select_trace(ctx, args, meta, kv, indexer, chosen),
            layer.select_trace(unprofiled(ctx), args, meta, kv, indexer, chosen),
        ),
        storeless(layer.select_trace(ctx, args, meta, kv, indexer, chosen).steps),
{
    let dispatch = layer.select_dispatch(ctx, args, meta, kv, indexer, chosen);
    assert(dispatch == layer.select_dispatch(unprofiled(ctx), args, meta, kv, indexer, chosen));
    lemma_single(dispatch.steps);
    lemma_single(Seq::empty());
    lemma_nothing();
    lemma_dispatch(ctx.profile, "glm_index_select", args.stream, Seq::empty(), dispatch);
}

proof fn lemma_expand_section(
    layer: Qwen3AttentionLayer,
    ctx: ForwardContext,
    args: DecodeMlaArgs,
    chosen: IndexSelection,
)
    ensures
        quiets(
            layer.expand_trace(ctx, args, chosen),
            layer.expand_trace(unprofiled(ctx), args, chosen),
        ),
        storeless(layer.expand_trace(ctx, args, chosen).steps),
{
    let dispatch = layer.expand_dispatch(ctx, args, chosen);
    assert(dispatch == layer.expand_dispatch(unprofiled(ctx), args, chosen));
    lemma_single(dispatch.steps);
    lemma_single(Seq::empty());
    lemma_nothing();
    lemma_dispatch(ctx.profile, "glm_index_expand", args.stream, Seq::empty(), dispatch);
}

proof fn lemma_attend_selected_section(
    layer: Qwen3AttentionLayer,
    ctx: ForwardContext,
    args: DecodeMlaArgs,
    meta: AttnMetadata,
    kv: KvLayerPools,
    chosen: IndexSelection,
)
    ensures
        quiets(
            layer.attend_selected_trace(ctx, args, meta, kv, chosen),
            layer.attend_selected_trace(unprofiled(ctx), args, meta, kv, chosen),
        ),
        storeless(layer.attend_selected_trace(ctx, args, meta, kv, chosen).steps),
{
    let dispatch = layer.attend_dispatch(ctx, args, meta, kv, chosen);
    assert(dispatch == layer.attend_dispatch(unprofiled(ctx), args, meta, kv, chosen));
    lemma_single(dispatch.steps);
    lemma_single(Seq::empty());
    lemma_nothing();
    lemma_dispatch(ctx.profile, "glm_selected_mla", args.stream, Seq::empty(), dispatch);
}

proof fn lemma_query_section(layer: Qwen3AttentionLayer, ctx: ForwardContext, args: DecodeMlaArgs)
    ensures
        unmarked(layer.query_steps(ctx, args)) == layer.query_steps(unprofiled(ctx), args),
        storeless(layer.query_steps(ctx, args)),
{
    let mla = layer.weights();
    let latent = ctx.buffers.ssm_ba;
    let first = layer.projection(
        ctx,
        mla.wq_a_nvfp4,
        mla.wq_a,
        args.normed,
        latent,
        layer.q_lora(),
        args.h,
        args.stream,
    );
    let second = layer.norm(mla.q_a_norm, latent, layer.q_lora(), args);
    let third = layer.projection(
        ctx,
        mla.wq_b_nvfp4,
        mla.wq_b,
        latent,
        ctx.buffers.ssm_deinterleaved,
        args.q_dim,
        layer.q_lora(),
        args.stream,
    );
    lemma_single(seq![first]);
    lemma_single(seq![second]);
    lemma_single(seq![third]);
    lemma_section(ctx.profile, "wq_a", true, args.stream, seq![first], seq![first]);
    lemma_section(ctx.profile, "q_norm", true, args.stream, seq![second], seq![second]);
    lemma_section(ctx.profile, "wq_b", true, args.stream, seq![third], seq![third]);
    let a = timed(ctx.profile, "wq_a", true, args.stream, seq![first]);
    let b = timed(ctx.profile, "q_norm", true, args.stream, seq![second]);
    let c = timed(ctx.profile, "wq_b", true, args.stream, seq![third]);
    lemma_unmarked_add(a, b);
    lemma_unmarked_add(a + b, c);
    lemma_plain_add(a, b);
    lemma_plain_add(a + b, c);
}

proof fn lemma_sparse_section(
    layer: Qwen3AttentionLayer,
    ctx: ForwardContext,
    args: DecodeMlaArgs,
    meta: AttnMetadata,
    kv: KvLayerPools,
    indexer: Glm5IndexerWeights,
)
    ensures
        quiets(
            layer.sparse_trace(ctx, args, meta, kv, indexer),
            layer.sparse_trace(unprofiled(ctx), args, meta, kv, indexer),
        ),
        storeless(layer.sparse_trace(ctx, args, meta, kv, indexer).steps),
{
    lemma_nothing();
            lemma_single(Seq::empty());
    match selection(*ctx.config, args.pos) {
        Err(_) => {},
        Ok(chosen) => {
            let quiet = unprofiled(ctx);
            let selected = layer.select_trace(ctx, args, meta, kv, indexer, chosen);
            let expanded = layer.expand_trace(ctx, args, chosen);
            let attended = layer.attend_selected_trace(ctx, args, meta, kv, chosen);
            lemma_select_section(layer, ctx, args, meta, kv, indexer, chosen);
            lemma_expand_section(layer, ctx, args, chosen);
            lemma_attend_selected_section(layer, ctx, args, meta, kv, chosen);
            lemma_plain_add(selected.steps, expanded.steps);
            lemma_plain_add(chain(selected, expanded).steps, attended.steps);
            lemma_quiets_chain(
                selected,
                layer.select_trace(quiet, args, meta, kv, indexer, chosen),
                expanded,
                layer.expand_trace(quiet, args, chosen),
            );
            lemma_quiets_chain(
                chain(selected, expanded),
                chain(
                    layer.select_trace(quiet, args, meta, kv, indexer, chosen),
                    layer.expand_trace(quiet, args, chosen),
                ),
                attended,
                layer.attend_selected_trace(quiet, args, meta, kv, chosen),
            );
        },
    }
}

pub(crate) proof fn lemma_entry(
    layer: Qwen3AttentionLayer,
    ctx: ForwardContext,
    args: DecodeMlaArgs,
    kv: KvLayerPools,
    sparse_attention: bool,
)
    ensures
        unmarked(layer.entry_steps(ctx, args, kv, sparse_attention)) == layer.entry_steps(
            unprofiled(ctx),
            args,
            kv,
            sparse_attention,
        ),
        storeless(layer.entry_prefix(ctx, args, sparse_attention)),
{
    let meta = ctx.attn_metadata->0;
    let query = layer.query_steps(ctx, args);
    let absorb = layer.absorb_steps(ctx, args);
    let scatter = layer.scatter_steps(ctx, args);
    let index = match layer.active_indexer(sparse_attention) {
        Some(indexer) => layer.index_query_steps(ctx, args, indexer),
        None => Seq::empty(),
    };
    let latent = layer.latent_steps(ctx, args);
    let rope = layer.rope_steps(ctx, args, meta);
    let cache = layer.cache_steps(ctx, args, meta, kv);
    lemma_query_section(layer, ctx, args);
    lemma_absorb_section(layer, ctx, args);
    lemma_scatter_section(layer, ctx, args);
    match layer.active_indexer(sparse_attention) {
        Some(indexer) => {
            lemma_index_query_section(layer, ctx, args, indexer);
        },
        None => {
            lemma_nothing();
            lemma_single(Seq::empty());
        },
    }
    lemma_latent_section(layer, ctx, args);
    lemma_rope_section(layer, ctx, args, meta);
    lemma_cache_section(layer, ctx, args, meta, kv);
    lemma_unmarked_add(query, absorb);
    lemma_unmarked_add(query + absorb, scatter);
    lemma_unmarked_add(query + absorb + scatter, index);
    lemma_unmarked_add(query + absorb + scatter + index, latent);
    lemma_unmarked_add(query + absorb + scatter + index + latent, rope);
    lemma_unmarked_add(query + absorb + scatter + index + latent + rope, cache);
    lemma_plain_add(query, absorb);
    lemma_plain_add(query + absorb, scatter);
    lemma_plain_add(query + absorb + scatter, index);
    lemma_plain_add(query + absorb + scatter + index, latent);
    lemma_plain_add(query + absorb + scatter + index + latent, rope);
}

pub(crate) proof fn lemma_attention(
    layer: Qwen3AttentionLayer,
    ctx: ForwardContext,
    args: DecodeMlaArgs,
    kv: KvLayerPools,
    sparse_attention: bool,
)
    ensures
        quiets(
            layer.sidecar_trace(ctx, args, kv, sparse_attention),
            layer.sidecar_trace(unprofiled(ctx), args, kv, sparse_attention),
        ),
        quiets(
            layer.attention_trace(ctx, args, kv, sparse_attention),
            layer.attention_trace(unprofiled(ctx), args, kv, sparse_attention),
        ),
        storeless(layer.sidecar_trace(ctx, args, kv, sparse_attention).steps),
        storeless(layer.attention_trace(ctx, args, kv, sparse_attention).steps),
{
    let meta = ctx.attn_metadata->0;
    match layer.active_indexer(sparse_attention) {
        Some(indexer) => {
            lemma_index_cache_section(layer, ctx, args, meta, kv, indexer);
            lemma_sparse_section(layer, ctx, args, meta, kv, indexer);
        },
        None => {
            lemma_nothing();
            lemma_single(Seq::empty());
            lemma_paged_section(layer, ctx, args, meta, kv);
        },
    }
}

/// Profiling only watches: with its section marks taken out, a profiled decode
/// step records the commands of the same step with profiling off, in the same
/// order, and it succeeds, fails and returns as that step does.
pub proof fn law_profiling_only_watches(
    layer: Qwen3AttentionLayer,
    ctx: ForwardContext,
    args: DecodeMlaArgs,
    kv: KvLayerPools,
    sparse_attention: bool,
)
    ensures
        quiets(
            layer.decode_trace(ctx, args, kv, sparse_attention),
            layer.decode_trace(unprofiled(ctx), args, kv, sparse_attention),
        ),
{
    let quiet = unprofiled(ctx);
    let entry = done::<DecodeError>(layer.entry_steps(ctx, args, kv, sparse_attention));
    let quiet_entry = done::<DecodeError>(layer.entry_steps(quiet, args, kv, sparse_attention));
    let stored = layer.sidecar_trace(ctx, args, kv, sparse_attention);
    let quiet_stored = layer.sidecar_trace(quiet, args, kv, sparse_attention);
    let attended = layer.attention_trace(ctx, args, kv, sparse_attention);
    let quiet_attended = layer.attention_trace(quiet, args, kv, sparse_attention);
    lemma_entry(layer, ctx, args, kv, sparse_attention);
    lemma_attention(layer, ctx, args, kv, sparse_attention);
    lemma_output_section(layer, ctx, args);
    lemma_quiets_chain(entry, quiet_entry, stored, quiet_stored);
    lemma_quiets_chain(
        chain(entry, stored),
        chain(quiet_entry, quiet_stored),
        attended,
        quiet_attended,
    );
    lemma_quiets_chain(
        chain(chain(entry, stored), attended),
        chain(chain(quiet_entry, quiet_stored), quiet_attended),
        Trace { steps: layer.output_steps(ctx, args), outcome: Ok(ctx.buffers.qkv_output) },
        Trace { steps: layer.output_steps(quiet, args), outcome: Ok(quiet.buffers.qkv_output) },
    );
}

} // verus!
