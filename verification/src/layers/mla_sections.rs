//! How the work of a profiled decode step is timed.
use vstd::prelude::*;

use crate::device::{call, timed, CommandOf, CommandView, DeviceCall};
use crate::layers::index_selection::selection;
use crate::layers::mla_decode::{DecodeMlaArgs, KvLayerPools, Qwen3AttentionLayer};
use crate::layers::mla_laws::{
    is_mark, lemma_extract_section, lemma_plain_add, lemma_scatter_heads, lemma_single, markless,
};
use crate::layers::ForwardContext;

verus! {

/// Whether a section is open after the commands, if one was as `open` says before
/// them; nothing where a section opens inside another, or work is done or a section
/// closed outside of any.
pub open spec fn open_after(steps: Seq<CommandView>, open: bool) -> Option<bool>
    decreases steps.len(),
{
    if steps.len() == 0 {
        Some(open)
    } else {
        match (open_after(steps.drop_last(), open), steps.last()) {
            (Some(false), CommandOf::Call(DeviceCall::ProfileStart)) => Some(true),
            (Some(true), CommandOf::Call(DeviceCall::ProfileStart)) => None,
            (Some(true), CommandOf::Call(DeviceCall::ProfileEnd { .. })) => Some(false),
            (Some(true), _) => Some(true),
            _ => None,
        }
    }
}

/// The ends of the sections, in order.
pub open spec fn section_ends(steps: Seq<CommandView>) -> Seq<CommandView>
    decreases steps.len(),
{
    if steps.len() == 0 {
        Seq::empty()
    } else {
        let before = section_ends(steps.drop_last());
        match steps.last() {
            CommandOf::Call(DeviceCall::ProfileEnd { .. }) => before.push(steps.last()),
            _ => before,
        }
    }
}

/// The commands are sections one after the other, which end as `ends` says.
#[verifier::opaque]
pub open spec fn in_sections(steps: Seq<CommandView>, ends: Seq<CommandView>) -> bool {
    &&& open_after(steps, false) == Some(false)
    &&& section_ends(steps) == ends
}

/// The end of section `label` on `stream`.
pub open spec fn end(label: &'static str, after_failure: bool, stream: u64) -> CommandView {
    call(DeviceCall::ProfileEnd { label, after_failure, stream })
}

proof fn lemma_one_after_the_other(first: Seq<CommandView>, second: Seq<CommandView>, open: bool)
    ensures
        open_after(first + second, open) == match open_after(first, open) {
            Some(between) => open_after(second, between),
            None => None,
        },
        section_ends(first + second) == section_ends(first) + section_ends(second),
    decreases second.len(),
{
    let both = first + second;
    if second.len() == 0 {
        assert(both =~= first);
    } else {
        lemma_one_after_the_other(first, second.drop_last(), open);
        assert(both.drop_last() =~= first + second.drop_last());
    }
}

proof fn lemma_sections_add(
    first: Seq<CommandView>,
    first_ends: Seq<CommandView>,
    second: Seq<CommandView>,
    second_ends: Seq<CommandView>,
)
    requires
        in_sections(first, first_ends),
        in_sections(second, second_ends),
    ensures
        in_sections(first + second, first_ends + second_ends),
{
    reveal(in_sections);
    lemma_one_after_the_other(first, second, false);
}

proof fn lemma_no_sections()
    ensures
        in_sections(Seq::empty(), Seq::empty()),
{
    reveal(in_sections);
}

proof fn lemma_work(steps: Seq<CommandView>)
    requires
        markless(steps),
    ensures
        open_after(steps, true) == Some(true),
        section_ends(steps) == Seq::<CommandView>::empty(),
    decreases steps.len(),
{
    reveal(markless);
    if steps.len() > 0 {
        assert forall|i: int| 0 <= i < steps.drop_last().len() implies !is_mark(
            #[trigger] steps.drop_last()[i],
        ) by {
            assert(steps.drop_last()[i] == steps[i]);
        }
        lemma_work(steps.drop_last());
        assert(!is_mark(steps[steps.len() - 1]));
    }
}

proof fn lemma_timed(
    label: &'static str,
    after_failure: bool,
    stream: u64,
    body: Seq<CommandView>,
)
    requires
        markless(body),
    ensures
        in_sections(
            timed(true, label, after_failure, stream, body),
            seq![end(label, after_failure, stream)],
        ),
{
    reveal(in_sections);
    reveal_with_fuel(open_after, 2);
    reveal_with_fuel(section_ends, 2);
    let first = seq![call(DeviceCall::ProfileStart)];
    let last = seq![end(label, after_failure, stream)];
    assert(first.drop_last() =~= Seq::<CommandView>::empty());
    assert(last.drop_last() =~= Seq::<CommandView>::empty());
    assert(section_ends(last) =~= last);
    lemma_work(body);
    lemma_one_after_the_other(first, body, false);
    lemma_one_after_the_other(first + body, last, false);
    assert(Seq::<CommandView>::empty() + Seq::<CommandView>::empty() + last =~= last);
}

/// The sections up to the written cache entry.
pub open spec fn entry_ends(
    layer: Qwen3AttentionLayer,
    stream: u64,
    indexed: bool,
) -> Seq<CommandView> {
    seq![
        end("wq_a", true, stream),
        end("q_norm", true, stream),
        end("wq_b", true, stream),
        end("q_absorb", layer.mla_batched_gemv_k.present(), stream),
        end("q_rope_scatter", layer.mla_q_rope_scatter_k.present(), stream),
    ] + if indexed {
        seq![end("glm_index_query", true, stream)]
    } else {
        Seq::empty()
    } + seq![
        end("wkv_a+norm", true, stream),
        end(
            "k_rope+RoPE+wb",
            layer.rope() > 0 && layer.mla_q_rope_writeback_k.present(),
            stream,
        ),
        end("cache_asm+write", true, stream),
    ]
}

proof fn lemma_entry_in_sections(
    layer: Qwen3AttentionLayer,
    ctx: ForwardContext,
    args: DecodeMlaArgs,
    kv: KvLayerPools,
    sparse_attention: bool,
)
    requires
        ctx.profile,
    ensures
        in_sections(
            layer.entry_steps(ctx, args, kv, sparse_attention),
            entry_ends(layer, args.stream, layer.active_indexer(sparse_attention) is Some),
        ),
{
    let stream = args.stream;
    let meta = ctx.attn_metadata->0;
    let mla = layer.weights();
    let latent_at = ctx.buffers.ssm_ba;
    let narrow = seq![
        layer.projection(
            ctx,
            mla.wq_a_nvfp4,
            mla.wq_a,
            args.normed,
            latent_at,
            layer.q_lora(),
            args.h,
            stream,
        ),
    ];
    let norm = seq![layer.norm(mla.q_a_norm, latent_at, layer.q_lora(), args)];
    let wide = seq![
        layer.projection(
            ctx,
            mla.wq_b_nvfp4,
            mla.wq_b,
            latent_at,
            ctx.buffers.ssm_deinterleaved,
            args.q_dim,
            layer.q_lora(),
            stream,
        ),
    ];
    lemma_single(narrow);
    lemma_single(norm);
    lemma_single(wide);
    let a = timed(true, "wq_a", true, stream, narrow);
    let b = timed(true, "q_norm", true, stream, norm);
    let c = timed(true, "wq_b", true, stream, wide);
    let ea = seq![end("wq_a", true, stream)];
    let eb = seq![end("q_norm", true, stream)];
    let ec = seq![end("wq_b", true, stream)];
    lemma_timed("wq_a", true, stream, narrow);
    lemma_timed("q_norm", true, stream, norm);
    lemma_timed("wq_b", true, stream, wide);
    lemma_sections_add(a, ea, b, eb);
    lemma_sections_add(a + b, ea + eb, c, ec);
    let query = layer.query_steps(ctx, args);
    let eq = ea + eb + ec;
    assert(query == a + b + c);
    let absorb = layer.absorb_steps(ctx, args);
    let ed = seq![end("q_absorb", layer.mla_batched_gemv_k.present(), stream)];
    assert(markless(layer.absorb_body(ctx, args))) by {
        reveal(markless);
    }
    lemma_timed(
        "q_absorb",
        layer.mla_batched_gemv_k.present(),
        stream,
        layer.absorb_body(ctx, args),
    );
    lemma_sections_add(query, eq, absorb, ed);
    let scatter = layer.scatter_steps(ctx, args);
    let ef = seq![end("q_rope_scatter", layer.mla_q_rope_scatter_k.present(), stream)];
    lemma_scatter_heads(layer, ctx, args, args.nq as nat);
    assert(markless(layer.scatter_body(ctx, args))) by {
        reveal(markless);
    }
    lemma_timed(
        "q_rope_scatter",
        layer.mla_q_rope_scatter_k.present(),
        stream,
        layer.scatter_body(ctx, args),
    );
    lemma_sections_add(query + absorb, eq + ed, scatter, ef);
    let indexer = layer.active_indexer(sparse_attention);
    let index = match indexer {
        Some(indexer) => layer.index_query_steps(ctx, args, indexer),
        None => Seq::empty(),
    };
    let ei = if indexer is Some {
        seq![end("glm_index_query", true, stream)]
    } else {
        Seq::empty()
    };
    match indexer {
        Some(indexer) => {
            let body = layer.index_query_body(ctx, args, indexer);
            assert(markless(body)) by {
                reveal(markless);
            }
            lemma_timed("glm_index_query", true, stream, body);
        },
        None => {
            lemma_no_sections();
        },
    }
    lemma_sections_add(query + absorb + scatter, eq + ed + ef, index, ei);
    let latent = layer.latent_steps(ctx, args);
    let el = seq![end("wkv_a+norm", true, stream)];
    assert(markless(layer.latent_body(ctx, args))) by {
        reveal(markless);
    }
    lemma_timed("wkv_a+norm", true, stream, layer.latent_body(ctx, args));
    lemma_sections_add(query + absorb + scatter + index, eq + ed + ef + ei, latent, el);
    let rotates = layer.rope() > 0 && layer.mla_q_rope_writeback_k.present();
    let rope = layer.rope_steps(ctx, args, meta);
    let er = seq![end("k_rope+RoPE+wb", rotates, stream)];
    assert(markless(layer.rope_body(ctx, args, meta))) by {
        reveal(markless);
    }
    lemma_timed("k_rope+RoPE+wb", rotates, stream, layer.rope_body(ctx, args, meta));
    lemma_sections_add(
        query + absorb + scatter + index + latent,
        eq + ed + ef + ei + el,
        rope,
        er,
    );
    let cache = layer.cache_steps(ctx, args, meta, kv);
    let ek = seq![end("cache_asm+write", true, stream)];
    assert(markless(layer.cache_body(ctx, args, meta, kv))) by {
        reveal(markless);
    }
    lemma_timed("cache_asm+write", true, stream, layer.cache_body(ctx, args, meta, kv));
    lemma_sections_add(
        query + absorb + scatter + index + latent + rope,
        eq + ed + ef + ei + el + er,
        cache,
        ek,
    );
    assert(eq + ed + ef + ei + el + er + ek =~= entry_ends(layer, stream, indexer is Some));
}

/// The sections that file the token for the index.
pub open spec fn filing_ends(stream: u64, indexed: bool) -> Seq<CommandView> {
    if indexed {
        seq![end("glm_index_cache", true, stream)]
    } else {
        Seq::empty()
    }
}

proof fn lemma_filed_in_sections(
    layer: Qwen3AttentionLayer,
    ctx: ForwardContext,
    args: DecodeMlaArgs,
    kv: KvLayerPools,
    sparse_attention: bool,
)
    requires
        ctx.profile,
        layer.sidecar_trace(ctx, args, kv, sparse_attention).outcome is Ok,
    ensures
        in_sections(
            layer.sidecar_trace(ctx, args, kv, sparse_attention).steps,
            filing_ends(args.stream, layer.active_indexer(sparse_attention) is Some),
        ),
{
    let meta = ctx.attn_metadata->0;
    match layer.active_indexer(sparse_attention) {
        Some(indexer) => {
            let key = layer.index_key(ctx, args, indexer);
            let norm = layer.index_norm(ctx, args, indexer);
            let gated = layer.index_gate(ctx, args, indexer);
            let written = layer.index_write(ctx, args, meta, kv);
            lemma_single(norm.steps);
            lemma_single(written.steps);
            assert(markless(key) && markless(gated)) by {
                reveal(markless);
            }
            lemma_plain_add(key, norm.steps);
            lemma_plain_add(key + norm.steps, gated);
            lemma_plain_add(key + norm.steps + gated, written.steps);
            lemma_timed(
                "glm_index_cache",
                true,
                args.stream,
                key + norm.steps + gated + written.steps,
            );
        },
        None => {
            lemma_no_sections();
        },
    }
}

/// The sections that attend: over the whole cache, or over the tokens that are chosen,
/// among `pools` complete pools and behind them.
pub open spec fn attention_ends(stream: u64, indexed: bool, pools: u32) -> Seq<CommandView> {
    if !indexed {
        seq![end("paged_attn", true, stream)]
    } else if pools > 0 {
        seq![
            end("glm_index_select", true, stream),
            end("glm_index_expand", true, stream),
            end("glm_selected_mla", true, stream),
        ]
    } else {
        seq![end("glm_index_expand", true, stream), end("glm_selected_mla", true, stream)]
    }
}

proof fn lemma_attended_in_sections(
    layer: Qwen3AttentionLayer,
    ctx: ForwardContext,
    args: DecodeMlaArgs,
    kv: KvLayerPools,
    sparse_attention: bool,
)
    requires
        ctx.profile,
        layer.attention_trace(ctx, args, kv, sparse_attention).outcome is Ok,
    ensures
        in_sections(
            layer.attention_trace(ctx, args, kv, sparse_attention).steps,
            attention_ends(
                args.stream,
                layer.active_indexer(sparse_attention) is Some,
                selection(*ctx.config, args.pos)->Ok_0.select_count,
            ),
        ),
{
    let stream = args.stream;
    let meta = ctx.attn_metadata->0;
    match layer.active_indexer(sparse_attention) {
        Some(indexer) => {
            let chosen = selection(*ctx.config, args.pos)->Ok_0;
            let picked = layer.select_dispatch(ctx, args, meta, kv, indexer, chosen);
            let listed = layer.expand_dispatch(ctx, args, chosen);
            let read = layer.attend_dispatch(ctx, args, meta, kv, chosen);
            lemma_single(picked.steps);
            lemma_single(listed.steps);
            lemma_single(read.steps);
            assert(Seq::<CommandView>::empty() + picked.steps =~= picked.steps);
            assert(Seq::<CommandView>::empty() + listed.steps =~= listed.steps);
            assert(Seq::<CommandView>::empty() + read.steps =~= read.steps);
            let first = layer.select_trace(ctx, args, meta, kv, indexer, chosen).steps;
            let second = layer.expand_trace(ctx, args, chosen).steps;
            let third = layer.attend_selected_trace(ctx, args, meta, kv, chosen).steps;
            let e1 = if chosen.select_count > 0 {
                seq![end("glm_index_select", true, stream)]
            } else {
                Seq::empty()
            };
            let e2 = seq![end("glm_index_expand", true, stream)];
            let e3 = seq![end("glm_selected_mla", true, stream)];
            if chosen.select_count > 0 {
                lemma_timed("glm_index_select", true, stream, picked.steps);
            } else {
                lemma_no_sections();
            }
            lemma_timed("glm_index_expand", true, stream, listed.steps);
            lemma_timed("glm_selected_mla", true, stream, read.steps);
            lemma_sections_add(first, e1, second, e2);
            lemma_sections_add(first + second, e1 + e2, third, e3);
            assert(e1 + e2 + e3 =~= attention_ends(stream, true, chosen.select_count));
        },
        None => {
            let body = layer.paged_body(ctx, args, meta, kv);
            lemma_single(body);
            lemma_timed("paged_attn", true, stream, body);
        },
    }
}

/// A profiled decode step that succeeds does all of its work inside timed sections,
/// one after the other and none inside another, each on the stream of the step. They
/// follow the query, the index query, the cache entry, the index entry, the attention
/// and the output; what no indexer does has no section.
pub proof fn law_every_command_timed(
    layer: Qwen3AttentionLayer,
    ctx: ForwardContext,
    args: DecodeMlaArgs,
    kv: KvLayerPools,
    sparse_attention: bool,
)
    requires
        ctx.profile,
        layer.decode_trace(ctx, args, kv, sparse_attention).outcome is Ok,
    ensures
        ({
            let indexed = sparse_attention && layer.weights().glm_indexer is Some;
            let pools = selection(*ctx.config, args.pos)->Ok_0.select_count;
            in_sections(
                layer.decode_trace(ctx, args, kv, sparse_attention).steps,
                entry_ends(layer, args.stream, indexed) + filing_ends(args.stream, indexed)
                    + attention_ends(args.stream, indexed, pools) + seq![
                    end("v_extract", layer.mla_batched_gemv_k.present(), args.stream),
                    end("wo", true, args.stream),
                ],
            )
        }),
{
    let stream = args.stream;
    let indexed = layer.active_indexer(sparse_attention) is Some;
    let pools = selection(*ctx.config, args.pos)->Ok_0.select_count;
    let entry = layer.entry_steps(ctx, args, kv, sparse_attention);
    let filed = layer.sidecar_trace(ctx, args, kv, sparse_attention);
    let attended = layer.attention_trace(ctx, args, kv, sparse_attention);
    lemma_entry_in_sections(layer, ctx, args, kv, sparse_attention);
    lemma_filed_in_sections(layer, ctx, args, kv, sparse_attention);
    lemma_attended_in_sections(layer, ctx, args, kv, sparse_attention);
    let e1 = entry_ends(layer, stream, indexed);
    let e2 = filing_ends(stream, indexed);
    let e3 = attention_ends(stream, indexed, pools);
    let batched = layer.mla_batched_gemv_k.present();
    let e4 = seq![end("v_extract", batched, stream)];
    let e5 = seq![end("wo", true, stream)];
    let extract = layer.extract_body(ctx, args);
    let last = layer.wo_body(ctx, args);
    lemma_extract_section(layer, ctx, args);
    lemma_single(last);
    lemma_timed("v_extract", batched, stream, extract);
    lemma_timed("wo", true, stream, last);
    let fourth = timed(true, "v_extract", batched, stream, extract);
    let fifth = timed(true, "wo", true, stream, last);
    lemma_sections_add(fourth, e4, fifth, e5);
    lemma_sections_add(entry, e1, filed.steps, e2);
    lemma_sections_add(entry + filed.steps, e1 + e2, attended.steps, e3);
    lemma_sections_add(
        entry + filed.steps + attended.steps,
        e1 + e2 + e3,
        fourth + fifth,
        e4 + e5,
    );
    assert(e4 + e5 =~= seq![end("v_extract", batched, stream), end("wo", true, stream)]);
}

} // verus!
