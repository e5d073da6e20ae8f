//! Decoding one token with latent attention.
use vstd::prelude::*;

use crate::device::{
    call, chain, done, follows, lemma_extends_twice, timed, AttnMetadata, BufferArena,
    CommandBuffer, CommandView, DeviceCall, DevicePtr, Trace,
};
use crate::layers::mla_decode::{
    DecodeMlaArgs, KvLayerPools, PagedKvCache, Qwen3AttentionLayer,
};
use crate::layers::mla_index::DecodeError;
use crate::layers::{ForwardContext, MlaWeights};
use crate::weight_map::Glm5IndexerWeights;

verus! {

impl Qwen3AttentionLayer {
    /// The attention kernel on the pools of this layer.
    pub open spec fn paged_body(
        self,
        ctx: ForwardContext,
        args: DecodeMlaArgs,
        meta: AttnMetadata,
        kv: KvLayerPools,
    ) -> Seq<CommandView> {
        seq![
            call(
                DeviceCall::PagedDecodeAttention {
                    kernel: self.paged_decode_mla_k,
                    q: ctx.buffers.expert_up_out,
                    k_pool: kv.k_pool,
                    v_pool: kv.v_pool,
                    output: ctx.buffers.attn_output,
                    block_table: meta.block_table,
                    seq_len: meta.seq_len,
                    max_blocks_per_seq: meta.max_blocks_per_seq,
                    rows: 1,
                    q_heads: args.nq,
                    kv_heads: 1,
                    head_dim: self.cache_dim(),
                    block_size: args.bs as u32,
                    scale: args.inv_sqrt_d,
                    q_stride: (args.nq * self.cache_dim()) as u32,
                    window: 0,
                    stream: args.stream,
                },
            ),
        ]
    }

    /// Attention over the whole cache.
    pub open spec fn paged_steps(
        self,
        ctx: ForwardContext,
        args: DecodeMlaArgs,
        meta: AttnMetadata,
        kv: KvLayerPools,
    ) -> Seq<CommandView> {
        timed(
            ctx.profile,
            "paged_attn",
            true,
            args.stream,
            self.paged_body(ctx, args, meta, kv),
        )
    }

    pub(crate) fn paged_attention(
        &self,
        gpu: &mut CommandBuffer,
        ctx: &ForwardContext,
        args: &DecodeMlaArgs,
        meta: &AttnMetadata,
        kv: &KvLayerPools,
    )
        requires
            self.mla is Some,
            self.kv_lora() + self.rope() <= u32::MAX,
            args.nq * self.cache_dim() <= u32::MAX,
        ensures
            final(gpu).extends(*old(gpu), self.paged_steps(*ctx, *args, *meta, *kv)),
    {
        let mla: MlaWeights = self.mla.unwrap();
        let cache_dim: u32 = mla.kv_lora_rank as u32 + mla.rope as u32;
        let ghost start = *gpu;
        gpu.open_section(ctx.profile);
        gpu.call(
            DeviceCall::PagedDecodeAttention {
                kernel: self.paged_decode_mla_k,
                q: ctx.buffers.expert_up_out,
                k_pool: kv.k_pool,
                v_pool: kv.v_pool,
                output: ctx.buffers.attn_output,
                block_table: meta.block_table,
                seq_len: meta.seq_len,
                max_blocks_per_seq: meta.max_blocks_per_seq,
                rows: 1,
                q_heads: args.nq,
                kv_heads: 1,
                head_dim: cache_dim,
                block_size: args.bs as u32,
                scale: args.inv_sqrt_d,
                q_stride: args.nq * cache_dim,
                window: 0,
                stream: args.stream,
            },
        );
        gpu.close_section(ctx.profile, "paged_attn", true, args.stream);
        assert(gpu@ =~= start@ + self.paged_steps(*ctx, *args, *meta, *kv));
    }

    /// The indexer, where the layer has one and sparse attention is asked for.
    pub open spec fn active_indexer(self, sparse_attention: bool) -> Option<Glm5IndexerWeights> {
        if sparse_attention {
            self.weights().glm_indexer
        } else {
            None
        }
    }

    /// Everything up to the assembled cache entry.
    pub open spec fn entry_prefix(
        self,
        ctx: ForwardContext,
        args: DecodeMlaArgs,
        sparse_attention: bool,
    ) -> Seq<CommandView> {
        let index = match self.active_indexer(sparse_attention) {
            Some(indexer) => self.index_query_steps(ctx, args, indexer),
            None => Seq::empty(),
        };
        self.query_steps(ctx, args) + self.absorb_steps(ctx, args) + self.scatter_steps(ctx, args)
            + index + self.latent_steps(ctx, args) + self.rope_steps(
            ctx,
            args,
            ctx.attn_metadata->0,
        )
    }

    /// Everything up to the written cache entry.
    pub open spec fn entry_steps(
        self,
        ctx: ForwardContext,
        args: DecodeMlaArgs,
        kv: KvLayerPools,
        sparse_attention: bool,
    ) -> Seq<CommandView> {
        self.entry_prefix(ctx, args, sparse_attention) + self.cache_steps(
            ctx,
            args,
            ctx.attn_metadata->0,
            kv,
        )
    }

    /// The raw index entry, where there is an indexer.
    pub open spec fn sidecar_trace(
        self,
        ctx: ForwardContext,
        args: DecodeMlaArgs,
        kv: KvLayerPools,
        sparse_attention: bool,
    ) -> Trace<(), DecodeError> {
        match self.active_indexer(sparse_attention) {
            Some(indexer) => self.index_cache_trace(ctx, args, ctx.attn_metadata->0, kv, indexer),
            None => done(Seq::empty()),
        }
    }

    pub open spec fn attention_trace(
        self,
        ctx: ForwardContext,
        args: DecodeMlaArgs,
        kv: KvLayerPools,
        sparse_attention: bool,
    ) -> Trace<(), DecodeError> {
        match self.active_indexer(sparse_attention) {
            Some(indexer) => self.sparse_trace(ctx, args, ctx.attn_metadata->0, kv, indexer),
            None => done(self.paged_steps(ctx, args, ctx.attn_metadata->0, kv)),
        }
    }

    /// One decode step. The result is where the output projection is written.
    pub open spec fn decode_trace(
        self,
        ctx: ForwardContext,
        args: DecodeMlaArgs,
        kv: KvLayerPools,
        sparse_attention: bool,
    ) -> Trace<DevicePtr, DecodeError> {
        chain(
            chain(
                chain(
                    done(self.entry_steps(ctx, args, kv, sparse_attention)),
                    self.sidecar_trace(ctx, args, kv, sparse_attention),
                ),
                self.attention_trace(ctx, args, kv, sparse_attention),
            ),
            Trace { steps: self.output_steps(ctx, args), outcome: Ok(ctx.buffers.qkv_output) },
        )
    }

    /// Latent-attention weights and metadata are there, and no size or address
    /// that the step forms overflows.
    pub open spec fn decode_fits(
        self,
        ctx: ForwardContext,
        args: DecodeMlaArgs,
        kv: KvLayerPools,
        sparse_attention: bool,
    ) -> bool {
        let stored = self.sidecar_trace(ctx, args, kv, sparse_attention).outcome is Ok;
        &&& self.mla is Some
        &&& ctx.attn_metadata is Some
        &&& self.kv_lora() + self.rope() <= u32::MAX
        &&& self.absorb_fits(ctx, args)
        &&& self.scatter_fits(ctx, args)
        &&& self.rope_fits(ctx, args)
        &&& self.cache_fits(args)
        &&& self.active_indexer(sparse_attention) is Some ==> self.index_query_fits(ctx)
            && self.index_cache_fits(ctx, args, kv)
        &&& self.active_indexer(sparse_attention) is Some && stored && args.pos is Some
            ==> ctx.config.index_kpool > 0
        &&& self.active_indexer(sparse_attention) is None ==> args.nq * self.cache_dim() <= u32::MAX
        &&& stored && self.attention_trace(ctx, args, kv, sparse_attention).outcome is Ok
            ==> self.output_fits(ctx, args)
    }

    /// The cache has this layer, and the step can be recorded with the pools
    /// that are its own.
    pub open spec fn step_fits(
        self,
        ctx: ForwardContext,
        args: DecodeMlaArgs,
        kv_cache: PagedKvCache,
        sparse_attention: bool,
    ) -> bool {
        &&& self.attn_layer_idx < kv_cache.layers@.len()
        &&& self.decode_fits(ctx, args, self.pools(kv_cache), sparse_attention)
    }

    /// Decode one token: write its entry to the cache of this layer and attend
    /// over that cache. Sparse attention is opt-in: without `sparse_attention`,
    /// an indexer is left alone.
    pub fn attention_forward_mla(
        &self,
        gpu: &mut CommandBuffer,
        kv_cache: &PagedKvCache,
        ctx: &ForwardContext,
        args: &DecodeMlaArgs,
        sparse_attention: bool,
    ) -> (result: Result<DevicePtr, DecodeError>)
        requires
            self.step_fits(*ctx, *args, *kv_cache, sparse_attention),
        ensures
            follows(
                *final(gpu),
                *old(gpu),
                result,
                self.decode_trace(*ctx, *args, self.pools(*kv_cache), sparse_attention),
            ),
    {
        let kv = &kv_cache.layers[self.attn_layer_idx];
        let mla: MlaWeights = self.mla.unwrap();
        let meta: AttnMetadata = ctx.attn_metadata.unwrap();
        let indexer: Option<Glm5IndexerWeights> = if sparse_attention {
            mla.glm_indexer
        } else {
            None
        };
        let ghost start = *gpu;
        let ghost steps = self.query_steps(*ctx, *args);
        self.query(gpu, ctx, args);
        let ghost middle = *gpu;
        self.absorb(gpu, ctx, args);
        proof {
            lemma_extends_twice(start, middle, *gpu, steps, self.absorb_steps(*ctx, *args));
        }
        let ghost steps = steps + self.absorb_steps(*ctx, *args);
        let ghost middle = *gpu;
        self.scatter(gpu, ctx, args);
        proof {
            lemma_extends_twice(start, middle, *gpu, steps, self.scatter_steps(*ctx, *args));
        }
        let ghost steps = steps + self.scatter_steps(*ctx, *args);
        let ghost middle = *gpu;
        let ghost query = match self.active_indexer(sparse_attention) {
            Some(indexer) => self.index_query_steps(*ctx, *args, indexer),
            None => Seq::empty(),
        };
        if let Some(indexer) = &indexer {
            self.index_query(gpu, ctx, args, indexer);
        } else {
            assert(gpu@ =~= middle@ + query);
        }
        proof {
            lemma_extends_twice(start, middle, *gpu, steps, query);
        }
        let ghost steps = steps + query;
        let ghost middle = *gpu;
        self.latent(gpu, ctx, args);
        proof {
            lemma_extends_twice(start, middle, *gpu, steps, self.latent_steps(*ctx, *args));
        }
        let ghost steps = steps + self.latent_steps(*ctx, *args);
        let ghost middle = *gpu;
        self.rotate(gpu, ctx, args, &meta);
        proof {
            lemma_extends_twice(start, middle, *gpu, steps, self.rope_steps(*ctx, *args, meta));
        }
        let ghost steps = steps + self.rope_steps(*ctx, *args, meta);
        let ghost middle = *gpu;
        self.write_cache(gpu, ctx, args, &meta, kv);
        proof {
            let cached = self.cache_steps(*ctx, *args, meta, *kv);
            lemma_extends_twice(start, middle, *gpu, steps, cached);
        }
        let ghost steps = self.entry_steps(*ctx, *args, *kv, sparse_attention);
        let ghost middle = *gpu;
        let ghost stored = self.sidecar_trace(*ctx, *args, *kv, sparse_attention);
        if let Some(indexer) = &indexer {
            let cached = self.index_cache(gpu, ctx, args, &meta, kv, indexer);
            proof {
                lemma_extends_twice(start, middle, *gpu, steps, stored.steps);
            }
            cached?;
        } else {
            assert(gpu@ =~= middle@ + stored.steps);
            proof {
                lemma_extends_twice(start, middle, *gpu, steps, stored.steps);
            }
        }
        let ghost steps = steps + stored.steps;
        let ghost middle = *gpu;
        let ghost attended = self.attention_trace(*ctx, *args, *kv, sparse_attention);
        if let Some(indexer) = &indexer {
            let attention = self.sparse_attention(gpu, ctx, args, &meta, kv, indexer);
            proof {
                lemma_extends_twice(start, middle, *gpu, steps, attended.steps);
            }
            attention?;
        } else {
            self.paged_attention(gpu, ctx, args, &meta, kv);
            proof {
                lemma_extends_twice(start, middle, *gpu, steps, attended.steps);
            }
        }
        let ghost steps = steps + attended.steps;
        let ghost middle = *gpu;
        self.project_output(gpu, ctx, args);
        proof {
            lemma_extends_twice(start, middle, *gpu, steps, self.output_steps(*ctx, *args));
        }
        Ok(ctx.buffers.qkv_output)
    }
}

/// Where a decode step succeeds, its output is the output projection.
pub proof fn law_decode_output(
    layer: Qwen3AttentionLayer,
    ctx: ForwardContext,
    args: DecodeMlaArgs,
    kv: KvLayerPools,
    sparse_attention: bool,
)
    ensures
        layer.decode_trace(ctx, args, kv, sparse_attention).outcome is Ok ==> layer.decode_trace(
            ctx,
            args,
            kv,
            sparse_attention,
        ).outcome->Ok_0 == ctx.buffers.qkv_output,
{
}

/// The same layer with another indexer, or with none.
pub open spec fn with_indexer(
    layer: Qwen3AttentionLayer,
    indexer: Option<Glm5IndexerWeights>,
) -> Qwen3AttentionLayer {
    Qwen3AttentionLayer {
        mla: Some(MlaWeights { glm_indexer: indexer, ..layer.mla->0 }),
        ..layer
    }
}

proof fn lemma_scatter_ignores_index(
    layer: Qwen3AttentionLayer,
    indexer: Option<Glm5IndexerWeights>,
    ctx: ForwardContext,
    args: DecodeMlaArgs,
    pos: Option<u32>,
    q_out: DevicePtr,
    count: nat,
)
    requires
        layer.mla is Some,
    ensures
        with_indexer(layer, indexer).scatter_heads(
            ctx,
            DecodeMlaArgs { pos, q_out, ..args },
            count,
        ) == layer.scatter_heads(ctx, args, count),
    decreases count,
{
    if count > 0 {
        lemma_scatter_ignores_index(layer, indexer, ctx, args, pos, q_out, (count - 1) as nat);
    }
}

/// Dense attention never refuses, and it leaves the index pool alone: neither
/// the indexer, nor the pool's memory, nor the position, nor the buffer that
/// stages index entries has a say.
pub proof fn law_dense_ignores_index(
    layer: Qwen3AttentionLayer,
    indexer: Option<Glm5IndexerWeights>,
    ctx: ForwardContext,
    args: DecodeMlaArgs,
    pos: Option<u32>,
    q_out: DevicePtr,
    kv: KvLayerPools,
    raw_pool: Option<DevicePtr>,
    raw_stride: Option<usize>,
)
    requires
        layer.mla is Some,
    ensures
        layer.decode_trace(ctx, args, kv, false).outcome is Ok,
        with_indexer(layer, indexer).decode_trace(
            ctx,
            DecodeMlaArgs { pos, q_out, ..args },
            KvLayerPools { index_raw_pool: raw_pool, index_raw_block_stride: raw_stride, ..kv },
            false,
        ) == layer.decode_trace(ctx, args, kv, false),
{
    let other = with_indexer(layer, indexer);
    let args2 = DecodeMlaArgs { pos, q_out, ..args };
    let kv2 = KvLayerPools { index_raw_pool: raw_pool, index_raw_block_stride: raw_stride, ..kv };
    let meta = ctx.attn_metadata->0;
    assert(other.query_steps(ctx, args2) =~= layer.query_steps(ctx, args));
    assert(other.latent_steps(ctx, args2) =~= layer.latent_steps(ctx, args));
    assert(other.cache_steps(ctx, args2, meta, kv2) =~= layer.cache_steps(ctx, args, meta, kv));
    assert(other.paged_steps(ctx, args2, meta, kv2) =~= layer.paged_steps(ctx, args, meta, kv));
    assert(other.absorb_steps(ctx, args2) =~= layer.absorb_steps(ctx, args));
    lemma_scatter_ignores_index(layer, indexer, ctx, args, pos, q_out, args.nq as nat);
    assert(other.scatter_steps(ctx, args2) =~= layer.scatter_steps(ctx, args));
    assert(other.rope_steps(ctx, args2, meta) =~= layer.rope_steps(ctx, args, meta));
    assert(other.output_steps(ctx, args2) =~= layer.output_steps(ctx, args));
}

/// A layer without an indexer attends densely even where sparse attention is
/// asked for.
pub proof fn law_sparse_needs_indexer(
    layer: Qwen3AttentionLayer,
    ctx: ForwardContext,
    args: DecodeMlaArgs,
    kv: KvLayerPools,
)
    requires
        layer.mla is Some,
        layer.weights().glm_indexer is None,
    ensures
        layer.decode_trace(ctx, args, kv, true) == layer.decode_trace(ctx, args, kv, false),
{
}

/// The same context with the expanded query elsewhere.
pub open spec fn with_query_buffer<'a>(
    ctx: ForwardContext<'a>,
    other: DevicePtr,
) -> ForwardContext<'a> {
    ForwardContext { buffers: BufferArena { ssm_deinterleaved: other, ..ctx.buffers }, ..ctx }
}

/// Once the query is absorbed and its rotary part copied out, the buffer of the
/// expanded query is free: nothing later in a dense step depends on where it
/// is, so the index pool may stage its own query there.
pub proof fn law_query_buffer_free(
    layer: Qwen3AttentionLayer,
    ctx: ForwardContext,
    other: DevicePtr,
    args: DecodeMlaArgs,
    meta: AttnMetadata,
    kv: KvLayerPools,
)
    ensures
        layer.latent_steps(with_query_buffer(ctx, other), args) == layer.latent_steps(ctx, args),
        layer.rope_steps(with_query_buffer(ctx, other), args, meta) == layer.rope_steps(
            ctx,
            args,
            meta,
        ),
        layer.cache_steps(with_query_buffer(ctx, other), args, meta, kv) == layer.cache_steps(
            ctx,
            args,
            meta,
            kv,
        ),
        layer.paged_steps(with_query_buffer(ctx, other), args, meta, kv) == layer.paged_steps(
            ctx,
            args,
            meta,
            kv,
        ),
        layer.output_steps(with_query_buffer(ctx, other), args) == layer.output_steps(ctx, args),
{
    let moved = with_query_buffer(ctx, other);
    assert(layer.latent_steps(moved, args) =~= layer.latent_steps(ctx, args));
    assert(layer.rope_steps(moved, args, meta) =~= layer.rope_steps(ctx, args, meta));
    assert(layer.cache_steps(moved, args, meta, kv) =~= layer.cache_steps(ctx, args, meta, kv));
    assert(layer.paged_steps(moved, args, meta, kv) =~= layer.paged_steps(ctx, args, meta, kv));
    assert(layer.output_steps(moved, args) =~= layer.output_steps(ctx, args));
}

} // verus!
