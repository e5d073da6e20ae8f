//! The index pool in a decode step: the index query, the raw entry of the
//! token, and attention over the tokens that are selected.
use vstd::prelude::*;

use crate::device::{
    chain, done, follows, lemma_extends_twice, opening, timed, AttnMetadata, CommandBuffer,
    CommandView, DevicePtr, Float32, Trace,
};
use crate::layers::index_selection::{
    law_selection_within_sequence, select, selection, IndexSelection, SelectionError,
};
use crate::layers::mla_decode::{DecodeMlaArgs, KvLayerPools, Qwen3AttentionLayer};
use crate::layers::{ForwardContext, MlaWeights};
use crate::ops::index_expand::{index_pool_expand, index_pool_expand_trace};
use crate::ops::index_select_weighted::{
    index_pool_select_weighted, index_pool_select_weighted_trace,
};
use crate::ops::index_write::{
    index_key_layer_norm, index_key_layer_norm_trace, index_pool_write_raw,
    index_pool_write_raw_trace,
};
use crate::ops::selected_mla::{selected_mla_bf16, selected_mla_bf16_trace};
use crate::ops::OpsError;
use crate::text::{decimal, decimal_text, joined};
use crate::weight_map::Glm5IndexerWeights;

verus! {

/// Why a decode step stopped.
#[derive(Clone, Copy, PartialEq, Eq, Debug)]
pub enum DecodeError {
    SidecarMissing { layer: usize },
    RawStrideMissing { layer: usize },
    RawStrideTooLarge,
    Selection(SelectionError),
    Ops(OpsError),
}

impl DecodeError {
    pub open spec fn text(self) -> Seq<char> {
        match self {
            DecodeError::SidecarMissing { layer } => {
                "GLM IndexPool sidecar missing for attention layer "@ + decimal(layer as nat)
            },
            DecodeError::RawStrideMissing { layer } => {
                "GLM IndexPool raw stride missing for attention layer "@ + decimal(layer as nat)
            },
            DecodeError::RawStrideTooLarge => "GLM IndexPool raw stride exceeds u32"@,
            DecodeError::Selection(error) => error.text(),
            DecodeError::Ops(error) => error.text(),
        }
    }

    pub fn message(self) -> (message: String)
        ensures
            message@ == self.text(),
    {
        match self {
            DecodeError::SidecarMissing { layer } => {
                let number = decimal_text(layer);
                joined("GLM IndexPool sidecar missing for attention layer ", number.as_str())
            },
            DecodeError::RawStrideMissing { layer } => {
                let number = decimal_text(layer);
                joined("GLM IndexPool raw stride missing for attention layer ", number.as_str())
            },
            DecodeError::RawStrideTooLarge => "GLM IndexPool raw stride exceeds u32".to_owned(),
            DecodeError::Selection(error) => error.message(),
            DecodeError::Ops(error) => error.message(),
        }
    }
}

/// The epsilon of the index-key norm, one millionth.
pub const INDEX_NORM_EPS_BITS: u32 = 0x3586_37bd;

/// A timed section that ends with a dispatch; a refused dispatch records
/// nothing and the section is closed before the refusal counts.
pub open spec fn dispatch_section(
    profile: bool,
    label: &'static str,
    stream: u64,
    before: Seq<CommandView>,
    dispatch: Trace<(), OpsError>,
) -> Trace<(), DecodeError> {
    Trace {
        steps: timed(profile, label, dispatch.outcome is Ok, stream, before + dispatch.steps),
        outcome: match dispatch.outcome {
            Ok(_) => Ok(()),
            Err(error) => Err(DecodeError::Ops(error)),
        },
    }
}

impl Qwen3AttentionLayer {
    /// Where the index-head weights stand behind the index query.
    pub open spec fn index_query_bytes(self, ctx: ForwardContext) -> int {
        ctx.config.index_n_heads * ctx.config.index_head_dim * 2
    }

    pub open spec fn index_query_fits(self, ctx: ForwardContext) -> bool {
        &&& self.index_query_bytes(ctx) <= usize::MAX
        &&& ctx.buffers.ssm_deinterleaved.reaches(self.index_query_bytes(ctx))
    }

    /// The two products of the index query.
    pub open spec fn index_query_body(
        self,
        ctx: ForwardContext,
        args: DecodeMlaArgs,
        indexer: Glm5IndexerWeights,
    ) -> Seq<CommandView> {
        let staged = ctx.buffers.ssm_deinterleaved;
        seq![
            self.dense(
                indexer.wq_b,
                ctx.buffers.ssm_ba,
                staged,
                (ctx.config.index_n_heads * ctx.config.index_head_dim) as u32,
                self.q_lora(),
                args.stream,
            ),
            self.dense(
                indexer.weights_proj,
                args.normed,
                staged.plus(self.index_query_bytes(ctx)),
                ctx.config.index_n_heads as u32,
                args.h,
                args.stream,
            ),
        ]
    }

    /// The index query, staged over the expanded query that absorption has
    /// consumed, and the index-head weights behind it.
    pub open spec fn index_query_steps(
        self,
        ctx: ForwardContext,
        args: DecodeMlaArgs,
        indexer: Glm5IndexerWeights,
    ) -> Seq<CommandView> {
        timed(
            ctx.profile,
            "glm_index_query",
            true,
            args.stream,
            self.index_query_body(ctx, args, indexer),
        )
    }

    pub(crate) fn index_query(
        &self,
        gpu: &mut CommandBuffer,
        ctx: &ForwardContext,
        args: &DecodeMlaArgs,
        indexer: &Glm5IndexerWeights,
    )
        requires
            self.mla is Some,
            self.index_query_fits(*ctx),
        ensures
            final(gpu).extends(*old(gpu), self.index_query_steps(*ctx, *args, *indexer)),
    {
        let mla: MlaWeights = self.mla.unwrap();
        let staged = ctx.buffers.ssm_deinterleaved;
        let width: usize = ctx.config.index_n_heads * ctx.config.index_head_dim;
        let ghost start = *gpu;
        gpu.open_section(ctx.profile);
        self.dense_gemv(
            gpu,
            indexer.wq_b,
            ctx.buffers.ssm_ba,
            staged,
            width as u32,
            mla.q_lora_rank as u32,
            args.stream,
        );
        self.dense_gemv(
            gpu,
            indexer.weights_proj,
            args.normed,
            staged.offset(width * 2),
            ctx.config.index_n_heads as u32,
            args.h,
            args.stream,
        );
        gpu.close_section(ctx.profile, "glm_index_query", true, args.stream);
        assert(gpu@ =~= start@ + self.index_query_steps(*ctx, *args, *indexer));
    }

    /// The projection of the index key.
    pub open spec fn index_key(
        self,
        ctx: ForwardContext,
        args: DecodeMlaArgs,
        indexer: Glm5IndexerWeights,
    ) -> Seq<CommandView> {
        let dim = ctx.config.index_head_dim as u32;
        seq![self.dense(indexer.wk, args.normed, args.q_out, dim, args.h, args.stream)]
    }

    /// The norm of the index key.
    pub open spec fn index_norm(
        self,
        ctx: ForwardContext,
        args: DecodeMlaArgs,
        indexer: Glm5IndexerWeights,
    ) -> Trace<(), OpsError> {
        index_key_layer_norm_trace(
            self.glm_index_norm_k,
            args.q_out,
            indexer.k_norm_weight.weight,
            indexer.k_norm_bias.weight,
            args.q_out,
            ctx.config.index_head_dim as u32,
            Float32::Bits(INDEX_NORM_EPS_BITS),
            args.stream,
        )
    }

    /// The projection of the compression gate, which stands behind the key.
    pub open spec fn index_gate(
        self,
        ctx: ForwardContext,
        args: DecodeMlaArgs,
        indexer: Glm5IndexerWeights,
    ) -> Seq<CommandView> {
        let dim = ctx.config.index_head_dim as u32;
        let gate = args.q_out.plus(ctx.config.index_head_dim * 2);
        seq![self.dense(indexer.kpool_compress_gate, args.normed, gate, dim, args.h, args.stream)]
    }

    /// Key and gate, written to the raw index pool.
    pub open spec fn index_write(
        self,
        ctx: ForwardContext,
        args: DecodeMlaArgs,
        meta: AttnMetadata,
        kv: KvLayerPools,
    ) -> Trace<(), OpsError> {
        index_pool_write_raw_trace(
            self.glm_index_write_k,
            args.q_out,
            args.q_out.plus(ctx.config.index_head_dim * 2),
            meta.slot,
            kv.index_raw_pool->0,
            1,
            ctx.config.index_head_dim as u32,
            args.bs as u32,
            kv.index_raw_block_stride->0 as u32,
            args.stream,
        )
    }

    /// The steps of the raw index entry, as far as its parts get.
    pub open spec fn index_sections(
        self,
        ctx: ForwardContext,
        args: DecodeMlaArgs,
        kv: KvLayerPools,
        key: Seq<CommandView>,
        norm: Trace<(), OpsError>,
        gated: Seq<CommandView>,
        written: Trace<(), OpsError>,
    ) -> Trace<(), DecodeError> {
        if kv.index_raw_pool is None {
            Trace {
                steps: Seq::empty(),
                outcome: Err(DecodeError::SidecarMissing { layer: self.attn_layer_idx }),
            }
        } else if kv.index_raw_block_stride is None {
            Trace {
                steps: Seq::empty(),
                outcome: Err(DecodeError::RawStrideMissing { layer: self.attn_layer_idx }),
            }
        } else if norm.outcome is Err {
            Trace {
                steps: opening(ctx.profile) + key,
                outcome: Err(DecodeError::Ops(norm.outcome->Err_0)),
            }
        } else if kv.index_raw_block_stride->0 > u32::MAX {
            Trace {
                steps: opening(ctx.profile) + (key + norm.steps + gated),
                outcome: Err(DecodeError::RawStrideTooLarge),
            }
        } else {
            dispatch_section(
                ctx.profile,
                "glm_index_cache",
                args.stream,
                key + norm.steps + gated,
                written,
            )
        }
    }

    /// The raw index entry of the token: its normalised key, its compression
    /// gate, and the write to the pool.
    pub open spec fn index_cache_trace(
        self,
        ctx: ForwardContext,
        args: DecodeMlaArgs,
        meta: AttnMetadata,
        kv: KvLayerPools,
        indexer: Glm5IndexerWeights,
    ) -> Trace<(), DecodeError> {
        self.index_sections(
            ctx,
            args,
            kv,
            self.index_key(ctx, args, indexer),
            self.index_norm(ctx, args, indexer),
            self.index_gate(ctx, args, indexer),
            self.index_write(ctx, args, meta, kv),
        )
    }

    /// The address of the compression gate can be formed where it is needed.
    pub open spec fn index_cache_fits(
        self,
        ctx: ForwardContext,
        args: DecodeMlaArgs,
        kv: KvLayerPools,
    ) -> bool {
        kv.index_raw_pool is Some && kv.index_raw_block_stride is Some && 0 < (
        ctx.config.index_head_dim as u32) <= 1024 ==> {
            &&& ctx.config.index_head_dim * 2 <= usize::MAX
            &&& args.q_out.reaches(ctx.config.index_head_dim * 2)
        }
    }

    pub(crate) fn index_cache(
        &self,
        gpu: &mut CommandBuffer,
        ctx: &ForwardContext,
        args: &DecodeMlaArgs,
        meta: &AttnMetadata,
        kv: &KvLayerPools,
        indexer: &Glm5IndexerWeights,
    ) -> (result: Result<(), DecodeError>)
        requires
            self.index_cache_fits(*ctx, *args, *kv),
        ensures
            follows(
                *final(gpu),
                *old(gpu),
                result,
                self.index_cache_trace(*ctx, *args, *meta, *kv, *indexer),
            ),
    {
        let ghost start = *gpu;
        let ghost trace = self.index_cache_trace(*ctx, *args, *meta, *kv, *indexer);
        let raw_pool: DevicePtr = match kv.index_raw_pool {
            Some(pool) => pool,
            None => {
                assert(gpu@ =~= start@ + trace.steps);
                return Err(DecodeError::SidecarMissing { layer: self.attn_layer_idx });
            },
        };
        let raw_stride: usize = match kv.index_raw_block_stride {
            Some(stride) => stride,
            None => {
                assert(gpu@ =~= start@ + trace.steps);
                return Err(DecodeError::RawStrideMissing { layer: self.attn_layer_idx });
            },
        };
        let dim: u32 = ctx.config.index_head_dim as u32;
        gpu.open_section(ctx.profile);
        self.dense_gemv(gpu, indexer.wk, args.normed, args.q_out, dim, args.h, args.stream);
        match index_key_layer_norm(
            gpu,
            self.glm_index_norm_k,
            args.q_out,
            indexer.k_norm_weight.weight,
            indexer.k_norm_bias.weight,
            args.q_out,
            dim,
            Float32::Bits(INDEX_NORM_EPS_BITS),
            args.stream,
        ) {
            Ok(()) => {},
            Err(error) => {
                assert(gpu@ =~= start@ + trace.steps);
                return Err(DecodeError::Ops(error));
            },
        }
        let gate = args.q_out.offset(ctx.config.index_head_dim * 2);
        self.dense_gemv(
            gpu,
            indexer.kpool_compress_gate,
            args.normed,
            gate,
            dim,
            args.h,
            args.stream,
        );
        if raw_stride > u32::MAX as usize {
            assert(gpu@ =~= start@ + trace.steps);
            return Err(DecodeError::RawStrideTooLarge);
        }
        let written = index_pool_write_raw(
            gpu,
            self.glm_index_write_k,
            args.q_out,
            gate,
            meta.slot,
            raw_pool,
            1,
            dim,
            args.bs as u32,
            raw_stride as u32,
            args.stream,
        );
        gpu.close_section(ctx.profile, "glm_index_cache", written.is_ok(), args.stream);
        assert(gpu@ =~= start@ + trace.steps);
        match written {
            Ok(()) => Ok(()),
            Err(error) => Err(DecodeError::Ops(error)),
        }
    }

    /// The kernel that keeps the best pools.
    pub open spec fn select_dispatch(
        self,
        ctx: ForwardContext,
        args: DecodeMlaArgs,
        meta: AttnMetadata,
        kv: KvLayerPools,
        indexer: Glm5IndexerWeights,
        chosen: IndexSelection,
    ) -> Trace<(), OpsError> {
        index_pool_select_weighted_trace(
            self.glm_index_select_k,
            ctx.buffers.ssm_deinterleaved,
            kv.index_raw_pool->0,
            ctx.buffers.ssm_deinterleaved.plus(self.index_query_bytes(ctx)),
            indexer.kpool_compress_ape.weight,
            meta.block_table,
            args.q_out,
            chosen.candidates,
            args.bs as u32,
            kv.index_raw_block_stride->0 as u32,
            ctx.config.index_n_heads as u32,
            ctx.config.index_head_dim as u32,
            chosen.kpool,
            chosen.select_count,
            args.stream,
        )
    }

    /// Keep the best of the complete pools.
    pub open spec fn select_trace(
        self,
        ctx: ForwardContext,
        args: DecodeMlaArgs,
        meta: AttnMetadata,
        kv: KvLayerPools,
        indexer: Glm5IndexerWeights,
        chosen: IndexSelection,
    ) -> Trace<(), DecodeError> {
        if chosen.select_count > 0 {
            dispatch_section(
                ctx.profile,
                "glm_index_select",
                args.stream,
                Seq::empty(),
                self.select_dispatch(ctx, args, meta, kv, indexer, chosen),
            )
        } else {
            done(Seq::empty())
        }
    }

    /// The kernel that lists the tokens of the kept pools.
    pub open spec fn expand_dispatch(
        self,
        ctx: ForwardContext,
        args: DecodeMlaArgs,
        chosen: IndexSelection,
    ) -> Trace<(), OpsError> {
        index_pool_expand_trace(
            self.glm_index_expand_k,
            args.q_out,
            ctx.buffers.ssm_deinterleaved,
            chosen.select_count,
            chosen.kpool,
            chosen.seq_len,
            chosen.tail_count,
            args.stream,
        )
    }

    /// Turn the kept pools into token indices.
    pub open spec fn expand_trace(
        self,
        ctx: ForwardContext,
        args: DecodeMlaArgs,
        chosen: IndexSelection,
    ) -> Trace<(), DecodeError> {
        dispatch_section(
            ctx.profile,
            "glm_index_expand",
            args.stream,
            Seq::empty(),
            self.expand_dispatch(ctx, args, chosen),
        )
    }

    /// The kernel that attends to the listed tokens.
    pub open spec fn attend_dispatch(
        self,
        ctx: ForwardContext,
        args: DecodeMlaArgs,
        meta: AttnMetadata,
        kv: KvLayerPools,
        chosen: IndexSelection,
    ) -> Trace<(), OpsError> {
        selected_mla_bf16_trace(
            self.glm_selected_mla_k,
            ctx.buffers.expert_up_out,
            kv.k_pool,
            kv.v_pool,
            meta.block_table,
            ctx.buffers.ssm_deinterleaved,
            ctx.buffers.attn_output,
            chosen.selected_tokens() as u32,
            args.bs as u32,
            self.kv_lora(),
            args.nq,
            args.inv_sqrt_d,
            args.stream,
        )
    }

    /// Attend to the selected tokens.
    pub open spec fn attend_selected_trace(
        self,
        ctx: ForwardContext,
        args: DecodeMlaArgs,
        meta: AttnMetadata,
        kv: KvLayerPools,
        chosen: IndexSelection,
    ) -> Trace<(), DecodeError> {
        dispatch_section(
            ctx.profile,
            "glm_selected_mla",
            args.stream,
            Seq::empty(),
            self.attend_dispatch(ctx, args, meta, kv, chosen),
        )
    }

    /// Attention over the tokens that the indexer selects.
    pub open spec fn sparse_trace(
        self,
        ctx: ForwardContext,
        args: DecodeMlaArgs,
        meta: AttnMetadata,
        kv: KvLayerPools,
        indexer: Glm5IndexerWeights,
    ) -> Trace<(), DecodeError> {
        match selection(*ctx.config, args.pos) {
            Err(error) => Trace {
                steps: Seq::empty(),
                outcome: Err(DecodeError::Selection(error)),
            },
            Ok(chosen) => chain(
                chain(
                    self.select_trace(ctx, args, meta, kv, indexer, chosen),
                    self.expand_trace(ctx, args, chosen),
                ),
                self.attend_selected_trace(ctx, args, meta, kv, chosen),
            ),
        }
    }

    fn select_pools(
        &self,
        gpu: &mut CommandBuffer,
        ctx: &ForwardContext,
        args: &DecodeMlaArgs,
        meta: &AttnMetadata,
        kv: &KvLayerPools,
        indexer: &Glm5IndexerWeights,
        chosen: &IndexSelection,
    ) -> (result: Result<(), DecodeError>)
        requires
            self.index_query_fits(*ctx),
            kv.index_raw_pool is Some,
            kv.index_raw_block_stride is Some,
        ensures
            follows(
                *final(gpu),
                *old(gpu),
                result,
                self.select_trace(*ctx, *args, *meta, *kv, *indexer, *chosen),
            ),
    {
        let ghost start = *gpu;
        let ghost trace = self.select_trace(*ctx, *args, *meta, *kv, *indexer, *chosen);
        if chosen.select_count == 0 {
            assert(gpu@ =~= start@ + trace.steps);
            return Ok(());
        }
        let staged = ctx.buffers.ssm_deinterleaved;
        let width: usize = ctx.config.index_n_heads * ctx.config.index_head_dim;
        gpu.open_section(ctx.profile);
        let dispatched = index_pool_select_weighted(
            gpu,
            self.glm_index_select_k,
            staged,
            kv.index_raw_pool.unwrap(),
            staged.offset(width * 2),
            indexer.kpool_compress_ape.weight,
            meta.block_table,
            args.q_out,
            chosen.candidates,
            args.bs as u32,
            kv.index_raw_block_stride.unwrap() as u32,
            ctx.config.index_n_heads as u32,
            ctx.config.index_head_dim as u32,
            chosen.kpool,
            chosen.select_count,
            args.stream,
        );
        gpu.close_section(ctx.profile, "glm_index_select", dispatched.is_ok(), args.stream);
        assert(gpu@ =~= start@ + trace.steps);
        match dispatched {
            Ok(()) => Ok(()),
            Err(error) => Err(DecodeError::Ops(error)),
        }
    }

    fn expand_pools(
        &self,
        gpu: &mut CommandBuffer,
        ctx: &ForwardContext,
        args: &DecodeMlaArgs,
        chosen: &IndexSelection,
    ) -> (result: Result<(), DecodeError>)
        ensures
            follows(*final(gpu), *old(gpu), result, self.expand_trace(*ctx, *args, *chosen)),
    {
        let ghost start = *gpu;
        gpu.open_section(ctx.profile);
        let dispatched = index_pool_expand(
            gpu,
            self.glm_index_expand_k,
            args.q_out,
            ctx.buffers.ssm_deinterleaved,
            chosen.select_count,
            chosen.kpool,
            chosen.seq_len,
            chosen.tail_count,
            args.stream,
        );
        gpu.close_section(ctx.profile, "glm_index_expand", dispatched.is_ok(), args.stream);
        assert(gpu@ =~= start@ + self.expand_trace(*ctx, *args, *chosen).steps);
        match dispatched {
            Ok(()) => Ok(()),
            Err(error) => Err(DecodeError::Ops(error)),
        }
    }

    fn attend_selected(
        &self,
        gpu: &mut CommandBuffer,
        ctx: &ForwardContext,
        args: &DecodeMlaArgs,
        meta: &AttnMetadata,
        kv: &KvLayerPools,
        chosen: &IndexSelection,
    ) -> (result: Result<(), DecodeError>)
        requires
            self.mla is Some,
            chosen.selected_tokens() <= u32::MAX,
        ensures
            follows(
                *final(gpu),
                *old(gpu),
                result,
                self.attend_selected_trace(*ctx, *args, *meta, *kv, *chosen),
            ),
    {
        let ghost start = *gpu;
        let mla: MlaWeights = self.mla.unwrap();
        let tokens: u32 = chosen.select_count * chosen.kpool + chosen.tail_count;
        gpu.open_section(ctx.profile);
        let dispatched = selected_mla_bf16(
            gpu,
            self.glm_selected_mla_k,
            ctx.buffers.expert_up_out,
            kv.k_pool,
            kv.v_pool,
            meta.block_table,
            ctx.buffers.ssm_deinterleaved,
            ctx.buffers.attn_output,
            tokens,
            args.bs as u32,
            mla.kv_lora_rank as u32,
            args.nq,
            args.inv_sqrt_d,
            args.stream,
        );
        gpu.close_section(ctx.profile, "glm_selected_mla", dispatched.is_ok(), args.stream);
        assert(gpu@ =~= start@ + self.attend_selected_trace(
            *ctx,
            *args,
            *meta,
            *kv,
            *chosen,
        ).steps);
        match dispatched {
            Ok(()) => Ok(()),
            Err(error) => Err(DecodeError::Ops(error)),
        }
    }

    pub(crate) fn sparse_attention(
        &self,
        gpu: &mut CommandBuffer,
        ctx: &ForwardContext,
        args: &DecodeMlaArgs,
        meta: &AttnMetadata,
        kv: &KvLayerPools,
        indexer: &Glm5IndexerWeights,
    ) -> (result: Result<(), DecodeError>)
        requires
            self.mla is Some,
            self.index_query_fits(*ctx),
            kv.index_raw_pool is Some,
            kv.index_raw_block_stride is Some,
            args.pos is Some ==> ctx.config.index_kpool > 0,
        ensures
            follows(
                *final(gpu),
                *old(gpu),
                result,
                self.sparse_trace(*ctx, *args, *meta, *kv, *indexer),
            ),
    {
        let ghost start = *gpu;
        let chosen: IndexSelection = match select(ctx.config, args.pos) {
            Ok(chosen) => chosen,
            Err(error) => {
                assert(gpu@ =~= start@ + Seq::<CommandView>::empty());
                return Err(DecodeError::Selection(error));
            },
        };
        proof {
            law_selection_within_sequence(*ctx.config, args.pos);
        }
        let ghost selected = self.select_trace(*ctx, *args, *meta, *kv, *indexer, chosen);
        let ghost expanded = self.expand_trace(*ctx, *args, chosen);
        let ghost attended = self.attend_selected_trace(*ctx, *args, *meta, *kv, chosen);
        self.select_pools(gpu, ctx, args, meta, kv, indexer, &chosen)?;
        let ghost middle = *gpu;
        let expansion = self.expand_pools(gpu, ctx, args, &chosen);
        proof {
            lemma_extends_twice(start, middle, *gpu, selected.steps, expanded.steps);
        }
        expansion?;
        let ghost middle = *gpu;
        let attention = self.attend_selected(gpu, ctx, args, meta, kv, &chosen);
        proof {
            lemma_extends_twice(
                start,
                middle,
                *gpu,
                selected.steps + expanded.steps,
                attended.steps,
            );
        }
        attention
    }
}

} // verus!
