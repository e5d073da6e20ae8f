//! Absorbed latent-attention decode of one token: its operands, and the query.
//!
//! Query latent, its norm and expansion; absorbed query; rotary part; key/value
//! latent; cache entry; attention over the cache, dense or over the tokens that
//! the indexer selects; value extraction; output projection.
use vstd::prelude::*;

use crate::device::{
    call, timed, CommandBuffer, CommandView, DenseWeight, DeviceCall, DevicePtr, Float32,
    KernelHandle, QuantizedWeight,
};
use crate::layers::{ForwardContext, MlaWeights};

verus! {

/// What one decode step works on.
#[derive(Clone, Copy, PartialEq, Eq, Debug)]
pub struct DecodeMlaArgs {
    pub normed: DevicePtr,
    pub q_out: DevicePtr,
    pub k_out: DevicePtr,
    pub v_out: DevicePtr,
    pub q_dim: u32,
    pub h: u32,
    pub nq: u32,
    pub hd: u32,
    pub eps: Float32,
    pub bs: usize,
    pub stream: u64,
    /// The position of the token; absent when several sequences are decoded at
    /// once.
    pub pos: Option<u32>,
    /// The attention scale for heads of width `hd`.
    pub inv_sqrt_d: Float32,
}

/// The cache pools of one attention layer.
#[derive(Clone, Copy, PartialEq, Eq, Debug)]
pub struct KvLayerPools {
    pub k_pool: DevicePtr,
    pub v_pool: DevicePtr,
    pub index_raw_pool: Option<DevicePtr>,
    pub index_raw_block_stride: Option<usize>,
}

/// The key/value cache of a model: the pools of each attention layer, by its
/// number among those layers.
#[derive(PartialEq, Eq, Debug)]
pub struct PagedKvCache {
    pub layers: Vec<KvLayerPools>,
}

/// An attention layer, as far as latent-attention decode reads it.
#[derive(Clone, Copy, PartialEq, Eq, Debug)]
pub struct Qwen3AttentionLayer {
    pub mla: Option<MlaWeights>,
    pub attn_layer_idx: usize,
    pub dense_gemv_k: KernelHandle,
    pub rms_norm_w_k: KernelHandle,
    pub mla_batched_gemv_k: KernelHandle,
    pub mla_q_rope_scatter_k: KernelHandle,
    pub mla_q_rope_writeback_k: KernelHandle,
    pub mla_cache_assemble_k: KernelHandle,
    pub rope_yarn_k: KernelHandle,
    pub paged_decode_mla_k: KernelHandle,
    pub glm_index_norm_k: KernelHandle,
    pub glm_index_write_k: KernelHandle,
    pub glm_index_select_k: KernelHandle,
    pub glm_index_expand_k: KernelHandle,
    pub glm_selected_mla_k: KernelHandle,
}

impl Qwen3AttentionLayer {
    /// The pools of this layer.
    pub open spec fn pools(self, kv_cache: PagedKvCache) -> KvLayerPools {
        kv_cache.layers@[self.attn_layer_idx as int]
    }

    pub open spec fn weights(self) -> MlaWeights {
        self.mla->0
    }

    pub open spec fn q_lora(self) -> u32 {
        self.weights().q_lora_rank as u32
    }

    pub open spec fn kv_lora(self) -> u32 {
        self.weights().kv_lora_rank as u32
    }

    pub open spec fn nope(self) -> u32 {
        self.weights().nope as u32
    }

    pub open spec fn rope(self) -> u32 {
        self.weights().rope as u32
    }

    pub open spec fn v_dim(self) -> u32 {
        self.weights().v_dim as u32
    }

    /// The width of a cache entry.
    pub open spec fn cache_dim(self) -> u32 {
        (self.kv_lora() + self.rope()) as u32
    }

    /// A matrix-vector product with the quantised weight where there is one.
    pub open spec fn projection(
        self,
        ctx: ForwardContext,
        quantized: Option<QuantizedWeight>,
        dense: DenseWeight,
        input: DevicePtr,
        output: DevicePtr,
        n: u32,
        k: u32,
        stream: u64,
    ) -> CommandView {
        match quantized {
            Some(weight) => call(
                DeviceCall::Nvfp4Gemv {
                    layer: self.attn_layer_idx,
                    gemv_sw: ctx.gemv_sw,
                    input,
                    weight,
                    output,
                    n,
                    k,
                    stream,
                },
            ),
            None => self.dense(dense, input, output, n, k, stream),
        }
    }

    pub open spec fn dense(
        self,
        weight: DenseWeight,
        input: DevicePtr,
        output: DevicePtr,
        n: u32,
        k: u32,
        stream: u64,
    ) -> CommandView {
        call(
            DeviceCall::DenseGemv {
                kernel: self.dense_gemv_k,
                input,
                weight,
                output,
                n,
                k,
                stream,
            },
        )
    }

    pub open spec fn norm(
        self,
        weight: DenseWeight,
        latent: DevicePtr,
        width: u32,
        args: DecodeMlaArgs,
    ) -> CommandView {
        call(
            DeviceCall::RmsNorm {
                kernel: self.rms_norm_w_k,
                input: latent,
                weight,
                output: latent,
                rows: 1,
                width,
                eps: args.eps,
                stream: args.stream,
            },
        )
    }

    /// Query latent, norm, expansion.
    pub open spec fn query_steps(
        self,
        ctx: ForwardContext,
        args: DecodeMlaArgs,
    ) -> Seq<CommandView> {
        let mla = self.weights();
        let latent = ctx.buffers.ssm_ba;
        timed(
            ctx.profile,
            "wq_a",
            true,
            args.stream,
            seq![
                self.projection(
                    ctx,
                    mla.wq_a_nvfp4,
                    mla.wq_a,
                    args.normed,
                    latent,
                    self.q_lora(),
                    args.h,
                    args.stream,
                ),
            ],
        ) + timed(
            ctx.profile,
            "q_norm",
            true,
            args.stream,
            seq![self.norm(mla.q_a_norm, latent, self.q_lora(), args)],
        ) + timed(
            ctx.profile,
            "wq_b",
            true,
            args.stream,
            seq![
                self.projection(
                    ctx,
                    mla.wq_b_nvfp4,
                    mla.wq_b,
                    latent,
                    ctx.buffers.ssm_deinterleaved,
                    args.q_dim,
                    self.q_lora(),
                    args.stream,
                ),
            ],
        )
    }

    pub(crate) fn project(
        &self,
        gpu: &mut CommandBuffer,
        ctx: &ForwardContext,
        quantized: Option<QuantizedWeight>,
        dense: DenseWeight,
        input: DevicePtr,
        output: DevicePtr,
        n: u32,
        k: u32,
        stream: u64,
    )
        ensures
            final(gpu).extends(
                *old(gpu),
                seq![self.projection(*ctx, quantized, dense, input, output, n, k, stream)],
            ),
    {
        match quantized {
            Some(weight) => {
                gpu.call(
                    DeviceCall::Nvfp4Gemv {
                        layer: self.attn_layer_idx,
                        gemv_sw: ctx.gemv_sw,
                        input,
                        weight,
                        output,
                        n,
                        k,
                        stream,
                    },
                );
            },
            None => {
                gpu.call(
                    DeviceCall::DenseGemv {
                        kernel: self.dense_gemv_k,
                        input,
                        weight: dense,
                        output,
                        n,
                        k,
                        stream,
                    },
                );
            },
        }
    }

    pub(crate) fn dense_gemv(
        &self,
        gpu: &mut CommandBuffer,
        weight: DenseWeight,
        input: DevicePtr,
        output: DevicePtr,
        n: u32,
        k: u32,
        stream: u64,
    )
        ensures
            final(gpu).extends(*old(gpu), seq![self.dense(weight, input, output, n, k, stream)]),
    {
        gpu.call(
            DeviceCall::DenseGemv {
                kernel: self.dense_gemv_k,
                input,
                weight,
                output,
                n,
                k,
                stream,
            },
        );
    }

    pub(crate) fn rms_norm(
        &self,
        gpu: &mut CommandBuffer,
        weight: DenseWeight,
        latent: DevicePtr,
        width: u32,
        args: &DecodeMlaArgs,
    )
        ensures
            final(gpu).extends(*old(gpu), seq![self.norm(weight, latent, width, *args)]),
    {
        gpu.call(
            DeviceCall::RmsNorm {
                kernel: self.rms_norm_w_k,
                input: latent,
                weight,
                output: latent,
                rows: 1,
                width,
                eps: args.eps,
                stream: args.stream,
            },
        );
    }

    pub(crate) fn query(&self, gpu: &mut CommandBuffer, ctx: &ForwardContext, args: &DecodeMlaArgs)
        requires
            self.mla is Some,
        ensures
            final(gpu).extends(*old(gpu), self.query_steps(*ctx, *args)),
    {
        let mla: MlaWeights = self.mla.unwrap();
        let q_lora: u32 = mla.q_lora_rank as u32;
        let latent = ctx.buffers.ssm_ba;
        let ghost start = *gpu;
        gpu.open_section(ctx.profile);
        self.project(
            gpu,
            ctx,
            mla.wq_a_nvfp4,
            mla.wq_a,
            args.normed,
            latent,
            q_lora,
            args.h,
            args.stream,
        );
        gpu.close_section(ctx.profile, "wq_a", true, args.stream);
        gpu.open_section(ctx.profile);
        self.rms_norm(gpu, mla.q_a_norm, latent, q_lora, args);
        gpu.close_section(ctx.profile, "q_norm", true, args.stream);
        gpu.open_section(ctx.profile);
        self.project(
            gpu,
            ctx,
            mla.wq_b_nvfp4,
            mla.wq_b,
            latent,
            ctx.buffers.ssm_deinterleaved,
            args.q_dim,
            q_lora,
            args.stream,
        );
        gpu.close_section(ctx.profile, "wq_b", true, args.stream);
        assert(gpu@ =~= start@ + self.query_steps(*ctx, *args));
    }
}

} // verus!
