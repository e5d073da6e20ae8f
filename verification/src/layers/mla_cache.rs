//! The key/value latent and its cache entry.
use vstd::prelude::*;

use crate::device::{call, timed, AttnMetadata, CommandBuffer, CommandView, DeviceCall};
use crate::layers::mla_decode::{DecodeMlaArgs, KvLayerPools, Qwen3AttentionLayer};
use crate::layers::{ForwardContext, MlaWeights};

verus! {

impl Qwen3AttentionLayer {
    /// The key/value projection and the norm.
    pub open spec fn latent_body(
        self,
        ctx: ForwardContext,
        args: DecodeMlaArgs,
    ) -> Seq<CommandView> {
        let mla = self.weights();
        let latent = ctx.buffers.expert_gate_out;
        seq![
            self.projection(
                ctx,
                mla.wkv_a_nvfp4,
                mla.wkv_a,
                args.normed,
                latent,
                self.kv_lora(),
                args.h,
                args.stream,
            ),
            self.norm(mla.kv_a_norm, latent, self.kv_lora(), args),
        ]
    }

    /// Key/value latent and its norm.
    pub open spec fn latent_steps(
        self,
        ctx: ForwardContext,
        args: DecodeMlaArgs,
    ) -> Seq<CommandView> {
        timed(
            ctx.profile,
            "wkv_a+norm",
            true,
            args.stream,
            self.latent_body(ctx, args),
        )
    }

    pub(crate) fn latent(&self, gpu: &mut CommandBuffer, ctx: &ForwardContext, args: &DecodeMlaArgs)
        requires
            self.mla is Some,
        ensures
            final(gpu).extends(*old(gpu), self.latent_steps(*ctx, *args)),
    {
        let mla: MlaWeights = self.mla.unwrap();
        let kv_lora: u32 = mla.kv_lora_rank as u32;
        let latent = ctx.buffers.expert_gate_out;
        let ghost start = *gpu;
        gpu.open_section(ctx.profile);
        self.project(
            gpu,
            ctx,
            mla.wkv_a_nvfp4,
            mla.wkv_a,
            args.normed,
            latent,
            kv_lora,
            args.h,
            args.stream,
        );
        self.rms_norm(gpu, mla.kv_a_norm, latent, kv_lora, args);
        gpu.close_section(ctx.profile, "wkv_a+norm", true, args.stream);
        assert(gpu@ =~= start@ + self.latent_steps(*ctx, *args));
    }

    /// The cache entry, from the latent and the rotary key: the key entry holds
    /// both, the value entry the latent and zeros.
    pub open spec fn cache_entry(
        self,
        ctx: ForwardContext,
        args: DecodeMlaArgs,
    ) -> Seq<CommandView> {
        let mla = self.weights();
        let latent = ctx.buffers.expert_gate_out;
        let k_rope = ctx.buffers.ssm_ba;
        if self.mla_cache_assemble_k.present() {
            seq![
                call(
                    DeviceCall::MlaCacheAssemble {
                        kernel: self.mla_cache_assemble_k,
                        kv_latent: latent,
                        k_rope,
                        k_entry: args.k_out,
                        v_entry: args.v_out,
                        kv_lora: self.kv_lora(),
                        rope: self.rope(),
                        cache_dim: self.cache_dim(),
                        stream: args.stream,
                    },
                ),
            ]
        } else {
            let rank_bytes = (mla.kv_lora_rank * 2) as usize;
            let rope_bytes = (mla.rope * 2) as usize;
            seq![
                call(
                    DeviceCall::CopyD2dAsync {
                        src: latent,
                        dst: args.k_out,
                        bytes: rank_bytes,
                        stream: args.stream,
                    },
                ),
                call(
                    DeviceCall::CopyD2dAsync {
                        src: k_rope,
                        dst: args.k_out.plus(mla.kv_lora_rank * 2),
                        bytes: rope_bytes,
                        stream: args.stream,
                    },
                ),
                call(
                    DeviceCall::CopyD2dAsync {
                        src: latent,
                        dst: args.v_out,
                        bytes: rank_bytes,
                        stream: args.stream,
                    },
                ),
                call(
                    DeviceCall::MemsetAsync {
                        dst: args.v_out.plus(mla.kv_lora_rank * 2),
                        value: 0,
                        bytes: rope_bytes,
                        stream: args.stream,
                    },
                ),
            ]
        }
    }

    /// The cache entry and its write.
    pub open spec fn cache_body(
        self,
        ctx: ForwardContext,
        args: DecodeMlaArgs,
        meta: AttnMetadata,
        kv: KvLayerPools,
    ) -> Seq<CommandView> {
        self.cache_entry(ctx, args) + seq![
            call(
                DeviceCall::WriteKvCache {
                    layer: self.attn_layer_idx,
                    k_pool: kv.k_pool,
                    v_pool: kv.v_pool,
                    k_entry: args.k_out,
                    v_entry: args.v_out,
                    slot: meta.slot,
                    rows: 1,
                    kv_heads: 1,
                    head_dim: self.cache_dim(),
                    block_size: args.bs as u32,
                    k_stride: self.cache_dim(),
                    v_stride: self.cache_dim(),
                    stream: args.stream,
                    graph_capture: ctx.graph_capture,
                },
            ),
        ]
    }

    /// Assemble the cache entry and write it to the slot of the token in the
    /// cache of this layer.
    pub open spec fn cache_steps(
        self,
        ctx: ForwardContext,
        args: DecodeMlaArgs,
        meta: AttnMetadata,
        kv: KvLayerPools,
    ) -> Seq<CommandView> {
        timed(
            ctx.profile,
            "cache_asm+write",
            true,
            args.stream,
            self.cache_body(ctx, args, meta, kv),
        )
    }

    pub open spec fn cache_fits(self, args: DecodeMlaArgs) -> bool {
        let mla = self.weights();
        !self.mla_cache_assemble_k.present() ==> {
            &&& mla.kv_lora_rank * 2 <= usize::MAX
            &&& mla.rope * 2 <= usize::MAX
            &&& args.k_out.reaches(mla.kv_lora_rank * 2)
            &&& args.v_out.reaches(mla.kv_lora_rank * 2)
        }
    }

    pub(crate) fn write_cache(
        &self,
        gpu: &mut CommandBuffer,
        ctx: &ForwardContext,
        args: &DecodeMlaArgs,
        meta: &AttnMetadata,
        kv: &KvLayerPools,
    )
        requires
            self.mla is Some,
            self.kv_lora() + self.rope() <= u32::MAX,
            self.cache_fits(*args),
        ensures
            final(gpu).extends(*old(gpu), self.cache_steps(*ctx, *args, *meta, *kv)),
    {
        let mla: MlaWeights = self.mla.unwrap();
        let kv_lora: u32 = mla.kv_lora_rank as u32;
        let rope: u32 = mla.rope as u32;
        let cache_dim: u32 = kv_lora + rope;
        let latent = ctx.buffers.expert_gate_out;
        let k_rope = ctx.buffers.ssm_ba;
        let stream: u64 = args.stream;
        let ghost start = *gpu;
        gpu.open_section(ctx.profile);
        if self.mla_cache_assemble_k.is_present() {
            gpu.call(
                DeviceCall::MlaCacheAssemble {
                    kernel: self.mla_cache_assemble_k,
                    kv_latent: latent,
                    k_rope,
                    k_entry: args.k_out,
                    v_entry: args.v_out,
                    kv_lora,
                    rope,
                    cache_dim,
                    stream,
                },
            );
        } else {
            let rank_bytes: usize = mla.kv_lora_rank * 2;
            let rope_bytes: usize = mla.rope * 2;
            gpu.call(
                DeviceCall::CopyD2dAsync {
                    src: latent,
                    dst: args.k_out,
                    bytes: rank_bytes,
                    stream,
                },
            );
            gpu.call(
                DeviceCall::CopyD2dAsync {
                    src: k_rope,
                    dst: args.k_out.offset(rank_bytes),
                    bytes: rope_bytes,
                    stream,
                },
            );
            gpu.call(
                DeviceCall::CopyD2dAsync {
                    src: latent,
                    dst: args.v_out,
                    bytes: rank_bytes,
                    stream,
                },
            );
            gpu.call(
                DeviceCall::MemsetAsync {
                    dst: args.v_out.offset(rank_bytes),
                    value: 0,
                    bytes: rope_bytes,
                    stream,
                },
            );
        }
        gpu.call(
            DeviceCall::WriteKvCache {
                layer: self.attn_layer_idx,
                k_pool: kv.k_pool,
                v_pool: kv.v_pool,
                k_entry: args.k_out,
                v_entry: args.v_out,
                slot: meta.slot,
                rows: 1,
                kv_heads: 1,
                head_dim: cache_dim,
                block_size: args.bs as u32,
                k_stride: cache_dim,
                v_stride: cache_dim,
                stream,
                graph_capture: ctx.graph_capture,
            },
        );
        gpu.close_section(ctx.profile, "cache_asm+write", true, stream);
        assert(gpu@ =~= start@ + self.cache_steps(*ctx, *args, *meta, *kv));
    }
}

} // verus!
