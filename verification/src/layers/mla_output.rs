//! Value extraction and the output projection.
use vstd::prelude::*;

use crate::device::{call, timed, CommandBuffer, CommandView, DenseWeight, DeviceCall};
use crate::layers::mla_decode::{DecodeMlaArgs, Qwen3AttentionLayer};
use crate::layers::{ForwardContext, MlaWeights};

verus! {

impl Qwen3AttentionLayer {
    /// The values of head `head`.
    pub open spec fn extract_head(
        self,
        ctx: ForwardContext,
        args: DecodeMlaArgs,
        head: int,
    ) -> CommandView {
        let mla = self.weights();
        self.dense(
            DenseWeight { weight: mla.w_uv.weight.plus(head * mla.v_dim * mla.kv_lora_rank * 2) },
            ctx.buffers.attn_output.plus(head * self.cache_dim() * 2),
            ctx.buffers.norm_output.plus(head * mla.v_dim * 2),
            self.v_dim(),
            self.kv_lora(),
            args.stream,
        )
    }

    pub open spec fn extract_head_fits(self, ctx: ForwardContext, head: int) -> bool {
        let mla = self.weights();
        &&& head * self.cache_dim() * 2 <= usize::MAX
        &&& ctx.buffers.attn_output.reaches(head * self.cache_dim() * 2)
        &&& head * mla.v_dim * 2 <= usize::MAX
        &&& ctx.buffers.norm_output.reaches(head * mla.v_dim * 2)
        &&& head * mla.v_dim * mla.kv_lora_rank * 2 <= usize::MAX
        &&& mla.w_uv.weight.reaches(head * mla.v_dim * mla.kv_lora_rank * 2)
    }

    /// One product per head, or one for all of them.
    pub open spec fn extract_body(
        self,
        ctx: ForwardContext,
        args: DecodeMlaArgs,
    ) -> Seq<CommandView> {
        let mla = self.weights();
        let batched = self.mla_batched_gemv_k.present();
        if batched {
            seq![
                call(
                    DeviceCall::MlaBatchedGemv {
                        kernel: self.mla_batched_gemv_k,
                        input: ctx.buffers.attn_output,
                        weight: mla.w_uv.weight,
                        output: ctx.buffers.norm_output,
                        n: self.v_dim(),
                        k: self.kv_lora(),
                        heads: args.nq,
                        input_stride: self.cache_dim(),
                        output_stride: self.v_dim(),
                        stream: args.stream,
                    },
                ),
            ]
        } else {
            Seq::new(args.nq as nat, |head: int| self.extract_head(ctx, args, head))
        }
    }

    /// The output projection.
    pub open spec fn wo_body(self, ctx: ForwardContext, args: DecodeMlaArgs) -> Seq<CommandView> {
        let mla = self.weights();
        seq![
            self.projection(
                ctx,
                mla.wo_nvfp4,
                mla.wo,
                ctx.buffers.norm_output,
                ctx.buffers.qkv_output,
                args.h,
                (args.nq * self.v_dim()) as u32,
                args.stream,
            ),
        ]
    }

    /// Value extraction and the output projection.
    pub open spec fn output_steps(
        self,
        ctx: ForwardContext,
        args: DecodeMlaArgs,
    ) -> Seq<CommandView> {
        timed(
            ctx.profile,
            "v_extract",
            self.mla_batched_gemv_k.present(),
            args.stream,
            self.extract_body(ctx, args),
        ) + timed(ctx.profile, "wo", true, args.stream, self.wo_body(ctx, args))
    }

    pub open spec fn output_fits(self, ctx: ForwardContext, args: DecodeMlaArgs) -> bool {
        &&& args.nq * self.v_dim() <= u32::MAX
        &&& !self.mla_batched_gemv_k.present() ==> forall|head: int|
            0 <= head < args.nq ==> #[trigger] self.extract_head_fits(ctx, head)
    }

    pub(crate) fn project_output(
        &self,
        gpu: &mut CommandBuffer,
        ctx: &ForwardContext,
        args: &DecodeMlaArgs,
    )
        requires
            self.mla is Some,
            self.kv_lora() + self.rope() <= u32::MAX,
            self.output_fits(*ctx, *args),
        ensures
            final(gpu).extends(*old(gpu), self.output_steps(*ctx, *args)),
    {
        let mla: MlaWeights = self.mla.unwrap();
        let kv_lora: u32 = mla.kv_lora_rank as u32;
        let v_dim: u32 = mla.v_dim as u32;
        let cache_dim: u32 = kv_lora + mla.rope as u32;
        let attn_out = ctx.buffers.attn_output;
        let extracted = ctx.buffers.norm_output;
        let batched: bool = self.mla_batched_gemv_k.is_present();
        let ghost start = *gpu;
        gpu.open_section(ctx.profile);
        let ghost opened = *gpu;
        let ghost body = |head: int| self.extract_head(*ctx, *args, head);
        if batched {
            gpu.call(
                DeviceCall::MlaBatchedGemv {
                    kernel: self.mla_batched_gemv_k,
                    input: attn_out,
                    weight: mla.w_uv.weight,
                    output: extracted,
                    n: v_dim,
                    k: kv_lora,
                    heads: args.nq,
                    input_stride: cache_dim,
                    output_stride: v_dim,
                    stream: args.stream,
                },
            );
        } else {
            let mut head: usize = 0;
            assert(gpu@ =~= opened@ + Seq::new(0, body));
            while head < args.nq as usize
                invariant
                    head <= args.nq,
                    self.mla == Some(mla),
                    kv_lora == self.kv_lora(),
                    v_dim == self.v_dim(),
                    cache_dim == self.cache_dim(),
                    attn_out == ctx.buffers.attn_output,
                    extracted == ctx.buffers.norm_output,
                    !self.mla_batched_gemv_k.present(),
                    self.output_fits(*ctx, *args),
                    body == (|head: int| self.extract_head(*ctx, *args, head)),
                    gpu.extends(opened, Seq::new(head as nat, body)),
                decreases args.nq - head,
            {
                assert(self.extract_head_fits(*ctx, head as int));
                let ghost before = Seq::new(head as nat, body);
                let input = attn_out.offset(head * cache_dim as usize * 2);
                let weight = mla.w_uv.weight.offset(head * mla.v_dim * mla.kv_lora_rank * 2);
                let output = extracted.offset(head * mla.v_dim * 2);
                self.dense_gemv(
                    gpu,
                    DenseWeight { weight },
                    input,
                    output,
                    v_dim,
                    kv_lora,
                    args.stream,
                );
                assert(Seq::new((head + 1) as nat, body) =~= before.push(body(head as int)));
                assert(gpu@ =~= opened@ + Seq::new((head + 1) as nat, body));
                head = head + 1;
            }
        }
        gpu.close_section(ctx.profile, "v_extract", batched, args.stream);
        gpu.open_section(ctx.profile);
        self.project(
            gpu,
            ctx,
            mla.wo_nvfp4,
            mla.wo,
            extracted,
            ctx.buffers.qkv_output,
            args.h,
            args.nq * v_dim,
            args.stream,
        );
        gpu.close_section(ctx.profile, "wo", true, args.stream);
        assert(gpu@ =~= start@ + self.output_steps(*ctx, *args));
    }
}

} // verus!
