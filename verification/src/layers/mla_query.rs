//! The absorbed query and its rotary part.
use vstd::prelude::*;

use crate::device::{
    call, closing, opening, timed, AttnMetadata, CommandBuffer, CommandView, DenseWeight,
    DeviceCall, Float32,
};
use crate::layers::mla_decode::{DecodeMlaArgs, Qwen3AttentionLayer};
use crate::layers::{ForwardContext, MlaWeights};

verus! {

impl Qwen3AttentionLayer {
    /// The absorbed query of head `head`.
    pub open spec fn absorb_head(
        self,
        ctx: ForwardContext,
        args: DecodeMlaArgs,
        head: int,
    ) -> CommandView {
        let mla = self.weights();
        self.dense(
            DenseWeight { weight: mla.w_uk_t.weight.plus(head * mla.nope * mla.kv_lora_rank * 2) },
            ctx.buffers.ssm_deinterleaved.plus(head * args.hd * 2),
            ctx.buffers.expert_up_out.plus(head * self.cache_dim() * 2),
            self.kv_lora(),
            self.nope(),
            args.stream,
        )
    }

    /// The addresses of [`Self::absorb_head`] can be formed.
    pub open spec fn absorb_head_fits(
        self,
        ctx: ForwardContext,
        args: DecodeMlaArgs,
        head: int,
    ) -> bool {
        let mla = self.weights();
        &&& head * args.hd * 2 <= usize::MAX
        &&& ctx.buffers.ssm_deinterleaved.reaches(head * args.hd * 2)
        &&& head * self.cache_dim() * 2 <= usize::MAX
        &&& ctx.buffers.expert_up_out.reaches(head * self.cache_dim() * 2)
        &&& head * mla.nope <= usize::MAX
        &&& head * mla.nope * mla.kv_lora_rank * 2 <= usize::MAX
        &&& mla.w_uk_t.weight.reaches(head * mla.nope * mla.kv_lora_rank * 2)
    }

    /// One product per head, or one for all of them.
    pub open spec fn absorb_body(
        self,
        ctx: ForwardContext,
        args: DecodeMlaArgs,
    ) -> Seq<CommandView> {
        if self.mla_batched_gemv_k.present() {
            seq![
                call(
                    DeviceCall::MlaBatchedGemv {
                        kernel: self.mla_batched_gemv_k,
                        input: ctx.buffers.ssm_deinterleaved,
                        weight: self.weights().w_uk_t.weight,
                        output: ctx.buffers.expert_up_out,
                        n: self.kv_lora(),
                        k: self.nope(),
                        heads: args.nq,
                        input_stride: args.hd,
                        output_stride: self.cache_dim(),
                        stream: args.stream,
                    },
                ),
            ]
        } else {
            Seq::new(args.nq as nat, |head: int| self.absorb_head(ctx, args, head))
        }
    }

    /// The absorbed query of every head.
    pub open spec fn absorb_steps(
        self,
        ctx: ForwardContext,
        args: DecodeMlaArgs,
    ) -> Seq<CommandView> {
        let batched = self.mla_batched_gemv_k.present();
        timed(
            ctx.profile,
            "q_absorb",
            batched,
            args.stream,
            self.absorb_body(ctx, args),
        )
    }

    pub open spec fn absorb_fits(self, ctx: ForwardContext, args: DecodeMlaArgs) -> bool {
        !self.mla_batched_gemv_k.present() ==> forall|head: int|
            0 <= head < args.nq ==> #[trigger] self.absorb_head_fits(ctx, args, head)
    }

    pub(crate) fn absorb(&self, gpu: &mut CommandBuffer, ctx: &ForwardContext, args: &DecodeMlaArgs)
        requires
            self.mla is Some,
            self.kv_lora() + self.rope() <= u32::MAX,
            self.absorb_fits(*ctx, *args),
        ensures
            final(gpu).extends(*old(gpu), self.absorb_steps(*ctx, *args)),
    {
        let mla: MlaWeights = self.mla.unwrap();
        let kv_lora: u32 = mla.kv_lora_rank as u32;
        let nope: u32 = mla.nope as u32;
        let cache_dim: u32 = kv_lora + mla.rope as u32;
        let q_full = ctx.buffers.ssm_deinterleaved;
        let absorbed = ctx.buffers.expert_up_out;
        let batched: bool = self.mla_batched_gemv_k.is_present();
        let ghost start = *gpu;
        gpu.open_section(ctx.profile);
        let ghost opened = *gpu;
        let ghost body = |head: int| self.absorb_head(*ctx, *args, head);
        if batched {
            gpu.call(
                DeviceCall::MlaBatchedGemv {
                    kernel: self.mla_batched_gemv_k,
                    input: q_full,
                    weight: mla.w_uk_t.weight,
                    output: absorbed,
                    n: kv_lora,
                    k: nope,
                    heads: args.nq,
                    input_stride: args.hd,
                    output_stride: cache_dim,
                    stream: args.stream,
                },
            );
        } else {
            let mut head: usize = 0;
            assert(gpu@ =~= opened@ + Seq::new(0, body));
            while head < args.nq as usize
                invariant
                    head <= args.nq,
                    self.mla == Some(mla),
                    kv_lora == self.kv_lora(),
                    nope == self.nope(),
                    cache_dim == self.cache_dim(),
                    q_full == ctx.buffers.ssm_deinterleaved,
                    absorbed == ctx.buffers.expert_up_out,
                    !self.mla_batched_gemv_k.present(),
                    self.absorb_fits(*ctx, *args),
                    body == (|head: int| self.absorb_head(*ctx, *args, head)),
                    gpu.extends(opened, Seq::new(head as nat, body)),
                decreases args.nq - head,
            {
                assert(self.absorb_head_fits(*ctx, *args, head as int));
                let ghost before = Seq::new(head as nat, body);
                let input = q_full.offset(head * args.hd as usize * 2);
                let output = absorbed.offset(head * cache_dim as usize * 2);
                let weight = mla.w_uk_t.weight.offset(head * mla.nope * mla.kv_lora_rank * 2);
                self.dense_gemv(
                    gpu,
                    DenseWeight { weight },
                    input,
                    output,
                    kv_lora,
                    nope,
                    args.stream,
                );
                assert(Seq::new((head + 1) as nat, body) =~= before.push(body(head as int)));
                assert(gpu@ =~= opened@ + Seq::new((head + 1) as nat, body));
                head = head + 1;
            }
        }
        let ghost ran = *gpu;
        gpu.close_section(ctx.profile, "q_absorb", batched, args.stream);
        proof {
            if batched {
                assert(gpu@ =~= start@ + self.absorb_steps(*ctx, *args));
            } else {
                let steps = Seq::new(args.nq as nat, body);
                assert(gpu@ =~= start@ + (opening(ctx.profile) + steps + closing(
                    ctx.profile,
                    "q_absorb",
                    batched,
                    args.stream,
                )));
            }
        }
    }

    /// Where the rotary part of head `head` stands in the absorbed query.
    pub open spec fn absorbed_rope_offset(self, head: int) -> int {
        (head * self.cache_dim() + self.weights().kv_lora_rank) * 2
    }

    /// The rotary parts of the first `count` heads, copied out and into the
    /// absorbed query.
    pub open spec fn scatter_heads(
        self,
        ctx: ForwardContext,
        args: DecodeMlaArgs,
        count: nat,
    ) -> Seq<CommandView>
        decreases count,
    {
        if count == 0 {
            Seq::empty()
        } else {
            let head = count - 1;
            let mla = self.weights();
            let src = ctx.buffers.ssm_deinterleaved.plus((head * args.hd + mla.nope) * 2);
            self.scatter_heads(ctx, args, head as nat) + seq![
                call(
                    DeviceCall::CopyD2dAsync {
                        src,
                        dst: ctx.buffers.ssm_conv_out_f32.plus(head * mla.rope * 2),
                        bytes: (mla.rope * 2) as usize,
                        stream: args.stream,
                    },
                ),
                call(
                    DeviceCall::CopyD2dAsync {
                        src,
                        dst: ctx.buffers.expert_up_out.plus(self.absorbed_rope_offset(head)),
                        bytes: (mla.rope * 2) as usize,
                        stream: args.stream,
                    },
                ),
            ]
        }
    }

    pub open spec fn scatter_head_fits(
        self,
        ctx: ForwardContext,
        args: DecodeMlaArgs,
        head: int,
    ) -> bool {
        let mla = self.weights();
        &&& (head * args.hd + mla.nope) * 2 <= usize::MAX
        &&& ctx.buffers.ssm_deinterleaved.reaches((head * args.hd + mla.nope) * 2)
        &&& mla.rope * 2 <= usize::MAX
        &&& head * mla.rope * 2 <= usize::MAX
        &&& ctx.buffers.ssm_conv_out_f32.reaches(head * mla.rope * 2)
        &&& self.absorbed_rope_offset(head) <= usize::MAX
        &&& ctx.buffers.expert_up_out.reaches(self.absorbed_rope_offset(head))
    }

    /// The rotary parts copied head by head, or by one kernel.
    pub open spec fn scatter_body(
        self,
        ctx: ForwardContext,
        args: DecodeMlaArgs,
    ) -> Seq<CommandView> {
        if self.mla_q_rope_scatter_k.present() {
            seq![
                call(
                    DeviceCall::MlaQRopeScatter {
                        kernel: self.mla_q_rope_scatter_k,
                        q_full: ctx.buffers.ssm_deinterleaved,
                        q_absorbed: ctx.buffers.expert_up_out,
                        q_rope: ctx.buffers.ssm_conv_out_f32,
                        heads: args.nq,
                        head_dim: args.hd,
                        nope: self.nope(),
                        rope: self.rope(),
                        kv_lora: self.kv_lora(),
                        cache_dim: self.cache_dim(),
                        stream: args.stream,
                    },
                ),
            ]
        } else {
            self.scatter_heads(ctx, args, args.nq as nat)
        }
    }

    /// The rotary part of the query.
    pub open spec fn scatter_steps(
        self,
        ctx: ForwardContext,
        args: DecodeMlaArgs,
    ) -> Seq<CommandView> {
        let batched = self.mla_q_rope_scatter_k.present();
        timed(
            ctx.profile,
            "q_rope_scatter",
            batched,
            args.stream,
            self.scatter_body(ctx, args),
        )
    }

    pub open spec fn scatter_fits(self, ctx: ForwardContext, args: DecodeMlaArgs) -> bool {
        !self.mla_q_rope_scatter_k.present() ==> forall|head: int|
            0 <= head < args.nq ==> #[trigger] self.scatter_head_fits(ctx, args, head)
    }

    pub(crate) fn scatter(
        &self,
        gpu: &mut CommandBuffer,
        ctx: &ForwardContext,
        args: &DecodeMlaArgs,
    )
        requires
            self.mla is Some,
            self.kv_lora() + self.rope() <= u32::MAX,
            self.scatter_fits(*ctx, *args),
        ensures
            final(gpu).extends(*old(gpu), self.scatter_steps(*ctx, *args)),
    {
        let mla: MlaWeights = self.mla.unwrap();
        let kv_lora: u32 = mla.kv_lora_rank as u32;
        let rope: u32 = mla.rope as u32;
        let cache_dim: u32 = kv_lora + rope;
        let q_full = ctx.buffers.ssm_deinterleaved;
        let absorbed = ctx.buffers.expert_up_out;
        let q_rope = ctx.buffers.ssm_conv_out_f32;
        let batched: bool = self.mla_q_rope_scatter_k.is_present();
        let ghost start = *gpu;
        gpu.open_section(ctx.profile);
        let ghost opened = *gpu;
        if batched {
            gpu.call(
                DeviceCall::MlaQRopeScatter {
                    kernel: self.mla_q_rope_scatter_k,
                    q_full,
                    q_absorbed: absorbed,
                    q_rope,
                    heads: args.nq,
                    head_dim: args.hd,
                    nope: mla.nope as u32,
                    rope,
                    kv_lora,
                    cache_dim,
                    stream: args.stream,
                },
            );
        } else {
            let mut head: usize = 0;
            assert(gpu@ =~= opened@ + self.scatter_heads(*ctx, *args, 0));
            while head < args.nq as usize
                invariant
                    head <= args.nq,
                    self.mla == Some(mla),
                    cache_dim == self.cache_dim(),
                    q_full == ctx.buffers.ssm_deinterleaved,
                    absorbed == ctx.buffers.expert_up_out,
                    q_rope == ctx.buffers.ssm_conv_out_f32,
                    !self.mla_q_rope_scatter_k.present(),
                    self.scatter_fits(*ctx, *args),
                    gpu.extends(opened, self.scatter_heads(*ctx, *args, head as nat)),
                decreases args.nq - head,
            {
                assert(self.scatter_head_fits(*ctx, *args, head as int));
                let src = q_full.offset((head * args.hd as usize + mla.nope) * 2);
                gpu.call(
                    DeviceCall::CopyD2dAsync {
                        src,
                        dst: q_rope.offset(head * mla.rope * 2),
                        bytes: mla.rope * 2,
                        stream: args.stream,
                    },
                );
                gpu.call(
                    DeviceCall::CopyD2dAsync {
                        src,
                        dst: absorbed.offset((head * cache_dim as usize + mla.kv_lora_rank) * 2),
                        bytes: mla.rope * 2,
                        stream: args.stream,
                    },
                );
                assert(gpu@ =~= opened@ + self.scatter_heads(*ctx, *args, (head + 1) as nat));
                head = head + 1;
            }
        }
        gpu.close_section(ctx.profile, "q_rope_scatter", batched, args.stream);
        assert(gpu@ =~= start@ + self.scatter_steps(*ctx, *args));
    }

    /// Write the rotated queries of the first `count` heads back.
    pub open spec fn writeback_heads(
        self,
        ctx: ForwardContext,
        args: DecodeMlaArgs,
        count: nat,
    ) -> Seq<CommandView> {
        let mla = self.weights();
        Seq::new(
            count,
            |head: int|
                call(
                    DeviceCall::CopyD2dAsync {
                        src: ctx.buffers.ssm_conv_out_f32.plus(head * mla.rope * 2),
                        dst: ctx.buffers.expert_up_out.plus(self.absorbed_rope_offset(head)),
                        bytes: (mla.rope * 2) as usize,
                        stream: args.stream,
                    },
                ),
        )
    }

    pub open spec fn writeback_head_fits(self, ctx: ForwardContext, head: int) -> bool {
        let mla = self.weights();
        &&& mla.rope * 2 <= usize::MAX
        &&& head * mla.rope * 2 <= usize::MAX
        &&& ctx.buffers.ssm_conv_out_f32.reaches(head * mla.rope * 2)
        &&& self.absorbed_rope_offset(head) <= usize::MAX
        &&& ctx.buffers.expert_up_out.reaches(self.absorbed_rope_offset(head))
    }

    /// The rotary key, the rotation, and the rotated query written back.
    pub open spec fn rope_body(
        self,
        ctx: ForwardContext,
        args: DecodeMlaArgs,
        meta: AttnMetadata,
    ) -> Seq<CommandView> {
        let mla = self.weights();
        let batched = self.mla_q_rope_writeback_k.present();
        if self.rope() > 0 {
            seq![
                self.dense(
                    mla.wkv_a_rope,
                    args.normed,
                    ctx.buffers.ssm_ba,
                    self.rope(),
                    args.h,
                    args.stream,
                ),
                call(
                    DeviceCall::RopeYarn {
                        kernel: self.rope_yarn_k,
                        q: ctx.buffers.ssm_conv_out_f32,
                        k: ctx.buffers.ssm_ba,
                        positions: meta.positions,
                        rows: 1,
                        q_heads: args.nq,
                        k_heads: 1,
                        head_dim: self.rope(),
                        rotary_dim: self.rope(),
                        inv_freq: mla.yarn_inv_freq,
                        theta: Float32::Rounded(ctx.config.rope_theta),
                        stream: args.stream,
                    },
                ),
            ] + if batched {
                seq![
                    call(
                        DeviceCall::MlaQRopeWriteback {
                            kernel: self.mla_q_rope_writeback_k,
                            q_rope: ctx.buffers.ssm_conv_out_f32,
                            q_absorbed: ctx.buffers.expert_up_out,
                            heads: args.nq,
                            rope: self.rope(),
                            kv_lora: self.kv_lora(),
                            cache_dim: self.cache_dim(),
                            stream: args.stream,
                        },
                    ),
                ]
            } else {
                self.writeback_heads(ctx, args, args.nq as nat)
            }
        } else {
            Seq::empty()
        }
    }

    /// The rotary key and the rotation of query and key; nothing without a
    /// rotary part.
    pub open spec fn rope_steps(
        self,
        ctx: ForwardContext,
        args: DecodeMlaArgs,
        meta: AttnMetadata,
    ) -> Seq<CommandView> {
        let batched = self.mla_q_rope_writeback_k.present();
        timed(
            ctx.profile,
            "k_rope+RoPE+wb",
            self.rope() > 0 && batched,
            args.stream,
            self.rope_body(ctx, args, meta),
        )
    }

    pub open spec fn rope_fits(self, ctx: ForwardContext, args: DecodeMlaArgs) -> bool {
        self.rope() > 0 && !self.mla_q_rope_writeback_k.present() ==> forall|head: int|
            0 <= head < args.nq ==> #[trigger] self.writeback_head_fits(ctx, head)
    }

    pub(crate) fn rotate(
        &self,
        gpu: &mut CommandBuffer,
        ctx: &ForwardContext,
        args: &DecodeMlaArgs,
        meta: &AttnMetadata,
    )
        requires
            self.mla is Some,
            self.kv_lora() + self.rope() <= u32::MAX,
            self.rope_fits(*ctx, *args),
        ensures
            final(gpu).extends(*old(gpu), self.rope_steps(*ctx, *args, *meta)),
    {
        let mla: MlaWeights = self.mla.unwrap();
        let kv_lora: u32 = mla.kv_lora_rank as u32;
        let rope: u32 = mla.rope as u32;
        let cache_dim: u32 = kv_lora + rope;
        let absorbed = ctx.buffers.expert_up_out;
        let q_rope = ctx.buffers.ssm_conv_out_f32;
        let batched: bool = self.mla_q_rope_writeback_k.is_present();
        let ghost start = *gpu;
        gpu.open_section(ctx.profile);
        if rope > 0 {
            self.dense_gemv(
                gpu,
                mla.wkv_a_rope,
                args.normed,
                ctx.buffers.ssm_ba,
                rope,
                args.h,
                args.stream,
            );
            gpu.call(
                DeviceCall::RopeYarn {
                    kernel: self.rope_yarn_k,
                    q: q_rope,
                    k: ctx.buffers.ssm_ba,
                    positions: meta.positions,
                    rows: 1,
                    q_heads: args.nq,
                    k_heads: 1,
                    head_dim: rope,
                    rotary_dim: rope,
                    inv_freq: mla.yarn_inv_freq,
                    theta: Float32::Rounded(ctx.config.rope_theta),
                    stream: args.stream,
                },
            );
            let ghost rotated = *gpu;
            if batched {
                gpu.call(
                    DeviceCall::MlaQRopeWriteback {
                        kernel: self.mla_q_rope_writeback_k,
                        q_rope,
                        q_absorbed: absorbed,
                        heads: args.nq,
                        rope,
                        kv_lora,
                        cache_dim,
                        stream: args.stream,
                    },
                );
            } else {
                let mut head: usize = 0;
                assert(gpu@ =~= rotated@ + self.writeback_heads(*ctx, *args, 0));
                while head < args.nq as usize
                    invariant
                        head <= args.nq,
                        self.mla == Some(mla),
                        cache_dim == self.cache_dim(),
                        absorbed == ctx.buffers.expert_up_out,
                        q_rope == ctx.buffers.ssm_conv_out_f32,
                        self.rope() > 0,
                        !self.mla_q_rope_writeback_k.present(),
                        self.rope_fits(*ctx, *args),
                        gpu.extends(rotated, self.writeback_heads(*ctx, *args, head as nat)),
                    decreases args.nq - head,
                {
                    assert(self.writeback_head_fits(*ctx, head as int));
                    gpu.call(
                        DeviceCall::CopyD2dAsync {
                            src: q_rope.offset(head * mla.rope * 2),
                            dst: absorbed.offset(
                                (head * cache_dim as usize + mla.kv_lora_rank) * 2,
                            ),
                            bytes: mla.rope * 2,
                            stream: args.stream,
                        },
                    );
                    assert(gpu@ =~= rotated@ + self.writeback_heads(
                        *ctx,
                        *args,
                        (head + 1) as nat,
                    ));
                    head = head + 1;
                }
            }
        }
        gpu.close_section(ctx.profile, "k_rope+RoPE+wb", rope > 0 && batched, args.stream);
        assert(gpu@ =~= start@ + self.rope_steps(*ctx, *args, *meta));
    }
}

} // verus!
