//! The Kimi Delta Attention transformer block.
use vstd::prelude::*;

use crate::config::ModelConfig;
use crate::device::{
    call, follows, lemma_extends_twice, result_kernel, result_ptr, CommandBuffer,
    CommandView, DenseWeight, DeviceCall, DevicePtr, FfnComponent, Float32, KernelHandle, Trace,
};
use crate::layers::{ForwardContext, HcSiteWeights, HcWeights};
use crate::ops::hyper_connection::{
    hc_expand, hc_expand_step, hc_mean, hc_mean_step, hc_post, hc_post_step, hc_pre, hc_pre_step,
};
use crate::ops::kda::{
    kda_gated_rms_norm, kda_gated_rms_norm_step, kda_recurrent_decode, kda_recurrent_decode_step,
};
use crate::text::same_text;
use crate::weight_map::Glm5KdaWeights;

verus! {

/// A Kimi Delta Attention block with its hyper-connection.
///
/// It holds immutable weights and kernel handles; the recurrent matrix and the
/// convolution tail live in [`SsmLayerState`].
#[derive(Clone, Copy, PartialEq, Eq, Debug)]
pub struct Glm5KdaLayer {
    pub input_norm: DenseWeight,
    pub kda: Glm5KdaWeights,
    pub conv_weight: DenseWeight,
    pub post_attn_norm: DenseWeight,
    pub ffn: FfnComponent,
    pub rms_norm_k: KernelHandle,
    pub dense_gemv_k: KernelHandle,
    pub conv1d_k: KernelHandle,
    pub kda_recurrent_k: KernelHandle,
    pub kda_gated_norm_k: KernelHandle,
    pub hc: HcWeights,
    pub layer_idx: usize,
    pub hc_expand_k: KernelHandle,
    pub hc_pre_k: KernelHandle,
    pub hc_post_k: KernelHandle,
    pub hc_mean_k: KernelHandle,
    pub h_state_bytes: usize,
    pub conv_state_bytes: usize,
}

/// The recurrent state of one sequence in one layer.
#[derive(PartialEq, Eq, Debug)]
pub struct SsmLayerState {
    pub h_state: DevicePtr,
    pub conv_state: DevicePtr,
    pub h_state_checkpoint: Option<DevicePtr>,
    pub conv_state_checkpoint: Option<DevicePtr>,
    pub h_state_intermediates: Vec<DevicePtr>,
    pub conv_state_intermediates: Vec<DevicePtr>,
    pub h_is_f16: bool,
    pub h_prefill_stage: Option<DevicePtr>,
}

/// The state that a layer keeps for one sequence.
#[derive(PartialEq, Eq, Debug)]
pub enum LayerState {
    Ssm(SsmLayerState),
    /// The state of another kind of layer.
    Other,
}

/// Why a block refused.
#[derive(Clone, Copy, PartialEq, Eq, Debug)]
pub enum KdaError {
    WrongModelType,
    HeadCountsDiffer,
    HeadWidthUnsupported,
    HighwayMissing,
    NotSsmState,
    TooFewStates,
}

impl KdaError {
    pub open spec fn text(self) -> Seq<char> {
        match self {
            KdaError::WrongModelType => "Glm5KdaLayer requires model_type=glm5_next"@,
            KdaError::HeadCountsDiffer => "GLM KDA requires matching key/value head counts"@,
            KdaError::HeadWidthUnsupported => "GLM KDA kernel is specialized for 128-wide heads"@,
            KdaError::HighwayMissing => "GLM KDA requires a configured mHC highway"@,
            KdaError::NotSsmState => "GLM KDA requires SsmLayerState"@,
            KdaError::TooFewStates => "GLM KDA state count is too small"@,
        }
    }

    pub fn message(self) -> (message: String)
        ensures
            message@ == self.text(),
    {
        let text = match self {
            KdaError::WrongModelType => "Glm5KdaLayer requires model_type=glm5_next",
            KdaError::HeadCountsDiffer => "GLM KDA requires matching key/value head counts",
            KdaError::HeadWidthUnsupported => "GLM KDA kernel is specialized for 128-wide heads",
            KdaError::HighwayMissing => "GLM KDA requires a configured mHC highway",
            KdaError::NotSsmState => "GLM KDA requires SsmLayerState",
            KdaError::TooFewStates => "GLM KDA state count is too small",
        };
        text.to_owned()
    }
}

/// Why a block cannot be built for `config` with hyper-connection `hc`.
pub open spec fn layer_fault(config: ModelConfig, hc: HcWeights) -> Option<KdaError> {
    if !config.is_glm() {
        Some(KdaError::WrongModelType)
    } else if config.linear_num_key_heads != config.linear_num_value_heads {
        Some(KdaError::HeadCountsDiffer)
    } else if config.linear_key_head_dim != 128 || config.linear_value_head_dim != 128 {
        Some(KdaError::HeadWidthUnsupported)
    } else if hc.hc_mult != config.hc_mult || hc.hc_mult == 0 {
        Some(KdaError::HighwayMissing)
    } else {
        None
    }
}

/// The kernels that a block looks up, in order.
pub open spec fn layer_lookups() -> Seq<CommandView> {
    seq![
        call(DeviceCall::LookupKernel { module: "rms_norm_vanilla", name: "rms_norm_vanilla" }),
        call(DeviceCall::LookupKernel { module: "gemv", name: "dense_gemv_bf16" }),
        call(DeviceCall::LookupKernel { module: "causal_conv1d", name: "causal_conv1d_update" }),
        call(DeviceCall::LookupKernel { module: "kda", name: "kda_recurrent_decode" }),
        call(DeviceCall::LookupKernel { module: "kda", name: "kda_gated_rms_norm" }),
        call(DeviceCall::LookupKernel { module: "hyper_connection", name: "hc_expand" }),
        call(DeviceCall::LookupKernel { module: "hyper_connection", name: "hc_pre" }),
        call(DeviceCall::LookupKernel { module: "hyper_connection", name: "hc_post" }),
        call(DeviceCall::LookupKernel { module: "hyper_connection", name: "hc_mean" }),
    ]
}

/// A block built after `at` commands of buffer `id`.
pub open spec fn new_layer_trace(
    input_norm: DenseWeight,
    kda: Glm5KdaWeights,
    conv_weight: DenseWeight,
    post_attn_norm: DenseWeight,
    ffn: FfnComponent,
    hc: HcWeights,
    layer_idx: usize,
    config: ModelConfig,
    h_state_bytes: usize,
    conv_state_bytes: usize,
    id: u64,
    at: nat,
) -> Trace<Glm5KdaLayer, KdaError> {
    match layer_fault(config, hc) {
        Some(error) => Trace { steps: Seq::empty(), outcome: Err(error) },
        None => Trace {
            steps: layer_lookups(),
            outcome: Ok(
                Glm5KdaLayer {
                    input_norm,
                    kda,
                    conv_weight,
                    post_attn_norm,
                    ffn,
                    rms_norm_k: result_kernel(id, at),
                    dense_gemv_k: result_kernel(id, at + 1),
                    conv1d_k: result_kernel(id, at + 2),
                    kda_recurrent_k: result_kernel(id, at + 3),
                    kda_gated_norm_k: result_kernel(id, at + 4),
                    hc,
                    layer_idx,
                    hc_expand_k: result_kernel(id, at + 5),
                    hc_pre_k: result_kernel(id, at + 6),
                    hc_post_k: result_kernel(id, at + 7),
                    hc_mean_k: result_kernel(id, at + 8),
                    h_state_bytes,
                    conv_state_bytes,
                },
            ),
        },
    }
}

impl Glm5KdaLayer {
    pub fn new(
        input_norm: DenseWeight,
        kda: Glm5KdaWeights,
        conv_weight: DenseWeight,
        post_attn_norm: DenseWeight,
        ffn: FfnComponent,
        hc: HcWeights,
        layer_idx: usize,
        config: &ModelConfig,
        h_state_bytes: usize,
        conv_state_bytes: usize,
        gpu: &mut CommandBuffer,
    ) -> (result: Result<Glm5KdaLayer, KdaError>)
        ensures
            follows(
                *final(gpu),
                *old(gpu),
                result,
                new_layer_trace(
                    input_norm,
                    kda,
                    conv_weight,
                    post_attn_norm,
                    ffn,
                    hc,
                    layer_idx,
                    *config,
                    h_state_bytes,
                    conv_state_bytes,
                    old(gpu).id(),
                    old(gpu)@.len(),
                ),
            ),
    {
        let ghost start = *gpu;
        assert(gpu@ =~= start@ + Seq::<CommandView>::empty());
        if !same_text(&config.model_type, "glm5_next") {
            return Err(KdaError::WrongModelType);
        }
        if config.linear_num_key_heads != config.linear_num_value_heads {
            return Err(KdaError::HeadCountsDiffer);
        }
        if !(config.linear_key_head_dim == 128 && config.linear_value_head_dim == 128) {
            return Err(KdaError::HeadWidthUnsupported);
        }
        if !(hc.hc_mult == config.hc_mult && hc.hc_mult > 0) {
            return Err(KdaError::HighwayMissing);
        }
        let rms_norm_k = gpu.kernel("rms_norm_vanilla", "rms_norm_vanilla");
        let dense_gemv_k = gpu.kernel("gemv", "dense_gemv_bf16");
        let conv1d_k = gpu.kernel("causal_conv1d", "causal_conv1d_update");
        let kda_recurrent_k = gpu.kernel("kda", "kda_recurrent_decode");
        let kda_gated_norm_k = gpu.kernel("kda", "kda_gated_rms_norm");
        let hc_expand_k = gpu.kernel("hyper_connection", "hc_expand");
        let hc_pre_k = gpu.kernel("hyper_connection", "hc_pre");
        let hc_post_k = gpu.kernel("hyper_connection", "hc_post");
        let hc_mean_k = gpu.kernel("hyper_connection", "hc_mean");
        assert(gpu@ =~= start@ + layer_lookups());
        Ok(
            Glm5KdaLayer {
                input_norm,
                kda,
                conv_weight,
                post_attn_norm,
                ffn,
                rms_norm_k,
                dense_gemv_k,
                conv1d_k,
                kda_recurrent_k,
                kda_gated_norm_k,
                hc,
                layer_idx,
                hc_expand_k,
                hc_pre_k,
                hc_post_k,
                hc_mean_k,
                h_state_bytes,
                conv_state_bytes,
            },
        )
    }

    /// The width of the query, key and value of one token.
    pub open spec fn width(config: ModelConfig) -> int {
        (config.linear_num_key_heads as u32) * (config.linear_key_head_dim as u32)
    }

    pub open spec fn attention_fits(ctx: ForwardContext) -> bool {
        let width = Self::width(*ctx.config);
        &&& width <= u32::MAX
        &&& width * 3 <= usize::MAX
        &&& ctx.buffers.ssm_qkvz.reaches(width * 6)
    }

    pub open spec fn gemv(
        self,
        input: DevicePtr,
        weight: DenseWeight,
        output: DevicePtr,
        n: u32,
        k: u32,
        stream: u64,
    ) -> CommandView {
        call(
            DeviceCall::DenseGemv {
                kernel: self.dense_gemv_k,
                input,
                weight,
                output,
                n,
                k,
                stream,
            },
        )
    }

    /// The token mixer. The shared buffer holds `[Q | K | V | forget or gate]`;
    /// the decay path and the output gate use the last region in turn.
    pub open spec fn attention_steps(
        self,
        normed: DevicePtr,
        state: SsmLayerState,
        ctx: ForwardContext,
        stream: u64,
    ) -> Seq<CommandView> {
        let config = *ctx.config;
        let hidden = config.hidden_size as u32;
        let heads = config.linear_num_key_heads as u32;
        let head_dim = config.linear_key_head_dim as u32;
        let width = Self::width(config);
        let n = width as u32;
        let q = ctx.buffers.ssm_qkvz;
        let k = q.plus(width * 2);
        let v = q.plus(width * 4);
        let gate = q.plus(width * 6);
        let small = ctx.buffers.ssm_ba;
        let conv_out = ctx.buffers.ssm_deinterleaved;
        seq![
            self.gemv(normed, self.kda.q_proj, q, n, hidden, stream),
            self.gemv(normed, self.kda.k_proj, k, n, hidden, stream),
            self.gemv(normed, self.kda.v_proj, v, n, hidden, stream),
            self.gemv(normed, self.kda.f_a_proj, small, head_dim, hidden, stream),
            self.gemv(small, self.kda.f_b_proj, gate, n, head_dim, stream),
            self.gemv(normed, self.kda.b_proj, small, heads, hidden, stream),
            call(
                DeviceCall::Conv1dUpdate {
                    kernel: self.conv1d_k,
                    state: state.conv_state,
                    input: q,
                    weight: self.conv_weight,
                    output: conv_out,
                    channels: (width * 3) as u32,
                    kernel_size: config.linear_conv_kernel_dim as u32,
                    rows: 1,
                    stream,
                },
            ),
            kda_recurrent_decode_step(
                self.kda_recurrent_k,
                state.h_state,
                conv_out,
                gate,
                small,
                self.kda.a_log.weight,
                self.kda.dt_bias.weight,
                q,
                1,
                heads,
                head_dim,
                config.linear_gate_lower_bound,
                stream,
            ),
            self.gemv(normed, self.kda.g_a_proj, small, head_dim, hidden, stream),
            self.gemv(small, self.kda.g_b_proj, gate, n, head_dim, stream),
            kda_gated_rms_norm_step(
                self.kda_gated_norm_k,
                q,
                gate,
                self.kda.o_norm.weight,
                conv_out,
                1,
                heads,
                head_dim,
                Float32::Rounded(config.rms_norm_eps),
                stream,
            ),
            self.gemv(conv_out, self.kda.o_proj, ctx.buffers.attn_output, hidden, n, stream),
        ]
    }

    fn dense_gemv(
        &self,
        gpu: &mut CommandBuffer,
        input: DevicePtr,
        weight: DenseWeight,
        output: DevicePtr,
        n: u32,
        k: u32,
        stream: u64,
    )
        ensures
            final(gpu).extends(*old(gpu), seq![self.gemv(input, weight, output, n, k, stream)]),
    {
        gpu.call(
            DeviceCall::DenseGemv {
                kernel: self.dense_gemv_k,
                input,
                weight,
                output,
                n,
                k,
                stream,
            },
        );
    }

    /// Mix one token; the result is where the output is.
    pub fn attention_forward(
        &self,
        gpu: &mut CommandBuffer,
        normed: DevicePtr,
        state: &SsmLayerState,
        ctx: &ForwardContext,
        stream: u64,
    ) -> (output: DevicePtr)
        requires
            Self::attention_fits(*ctx),
        ensures
            output == ctx.buffers.attn_output,
            final(gpu).extends(*old(gpu), self.attention_steps(normed, *state, *ctx, stream)),
    {
        let ghost start = *gpu;
        let config = ctx.config;
        let hidden: u32 = config.hidden_size as u32;
        let heads: u32 = config.linear_num_key_heads as u32;
        let head_dim: u32 = config.linear_key_head_dim as u32;
        let n: u32 = heads * head_dim;
        let width: usize = n as usize;
        let q = ctx.buffers.ssm_qkvz;
        let k = q.offset(width * 2);
        let v = k.offset(width * 2);
        let gate = v.offset(width * 2);
        self.dense_gemv(gpu, normed, self.kda.q_proj, q, n, hidden, stream);
        self.dense_gemv(gpu, normed, self.kda.k_proj, k, n, hidden, stream);
        self.dense_gemv(gpu, normed, self.kda.v_proj, v, n, hidden, stream);
        // The decay path: a log-decay for each key component.
        let small = ctx.buffers.ssm_ba;
        self.dense_gemv(gpu, normed, self.kda.f_a_proj, small, head_dim, hidden, stream);
        self.dense_gemv(gpu, small, self.kda.f_b_proj, gate, n, head_dim, stream);
        self.dense_gemv(gpu, normed, self.kda.b_proj, small, heads, hidden, stream);
        let conv_out = ctx.buffers.ssm_deinterleaved;
        gpu.call(
            DeviceCall::Conv1dUpdate {
                kernel: self.conv1d_k,
                state: state.conv_state,
                input: q,
                weight: self.conv_weight,
                output: conv_out,
                channels: (width * 3) as u32,
                kernel_size: config.linear_conv_kernel_dim as u32,
                rows: 1,
                stream,
            },
        );
        kda_recurrent_decode(
            gpu,
            self.kda_recurrent_k,
            state.h_state,
            conv_out,
            gate,
            small,
            self.kda.a_log.weight,
            self.kda.dt_bias.weight,
            q,
            1,
            heads,
            head_dim,
            config.linear_gate_lower_bound,
            stream,
        );
        // The output gate, apart from the decay path.
        self.dense_gemv(gpu, normed, self.kda.g_a_proj, small, head_dim, hidden, stream);
        self.dense_gemv(gpu, small, self.kda.g_b_proj, gate, n, head_dim, stream);
        kda_gated_rms_norm(
            gpu,
            self.kda_gated_norm_k,
            q,
            gate,
            self.kda.o_norm.weight,
            conv_out,
            1,
            heads,
            head_dim,
            Float32::Rounded(config.rms_norm_eps),
            stream,
        );
        let attn_out = ctx.buffers.attn_output;
        self.dense_gemv(gpu, conv_out, self.kda.o_proj, attn_out, hidden, n, stream);
        assert(gpu@ =~= start@ + self.attention_steps(normed, *state, *ctx, stream));
        attn_out
    }

    /// The bytes of one row of the hyper-connection buffers.
    pub open spec fn hc_row_bytes(self, ctx: ForwardContext) -> int {
        (self.hc.hc_mult as u32) * (ctx.config.hidden_size as u32) * 2
    }

    pub open spec fn row_fits(self, ctx: ForwardContext, row: int) -> bool {
        let offset = row * self.hc_row_bytes(ctx);
        &&& self.hc_row_bytes(ctx) <= usize::MAX
        &&& offset <= usize::MAX
        &&& ctx.buffers.hc_streams.reaches(offset)
        &&& ctx.buffers.hc_post.reaches(offset)
        &&& ctx.buffers.hc_comb.reaches(offset)
        &&& Self::attention_fits(ctx)
        &&& self.layer_idx < usize::MAX
    }

    pub open spec fn pre_step(
        self,
        site: HcSiteWeights,
        hidden: DevicePtr,
        ctx: ForwardContext,
        stream: u64,
        row: int,
    ) -> CommandView {
        let offset = row * self.hc_row_bytes(ctx);
        hc_pre_step(
            self.hc_pre_k,
            ctx.buffers.hc_streams.plus(offset),
            site.hc_fn,
            site.hc_scale,
            site.hc_base,
            hidden,
            ctx.buffers.hc_post.plus(offset),
            ctx.buffers.hc_comb.plus(offset),
            1,
            ctx.config.hidden_size as u32,
            self.hc.hc_mult as u32,
            self.hc.sinkhorn_iters as u32,
            Float32::Rounded(ctx.config.rms_norm_eps),
            self.hc.hc_eps,
            stream,
        )
    }

    pub open spec fn post_step(
        self,
        block_out: DevicePtr,
        ctx: ForwardContext,
        stream: u64,
        row: int,
    ) -> CommandView {
        let offset = row * self.hc_row_bytes(ctx);
        let streams = ctx.buffers.hc_streams.plus(offset);
        hc_post_step(
            self.hc_post_k,
            block_out,
            streams,
            ctx.buffers.hc_post.plus(offset),
            ctx.buffers.hc_comb.plus(offset),
            streams,
            1,
            ctx.config.hidden_size as u32,
            self.hc.hc_mult as u32,
            stream,
        )
    }

    pub open spec fn norm_step(
        self,
        weight: DenseWeight,
        hidden: DevicePtr,
        ctx: ForwardContext,
        stream: u64,
    ) -> CommandView {
        call(
            DeviceCall::RmsNorm {
                kernel: self.rms_norm_k,
                input: hidden,
                weight,
                output: ctx.buffers.norm_output,
                rows: 1,
                width: ctx.config.hidden_size as u32,
                eps: Float32::Rounded(ctx.config.rms_norm_eps),
                stream,
            },
        )
    }

    /// The first layer of a model spreads the hidden state over the streams.
    pub open spec fn expand_steps(
        self,
        hidden: DevicePtr,
        ctx: ForwardContext,
        stream: u64,
        row: int,
    ) -> Seq<CommandView> {
        if self.layer_idx == 0 {
            seq![
                hc_expand_step(
                    self.hc_expand_k,
                    hidden,
                    ctx.buffers.hc_streams.plus(row * self.hc_row_bytes(ctx)),
                    1,
                    ctx.config.hidden_size as u32,
                    self.hc.hc_mult as u32,
                    stream,
                ),
            ]
        } else {
            Seq::empty()
        }
    }

    /// The last layer of a model collapses the streams to their mean.
    pub open spec fn mean_steps(
        self,
        hidden: DevicePtr,
        ctx: ForwardContext,
        stream: u64,
        row: int,
    ) -> Seq<CommandView> {
        if self.layer_idx + 1 == ctx.config.num_hidden_layers {
            seq![
                hc_mean_step(
                    self.hc_mean_k,
                    ctx.buffers.hc_streams.plus(row * self.hc_row_bytes(ctx)),
                    hidden,
                    1,
                    ctx.config.hidden_size as u32,
                    self.hc.hc_mult as u32,
                    stream,
                ),
            ]
        } else {
            Seq::empty()
        }
    }

    /// The attention half of a row.
    pub open spec fn mixer_steps(
        self,
        hidden: DevicePtr,
        state: SsmLayerState,
        ctx: ForwardContext,
        stream: u64,
        row: int,
    ) -> Seq<CommandView> {
        self.expand_steps(hidden, ctx, stream, row) + seq![
            self.pre_step(self.hc.attn, hidden, ctx, stream, row),
            self.norm_step(self.input_norm, hidden, ctx, stream),
        ] + self.attention_steps(ctx.buffers.norm_output, state, ctx, stream) + seq![
            self.post_step(ctx.buffers.attn_output, ctx, stream, row),
        ]
    }

    /// The feed-forward half of a row, after `at` commands of buffer `id`: the
    /// block's output is named by the command that runs it.
    pub open spec fn ffn_steps(
        self,
        hidden: DevicePtr,
        ctx: ForwardContext,
        stream: u64,
        row: int,
        id: u64,
        at: nat,
    ) -> Seq<CommandView> {
        seq![
            self.pre_step(self.hc.ffn, hidden, ctx, stream, row),
            self.norm_step(self.post_attn_norm, hidden, ctx, stream),
            call(
                DeviceCall::FfnForward {
                    ffn: self.ffn,
                    input: ctx.buffers.norm_output,
                    pass: ctx.pass(),
                    stream,
                },
            ),
            self.post_step(result_ptr(id, at + 2), ctx, stream, row),
        ] + self.mean_steps(hidden, ctx, stream, row)
    }

    /// One row through the block, after `at` commands of buffer `id`.
    pub open spec fn row_steps(
        self,
        hidden: DevicePtr,
        state: SsmLayerState,
        ctx: ForwardContext,
        stream: u64,
        row: int,
        id: u64,
        at: nat,
    ) -> Seq<CommandView> {
        let mixer = self.mixer_steps(hidden, state, ctx, stream, row);
        mixer + self.ffn_steps(hidden, ctx, stream, row, id, at + mixer.len())
    }

    fn pre(
        &self,
        gpu: &mut CommandBuffer,
        site: &HcSiteWeights,
        hidden: DevicePtr,
        ctx: &ForwardContext,
        stream: u64,
        row: usize,
    )
        requires
            self.row_fits(*ctx, row as int),
        ensures
            final(gpu).extends(
                *old(gpu),
                seq![self.pre_step(*site, hidden, *ctx, stream, row as int)],
            ),
    {
        let offset: usize = self.row_offset(ctx, row);
        hc_pre(
            gpu,
            self.hc_pre_k,
            ctx.buffers.hc_streams.offset(offset),
            site.hc_fn,
            site.hc_scale,
            site.hc_base,
            hidden,
            ctx.buffers.hc_post.offset(offset),
            ctx.buffers.hc_comb.offset(offset),
            1,
            ctx.config.hidden_size as u32,
            self.hc.hc_mult as u32,
            self.hc.sinkhorn_iters as u32,
            Float32::Rounded(ctx.config.rms_norm_eps),
            self.hc.hc_eps,
            stream,
        );
    }

    fn row_offset(&self, ctx: &ForwardContext, row: usize) -> (offset: usize)
        requires
            self.row_fits(*ctx, row as int),
        ensures
            offset == row * self.hc_row_bytes(*ctx),
    {
        let hidden_size: u32 = ctx.config.hidden_size as u32;
        let hc_mult: u32 = self.hc.hc_mult as u32;
        let row_bytes: usize = hc_mult as usize * hidden_size as usize * 2;
        row * row_bytes
    }

    fn post(
        &self,
        gpu: &mut CommandBuffer,
        block_out: DevicePtr,
        ctx: &ForwardContext,
        stream: u64,
        row: usize,
    )
        requires
            self.row_fits(*ctx, row as int),
        ensures
            final(gpu).extends(
                *old(gpu),
                seq![self.post_step(block_out, *ctx, stream, row as int)],
            ),
    {
        let offset: usize = self.row_offset(ctx, row);
        let streams = ctx.buffers.hc_streams.offset(offset);
        hc_post(
            gpu,
            self.hc_post_k,
            block_out,
            streams,
            ctx.buffers.hc_post.offset(offset),
            ctx.buffers.hc_comb.offset(offset),
            streams,
            1,
            ctx.config.hidden_size as u32,
            self.hc.hc_mult as u32,
            stream,
        );
    }

    fn rms_norm(
        &self,
        gpu: &mut CommandBuffer,
        weight: DenseWeight,
        hidden: DevicePtr,
        ctx: &ForwardContext,
        stream: u64,
    )
        ensures
            final(gpu).extends(*old(gpu), seq![self.norm_step(weight, hidden, *ctx, stream)]),
    {
        gpu.call(
            DeviceCall::RmsNorm {
                kernel: self.rms_norm_k,
                input: hidden,
                weight,
                output: ctx.buffers.norm_output,
                rows: 1,
                width: ctx.config.hidden_size as u32,
                eps: Float32::Rounded(ctx.config.rms_norm_eps),
                stream,
            },
        );
    }

    fn mixer(
        &self,
        gpu: &mut CommandBuffer,
        hidden: DevicePtr,
        state: &SsmLayerState,
        ctx: &ForwardContext,
        stream: u64,
        row: usize,
    )
        requires
            self.row_fits(*ctx, row as int),
        ensures
            final(gpu).extends(
                *old(gpu),
                self.mixer_steps(hidden, *state, *ctx, stream, row as int),
            ),
    {
        let ghost start = *gpu;
        if self.layer_idx == 0 {
            let offset: usize = self.row_offset(ctx, row);
            hc_expand(
                gpu,
                self.hc_expand_k,
                hidden,
                ctx.buffers.hc_streams.offset(offset),
                1,
                ctx.config.hidden_size as u32,
                self.hc.hc_mult as u32,
                stream,
            );
        }
        assert(gpu@ =~= start@ + self.expand_steps(hidden, *ctx, stream, row as int));
        self.pre(gpu, &self.hc.attn, hidden, ctx, stream, row);
        self.rms_norm(gpu, self.input_norm, hidden, ctx, stream);
        let attn_out = self.attention_forward(gpu, ctx.buffers.norm_output, state, ctx, stream);
        self.post(gpu, attn_out, ctx, stream, row);
        assert(gpu@ =~= start@ + self.mixer_steps(hidden, *state, *ctx, stream, row as int));
    }

    fn feed_forward(
        &self,
        gpu: &mut CommandBuffer,
        hidden: DevicePtr,
        ctx: &ForwardContext,
        stream: u64,
        row: usize,
    )
        requires
            self.row_fits(*ctx, row as int),
        ensures
            final(gpu).extends(
                *old(gpu),
                self.ffn_steps(hidden, *ctx, stream, row as int, old(gpu).id(), old(gpu)@.len()),
            ),
    {
        let ghost start = *gpu;
        self.pre(gpu, &self.hc.ffn, hidden, ctx, stream, row);
        self.rms_norm(gpu, self.post_attn_norm, hidden, ctx, stream);
        let ffn_out = gpu.call_for_ptr(
            DeviceCall::FfnForward {
                ffn: self.ffn,
                input: ctx.buffers.norm_output,
                pass: ctx.pass(),
                stream,
            },
        );
        self.post(gpu, ffn_out, ctx, stream, row);
        if self.layer_idx + 1 == ctx.config.num_hidden_layers {
            let offset: usize = self.row_offset(ctx, row);
            hc_mean(
                gpu,
                self.hc_mean_k,
                ctx.buffers.hc_streams.offset(offset),
                hidden,
                1,
                ctx.config.hidden_size as u32,
                self.hc.hc_mult as u32,
                stream,
            );
        }
        assert(gpu@ =~= start@ + self.ffn_steps(
            hidden,
            *ctx,
            stream,
            row as int,
            start.id(),
            start@.len(),
        ));
    }

    /// Run one row through the block.
    pub fn forward_one_hc_row(
        &self,
        gpu: &mut CommandBuffer,
        hidden: DevicePtr,
        state: &SsmLayerState,
        ctx: &ForwardContext,
        stream: u64,
        row: usize,
    )
        requires
            self.row_fits(*ctx, row as int),
        ensures
            final(gpu).extends(
                *old(gpu),
                self.row_steps(
                    hidden,
                    *state,
                    *ctx,
                    stream,
                    row as int,
                    old(gpu).id(),
                    old(gpu)@.len(),
                ),
            ),
    {
        let ghost start = *gpu;
        self.mixer(gpu, hidden, state, ctx, stream, row);
        let ghost middle = *gpu;
        self.feed_forward(gpu, hidden, ctx, stream, row);
        proof {
            lemma_extends_twice(
                start,
                middle,
                *gpu,
                self.mixer_steps(hidden, *state, *ctx, stream, row as int),
                self.ffn_steps(hidden, *ctx, stream, row as int, start.id(), middle@.len()),
            );
        }
    }
}

/// Query, key, value and gate of a token stand one behind the other, so the
/// convolution over three times the width reads exactly the first three.
pub proof fn law_regions_consecutive(
    layer: Glm5KdaLayer,
    normed: DevicePtr,
    state: SsmLayerState,
    ctx: ForwardContext,
    stream: u64,
)
    requires
        Glm5KdaLayer::attention_fits(ctx),
        Glm5KdaLayer::width(*ctx.config) * 3 <= u32::MAX,
    ensures
        ({
            let steps = layer.attention_steps(normed, state, ctx, stream);
            let q = (steps[0]->Call_0)->DenseGemv_output;
            let k = (steps[1]->Call_0)->DenseGemv_output;
            let v = (steps[2]->Call_0)->DenseGemv_output;
            let gate = (steps[4]->Call_0)->DenseGemv_output;
            let bytes = Glm5KdaLayer::width(*ctx.config) * 2;
            &&& k == q.plus(bytes)
            &&& v == k.plus(bytes)
            &&& gate == v.plus(bytes)
            &&& (steps[6]->Call_0)->Conv1dUpdate_input == q
            &&& gate == q.plus((steps[6]->Call_0)->Conv1dUpdate_channels * 2)
        }),
{
    assert(0 <= Glm5KdaLayer::width(*ctx.config)) by (nonlinear_arith);
}

/// Only the first layer spreads the hidden state over the streams, and only the
/// last one averages them again.
pub proof fn law_streams_open_and_close(
    layer: Glm5KdaLayer,
    hidden: DevicePtr,
    ctx: ForwardContext,
    stream: u64,
    row: int,
)
    ensures
        layer.expand_steps(hidden, ctx, stream, row).len() == if layer.layer_idx == 0 {
            1nat
        } else {
            0nat
        },
        layer.mean_steps(hidden, ctx, stream, row).len() == if layer.layer_idx + 1
            == ctx.config.num_hidden_layers {
            1nat
        } else {
            0nat
        },
{
}

/// The hyper-connection rows of a batch do not overlap: each starts where the
/// one before it ends.
pub proof fn law_rows_adjacent(layer: Glm5KdaLayer, ctx: ForwardContext, ptr: DevicePtr, row: int)
    requires
        row >= 0,
        ptr.reaches((row + 1) * layer.hc_row_bytes(ctx)),
    ensures
        ptr.plus(row * layer.hc_row_bytes(ctx)).plus(layer.hc_row_bytes(ctx)) == ptr.plus(
            (row + 1) * layer.hc_row_bytes(ctx),
        ),
{
    let bytes = layer.hc_row_bytes(ctx);
    assert(bytes >= 0) by {
        assert((layer.hc.hc_mult as u32) * (ctx.config.hidden_size as u32) >= 0)
            by (nonlinear_arith);
    }
    assert((row + 1) * bytes == row * bytes + bytes) by (nonlinear_arith);
    assert(row * bytes >= 0) by (nonlinear_arith)
        requires
            row >= 0,
            bytes >= 0,
    ;
}

} // verus!
