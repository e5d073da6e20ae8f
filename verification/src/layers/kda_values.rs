//! What a Kimi Delta Attention block computes.
use vstd::prelude::*;

use crate::config::ModelConfig;
use crate::device::{
    dim3, result_ptr, CommandOf, CommandView, DenseWeight, DeviceCall, DevicePtr, FfnComponent,
    Float32, LaunchView, PassContext,
};
use crate::layers::kda::{new_layer_trace, Glm5KdaLayer, LayerState, SsmLayerState};
use crate::layers::kda_sequence::{law_batch_appends, law_prefill_appends};
use crate::layers::values::{
    f32_arg, ptr_arg, read, stream_of, u32_arg, unknown, Collapse, Convolution, Memory, Recurrence,
    Term,
};
use crate::layers::{ForwardContext, HcSiteWeights, HcWeights};
use crate::weight_loader::origins::{lemma_made_at, made_by, recorded};
use crate::weight_map::Glm5KdaWeights;

verus! {

/// What a launch of one of the kernels of `layer` leaves behind.
pub open spec fn launch_effect(layer: Glm5KdaLayer, memory: Memory, launch: LaunchView) -> Memory {
    let at = |i: int| Box::new(read(memory, ptr_arg(launch, i)));
    if launch.kernel == layer.kda_recurrent_k {
        let step = Recurrence {
            a_log: ptr_arg(launch, 4),
            dt_bias: ptr_arg(launch, 5),
            heads: u32_arg(launch, 7),
            head_dim: u32_arg(launch, 8),
            bound: if u32_arg(launch, 10) == 0 {
                None
            } else {
                Some(f32_arg(launch, 9))
            },
            state: at(0),
            qkv: at(1),
            forget: at(2),
            beta: at(3),
        };
        if launch.args.len() == 11 && launch.grid == dim3(step.heads, 1, 1) && launch.block
            == dim3(step.head_dim, 1, 1) {
            memory.insert(ptr_arg(launch, 0), Term::RecurrentState(step)).insert(
                ptr_arg(launch, 6),
                Term::Recurred(step),
            )
        } else {
            unknown()
        }
    } else if launch.kernel == layer.kda_gated_norm_k {
        let heads = u32_arg(launch, 4);
        let head_dim = u32_arg(launch, 5);
        if launch.args.len() == 7 && launch.grid == dim3(heads, 1, 1) && launch.block == dim3(
            head_dim,
            1,
            1,
        ) {
            memory.insert(
                ptr_arg(launch, 3),
                Term::GatedNorm {
                    weight: ptr_arg(launch, 2),
                    heads,
                    head_dim,
                    eps: f32_arg(launch, 6),
                    input: at(0),
                    gate: at(1),
                },
            )
        } else {
            unknown()
        }
    } else if launch.grid != dim3(1, 1, 1) || launch.block != dim3(256, 1, 1) {
        unknown()
    } else if launch.kernel == layer.hc_expand_k && launch.args.len() == 4 {
        memory.insert(
            ptr_arg(launch, 1),
            Term::Spread { width: u32_arg(launch, 2), streams: u32_arg(launch, 3), input: at(0) },
        )
    } else if launch.kernel == layer.hc_pre_k && launch.args.len() == 12 {
        let collapse = Collapse {
            weight: ptr_arg(launch, 1),
            scale: ptr_arg(launch, 2),
            base: ptr_arg(launch, 3),
            width: u32_arg(launch, 7),
            streams: u32_arg(launch, 8),
            iterations: u32_arg(launch, 9),
            norm_eps: f32_arg(launch, 10),
            eps: f32_arg(launch, 11),
            input: at(0),
        };
        memory.insert(ptr_arg(launch, 4), Term::Collapsed(collapse)).insert(
            ptr_arg(launch, 5),
            Term::PostMix(collapse),
        ).insert(ptr_arg(launch, 6), Term::StreamMix(collapse))
    } else if launch.kernel == layer.hc_post_k && launch.args.len() == 7 {
        memory.insert(
            ptr_arg(launch, 4),
            Term::Merged {
                width: u32_arg(launch, 5),
                streams: u32_arg(launch, 6),
                block: at(0),
                residual: at(1),
                post: at(2),
                mix: at(3),
            },
        )
    } else if launch.kernel == layer.hc_mean_k && launch.args.len() == 4 {
        memory.insert(
            ptr_arg(launch, 1),
            Term::Mean { width: u32_arg(launch, 2), streams: u32_arg(launch, 3), input: at(0) },
        )
    } else {
        unknown()
    }
}

/// What a runtime operation with the kernels of `layer` leaves behind; its result,
/// if it has one, is at `result`. A convolution reads query, key and value one
/// behind the other, two bytes for each element.
pub open spec fn call_effect(
    layer: Glm5KdaLayer,
    memory: Memory,
    call: DeviceCall,
    result: DevicePtr,
) -> Memory {
    match call {
        DeviceCall::DenseGemv { kernel, input, weight, output, n, k, .. } => {
            if kernel == layer.dense_gemv_k {
                memory.insert(
                    output,
                    Term::Product {
                        weight: weight.weight,
                        n,
                        k,
                        input: Box::new(read(memory, input)),
                    },
                )
            } else {
                unknown()
            }
        },
        DeviceCall::RmsNorm { kernel, input, weight, output, rows, width, eps, .. } => {
            if kernel == layer.rms_norm_k && rows == 1 {
                memory.insert(
                    output,
                    Term::Norm {
                        weight: weight.weight,
                        width,
                        eps,
                        input: Box::new(read(memory, input)),
                    },
                )
            } else {
                unknown()
            }
        },
        DeviceCall::Conv1dUpdate {
            kernel,
            state,
            input,
            weight,
            output,
            channels,
            kernel_size,
            rows,
            ..
        } => {
            let third = (channels / 3) * 2;
            let convolution = Convolution {
                weight: weight.weight,
                channels,
                taps: kernel_size,
                tail: Box::new(read(memory, state)),
                query: Box::new(read(memory, input)),
                key: Box::new(read(memory, input.plus(third))),
                value: Box::new(read(memory, input.plus(2 * third))),
            };
            if kernel == layer.conv1d_k && rows == 1 {
                memory.insert(state, Term::ConvolutionTail(convolution)).insert(
                    output,
                    Term::Convolved(convolution),
                )
            } else {
                unknown()
            }
        },
        DeviceCall::FfnForward { ffn, input, pass, .. } => memory.insert(
            result,
            Term::FedForward { ffn, pass, input: Box::new(read(memory, input)) },
        ),
        _ => unknown(),
    }
}

/// What a command on `stream` leaves behind.
pub open spec fn effect(
    layer: Glm5KdaLayer,
    stream: u64,
    memory: Memory,
    step: CommandView,
    result: DevicePtr,
) -> Memory {
    if stream_of(step) != Some(stream) {
        unknown()
    } else {
        match step {
            CommandOf::Launch(launch) => launch_effect(layer, memory, launch),
            CommandOf::Call(call) => call_effect(layer, memory, call, result),
            _ => unknown(),
        }
    }
}

/// What `steps`, recorded after `at` commands of buffer `id`, leave behind on
/// `stream`.
pub open spec fn after(
    layer: Glm5KdaLayer,
    stream: u64,
    memory: Memory,
    steps: Seq<CommandView>,
    id: u64,
    at: nat,
) -> Memory
    decreases steps.len(),
{
    if steps.len() == 0 {
        memory
    } else {
        effect(
            layer,
            stream,
            after(layer, stream, memory, steps.drop_last(), id, at),
            steps.last(),
            result_ptr(id, (at + steps.len() - 1) as nat),
        )
    }
}

proof fn lemma_after_one(
    layer: Glm5KdaLayer,
    stream: u64,
    memory: Memory,
    steps: Seq<CommandView>,
    id: u64,
    at: nat,
    i: int,
)
    requires
        0 <= i < steps.len(),
    ensures
        after(layer, stream, memory, steps.take(i + 1), id, at) == effect(
            layer,
            stream,
            after(layer, stream, memory, steps.take(i), id, at),
            steps[i],
            result_ptr(id, (at + i) as nat),
        ),
{
    assert(steps.take(i + 1).drop_last() =~= steps.take(i));
}

proof fn lemma_after_add(
    layer: Glm5KdaLayer,
    stream: u64,
    memory: Memory,
    first: Seq<CommandView>,
    second: Seq<CommandView>,
    id: u64,
    at: nat,
)
    ensures
        after(layer, stream, memory, first + second, id, at) == after(
            layer,
            stream,
            after(layer, stream, memory, first, id, at),
            second,
            id,
            at + first.len(),
        ),
    decreases second.len(),
{
    if second.len() == 0 {
        assert(first + second =~= first);
    } else {
        lemma_after_add(layer, stream, memory, first, second.drop_last(), id, at);
        assert((first + second).drop_last() =~= first + second.drop_last());
    }
}

/// `weight`, an `n` by `k` matrix, times `input`.
pub open spec fn product(weight: DevicePtr, n: u32, k: u32, input: Term) -> Term {
    Term::Product { weight, n, k, input: Box::new(input) }
}

/// The convolution of one token with normalised hidden state `x`, over its query,
/// key and value, with `tail` left by the tokens before it.
pub open spec fn token_convolution(
    layer: Glm5KdaLayer,
    config: ModelConfig,
    x: Term,
    tail: Term,
) -> Convolution {
    let hidden = config.hidden_size as u32;
    let width = (config.linear_num_key_heads as u32) * (config.linear_key_head_dim as u32);
    Convolution {
        weight: layer.conv_weight.weight,
        channels: (width * 3) as u32,
        taps: config.linear_conv_kernel_dim as u32,
        tail: Box::new(tail),
        query: Box::new(product(layer.kda.q_proj.weight, width as u32, hidden, x)),
        key: Box::new(product(layer.kda.k_proj.weight, width as u32, hidden, x)),
        value: Box::new(product(layer.kda.v_proj.weight, width as u32, hidden, x)),
    }
}

/// The step of the delta rule for the token: its convolved query, key and value, a
/// decay for each key component through `f_a` and `f_b`, and a rate for each head.
pub open spec fn token_recurrence(
    layer: Glm5KdaLayer,
    config: ModelConfig,
    x: Term,
    state: Term,
    tail: Term,
) -> Recurrence {
    let hidden = config.hidden_size as u32;
    let heads = config.linear_num_key_heads as u32;
    let head_dim = config.linear_key_head_dim as u32;
    let width = (heads * head_dim) as u32;
    Recurrence {
        a_log: layer.kda.a_log.weight,
        dt_bias: layer.kda.dt_bias.weight,
        heads,
        head_dim,
        bound: config.linear_gate_lower_bound,
        state: Box::new(state),
        qkv: Box::new(Term::Convolved(token_convolution(layer, config, x, tail))),
        forget: Box::new(
            product(
                layer.kda.f_b_proj.weight,
                width,
                head_dim,
                product(layer.kda.f_a_proj.weight, head_dim, hidden, x),
            ),
        ),
        beta: Box::new(product(layer.kda.b_proj.weight, heads, hidden, x)),
    }
}

/// The mixed token: what the delta rule gives, normalised and gated through `g_a`
/// and `g_b`, and projected.
pub open spec fn mixed_token(
    layer: Glm5KdaLayer,
    config: ModelConfig,
    x: Term,
    state: Term,
    tail: Term,
) -> Term {
    let hidden = config.hidden_size as u32;
    let heads = config.linear_num_key_heads as u32;
    let head_dim = config.linear_key_head_dim as u32;
    let width = (heads * head_dim) as u32;
    product(
        layer.kda.o_proj.weight,
        hidden,
        width,
        Term::GatedNorm {
            weight: layer.kda.o_norm.weight,
            heads,
            head_dim,
            eps: Float32::Rounded(config.rms_norm_eps),
            input: Box::new(Term::Recurred(token_recurrence(layer, config, x, state, tail))),
            gate: Box::new(
                product(
                    layer.kda.g_b_proj.weight,
                    width,
                    head_dim,
                    product(layer.kda.g_a_proj.weight, head_dim, hidden, x),
                ),
            ),
        },
    )
}

/// The scratch addresses that the mixer writes: query, key, value and gate one
/// behind the other, a small one, the convolved token and the output.
pub open spec fn mixer_scratch(ctx: ForwardContext) -> Seq<DevicePtr> {
    let bytes = (ctx.config.linear_num_key_heads as u32) * (ctx.config.linear_key_head_dim as u32)
        * 2;
    seq![
        ctx.buffers.ssm_qkvz,
        ctx.buffers.ssm_qkvz.plus(bytes),
        ctx.buffers.ssm_qkvz.plus(2 * bytes),
        ctx.buffers.ssm_qkvz.plus(3 * bytes),
        ctx.buffers.ssm_ba,
        ctx.buffers.ssm_deinterleaved,
        ctx.buffers.attn_output,
    ]
}

/// What the mixer reads and writes stands at different addresses.
pub open spec fn mixer_apart(ctx: ForwardContext, normed: DevicePtr, state: SsmLayerState) -> bool {
    (mixer_scratch(ctx) + seq![normed, state.h_state, state.conv_state]).no_duplicates()
}

/// What a token leaves behind: at the output buffer the mixed token, a function of
/// its normalised hidden state and of the state of its sequence alone; in the state
/// what the delta rule and the convolution keep. Apart from that and from scratch
/// buffers, nothing changes.
pub proof fn law_mixes_the_token(
    layer: Glm5KdaLayer,
    normed: DevicePtr,
    state: SsmLayerState,
    ctx: ForwardContext,
    stream: u64,
    memory: Memory,
    id: u64,
    at: nat,
)
    requires
        Glm5KdaLayer::attention_fits(ctx),
        Glm5KdaLayer::width(*ctx.config) * 3 <= u32::MAX,
        mixer_apart(ctx, normed, state),
        layer.kda_recurrent_k != layer.kda_gated_norm_k,
    ensures
        ({
            let config = *ctx.config;
            let end = after(
                layer,
                stream,
                memory,
                layer.attention_steps(normed, state, ctx, stream),
                id,
                at,
            );
            let x = read(memory, normed);
            let h = read(memory, state.h_state);
            let tail = read(memory, state.conv_state);
            &&& read(end, ctx.buffers.attn_output) == mixed_token(layer, config, x, h, tail)
            &&& read(end, state.h_state) == Term::RecurrentState(
                token_recurrence(layer, config, x, h, tail),
            )
            &&& read(end, state.conv_state) == Term::ConvolutionTail(
                token_convolution(layer, config, x, tail),
            )
            &&& forall|ptr: DevicePtr|
                ptr != state.h_state && ptr != state.conv_state && !mixer_scratch(ctx).contains(ptr)
                    ==> #[trigger] read(end, ptr) == read(memory, ptr)
        }),
{
    let steps = layer.attention_steps(normed, state, ctx, stream);
    let scratch = mixer_scratch(ctx);
    let all = scratch + seq![normed, state.h_state, state.conv_state];
    let width = Glm5KdaLayer::width(*ctx.config);
    assert(0 <= width) by {
        assert(0 <= (ctx.config.linear_num_key_heads as u32) * (
        ctx.config.linear_key_head_dim as u32)) by (nonlinear_arith);
    }
    let q = all[0];
    let k = all[1];
    let v = all[2];
    let gate = all[3];
    let small = all[4];
    let conv = all[5];
    let out = all[6];
    assert(all[7] == normed && all[8] == state.h_state && all[9] == state.conv_state);
    assert(((width * 3) as u32 / 3) * 2 == width * 2);
    lemma_after_one(layer, stream, memory, steps, id, at, 0);
    lemma_after_one(layer, stream, memory, steps, id, at, 1);
    lemma_after_one(layer, stream, memory, steps, id, at, 2);
    lemma_after_one(layer, stream, memory, steps, id, at, 3);
    lemma_after_one(layer, stream, memory, steps, id, at, 4);
    lemma_after_one(layer, stream, memory, steps, id, at, 5);
    lemma_after_one(layer, stream, memory, steps, id, at, 6);
    lemma_after_one(layer, stream, memory, steps, id, at, 7);
    lemma_after_one(layer, stream, memory, steps, id, at, 8);
    lemma_after_one(layer, stream, memory, steps, id, at, 9);
    lemma_after_one(layer, stream, memory, steps, id, at, 10);
    lemma_after_one(layer, stream, memory, steps, id, at, 11);
    assert(steps.take(0).len() == 0);
    assert(steps.take(12) =~= steps);
}

/// The streams on their way into the block of `site`.
pub open spec fn collapse(
    layer: Glm5KdaLayer,
    site: HcSiteWeights,
    config: ModelConfig,
    streams: Term,
) -> Collapse {
    Collapse {
        weight: site.hc_fn,
        scale: site.hc_scale,
        base: site.hc_base,
        width: config.hidden_size as u32,
        streams: layer.hc.hc_mult as u32,
        iterations: layer.hc.sinkhorn_iters as u32,
        norm_eps: Float32::Rounded(config.rms_norm_eps),
        eps: layer.hc.hc_eps,
        input: Box::new(streams),
    }
}

/// `block`, the output of what the streams of `collapse` went into, merged into
/// those streams.
pub open spec fn merge(
    layer: Glm5KdaLayer,
    config: ModelConfig,
    block: Term,
    collapse: Collapse,
) -> Term {
    Term::Merged {
        streams: layer.hc.hc_mult as u32,
        width: config.hidden_size as u32,
        block: Box::new(block),
        residual: collapse.input,
        post: Box::new(Term::PostMix(collapse)),
        mix: Box::new(Term::StreamMix(collapse)),
    }
}

/// The collapsed streams, normalised with `weight`.
pub open spec fn block_input(weight: DevicePtr, config: ModelConfig, collapse: Collapse) -> Term {
    Term::Norm {
        weight,
        width: config.hidden_size as u32,
        eps: Float32::Rounded(config.rms_norm_eps),
        input: Box::new(Term::Collapsed(collapse)),
    }
}

/// The streams that enter the layer. The first layer of a model starts them from
/// the hidden state.
pub open spec fn entering(
    layer: Glm5KdaLayer,
    config: ModelConfig,
    hidden: Term,
    streams: Term,
) -> Collapse {
    let start = if layer.layer_idx == 0 {
        Term::Spread {
            streams: layer.hc.hc_mult as u32,
            width: config.hidden_size as u32,
            input: Box::new(hidden),
        }
    } else {
        streams
    };
    collapse(layer, layer.hc.attn, config, start)
}

/// The streams between the mixer and the feed-forward block.
pub open spec fn between(
    layer: Glm5KdaLayer,
    config: ModelConfig,
    first: Collapse,
    state: Term,
    tail: Term,
) -> Collapse {
    let x = block_input(layer.input_norm.weight, config, first);
    collapse(
        layer,
        layer.hc.ffn,
        config,
        merge(layer, config, mixed_token(layer, config, x, state, tail), first),
    )
}

/// The streams that leave the layer.
pub open spec fn leaving(layer: Glm5KdaLayer, ctx: ForwardContext, second: Collapse) -> Term {
    let config = *ctx.config;
    let x = block_input(layer.post_attn_norm.weight, config, second);
    merge(
        layer,
        config,
        Term::FedForward {
            ffn: layer.ffn,
            pass: PassContext {
                buffers: ctx.buffers,
                attn_metadata: ctx.attn_metadata,
                profile: ctx.profile,
                graph_capture: ctx.graph_capture,
                gemv_sw: ctx.gemv_sw,
            },
            input: Box::new(x),
        },
        second,
    )
}

/// The addresses of row `row` in the hyper-connection buffers: rows of
/// `hc_mult` streams, two bytes for each element.
pub open spec fn stream_row(layer: Glm5KdaLayer, ctx: ForwardContext, base: DevicePtr, row: int)
    -> DevicePtr {
    base.plus(row * ((layer.hc.hc_mult as u32) * (ctx.config.hidden_size as u32) * 2))
}

/// The addresses that a row works on besides those of the mixer.
pub open spec fn row_places(
    layer: Glm5KdaLayer,
    hidden: DevicePtr,
    ctx: ForwardContext,
    row: int,
    result: DevicePtr,
) -> Seq<DevicePtr> {
    seq![
        hidden,
        stream_row(layer, ctx, ctx.buffers.hc_streams, row),
        stream_row(layer, ctx, ctx.buffers.hc_post, row),
        stream_row(layer, ctx, ctx.buffers.hc_comb, row),
        result,
    ]
}

/// What a row reads and writes stands at different addresses, and the kernels of
/// the layer are different ones.
pub open spec fn row_apart(
    layer: Glm5KdaLayer,
    hidden: DevicePtr,
    state: SsmLayerState,
    ctx: ForwardContext,
    row: int,
    result: DevicePtr,
) -> bool {
    &&& (mixer_scratch(ctx) + seq![ctx.buffers.norm_output, state.h_state, state.conv_state]
        + row_places(layer, hidden, ctx, row, result)).no_duplicates()
    &&& seq![
        layer.kda_recurrent_k,
        layer.kda_gated_norm_k,
        layer.hc_expand_k,
        layer.hc_pre_k,
        layer.hc_post_k,
        layer.hc_mean_k,
    ].no_duplicates()
}

proof fn lemma_mixer_part(
    layer: Glm5KdaLayer,
    state: SsmLayerState,
    hidden: DevicePtr,
    ctx: ForwardContext,
    row: int,
    result: DevicePtr,
)
    requires
        row_apart(layer, hidden, state, ctx, row, result),
    ensures
        mixer_apart(ctx, ctx.buffers.norm_output, state),
        layer.kda_recurrent_k != layer.kda_gated_norm_k,
{
    let first = mixer_scratch(ctx) + seq![
        ctx.buffers.norm_output,
        state.h_state,
        state.conv_state,
    ];
    let all = first + row_places(layer, hidden, ctx, row, result);
    assert forall|i: int, j: int| 0 <= i < first.len() && 0 <= j < first.len() && i != j implies
        first[i] != first[j] by {
        assert(all[i] == first[i] && all[j] == first[j]);
    }
    let kernels = seq![
        layer.kda_recurrent_k,
        layer.kda_gated_norm_k,
        layer.hc_expand_k,
        layer.hc_pre_k,
        layer.hc_post_k,
        layer.hc_mean_k,
    ];
    assert(kernels[0] != kernels[1]);
}

/// What stands where once the streams have entered the mixer.
proof fn lemma_entered(
    layer: Glm5KdaLayer,
    hidden: DevicePtr,
    state: SsmLayerState,
    ctx: ForwardContext,
    stream: u64,
    row: int,
    memory: Memory,
    id: u64,
    at: nat,
    result: DevicePtr,
)
    requires
        row_apart(layer, hidden, state, ctx, row, result),
    ensures
        ({
            let steps = layer.expand_steps(hidden, ctx, stream, row) + seq![
                layer.pre_step(layer.hc.attn, hidden, ctx, stream, row),
                layer.norm_step(layer.input_norm, hidden, ctx, stream),
            ];
            let end = after(layer, stream, memory, steps, id, at);
            let streams = stream_row(layer, ctx, ctx.buffers.hc_streams, row);
            let first = entering(
                layer,
                *ctx.config,
                read(memory, hidden),
                read(memory, streams),
            );
            let post = stream_row(layer, ctx, ctx.buffers.hc_post, row);
            let comb = stream_row(layer, ctx, ctx.buffers.hc_comb, row);
            &&& read(end, streams) == *first.input
            &&& read(end, post) == Term::PostMix(first)
            &&& read(end, comb) == Term::StreamMix(first)
            &&& read(end, ctx.buffers.norm_output) == block_input(
                layer.input_norm.weight,
                *ctx.config,
                first,
            )
            &&& forall|ptr: DevicePtr|
                ptr != ctx.buffers.norm_output && !row_places(
                    layer,
                    hidden,
                    ctx,
                    row,
                    result,
                ).contains(ptr) ==> #[trigger] read(end, ptr) == read(memory, ptr)
        }),
{
    let all = mixer_scratch(ctx) + seq![ctx.buffers.norm_output, state.h_state, state.conv_state]
        + row_places(layer, hidden, ctx, row, result);
    let places = row_places(layer, hidden, ctx, row, result);
    assert(all[7] == ctx.buffers.norm_output && all[10] == hidden);
    assert(all[11] == places[1] && all[12] == places[2] && all[13] == places[3]);
    let kernels = seq![
        layer.kda_recurrent_k,
        layer.kda_gated_norm_k,
        layer.hc_expand_k,
        layer.hc_pre_k,
        layer.hc_post_k,
        layer.hc_mean_k,
    ];
    assert(kernels[0] == layer.kda_recurrent_k && kernels[1] == layer.kda_gated_norm_k);
    assert(kernels[2] == layer.hc_expand_k && kernels[3] == layer.hc_pre_k);
    let spread = layer.expand_steps(hidden, ctx, stream, row);
    let two = seq![
        layer.pre_step(layer.hc.attn, hidden, ctx, stream, row),
        layer.norm_step(layer.input_norm, hidden, ctx, stream),
    ];
    lemma_after_add(layer, stream, memory, spread, two, id, at);
    if layer.layer_idx == 0 {
        lemma_after_one(layer, stream, memory, spread, id, at, 0);
        assert(spread.take(0).len() == 0);
        assert(spread.take(1) =~= spread);
    }
    let middle = after(layer, stream, memory, spread, id, at);
    lemma_after_one(layer, stream, middle, two, id, at + spread.len(), 0);
    lemma_after_one(layer, stream, middle, two, id, at + spread.len(), 1);
    assert(two.take(0).len() == 0);
    assert(two.take(2) =~= two);
}

/// What stands where once the mixed token is merged and the feed-forward block has
/// run.
proof fn lemma_left(
    layer: Glm5KdaLayer,
    hidden: DevicePtr,
    state: SsmLayerState,
    ctx: ForwardContext,
    stream: u64,
    row: int,
    memory: Memory,
    id: u64,
    at: nat,
    first: Collapse,
)
    requires
        row_apart(layer, hidden, state, ctx, row, result_ptr(id, at + 3)),
        read(memory, stream_row(layer, ctx, ctx.buffers.hc_streams, row)) == *first.input,
        read(memory, stream_row(layer, ctx, ctx.buffers.hc_post, row)) == Term::PostMix(first),
        read(memory, stream_row(layer, ctx, ctx.buffers.hc_comb, row)) == Term::StreamMix(first),
    ensures
        ({
            let steps = seq![layer.post_step(ctx.buffers.attn_output, ctx, stream, row)]
                + layer.ffn_steps(hidden, ctx, stream, row, id, at + 1);
            let end = after(layer, stream, memory, steps, id, at);
            let places = row_places(layer, hidden, ctx, row, result_ptr(id, at + 3));
            let second = collapse(
                layer,
                layer.hc.ffn,
                *ctx.config,
                merge(layer, *ctx.config, read(memory, ctx.buffers.attn_output), first),
            );
            let streams = leaving(layer, ctx, second);
            &&& read(end, places[1]) == streams
            &&& layer.layer_idx + 1 == ctx.config.num_hidden_layers ==> read(end, hidden)
                == (Term::Mean {
                streams: layer.hc.hc_mult as u32,
                width: ctx.config.hidden_size as u32,
                input: Box::new(streams),
            })
            &&& layer.layer_idx + 1 != ctx.config.num_hidden_layers ==> read(end, hidden)
                == Term::Collapsed(second)
            &&& forall|ptr: DevicePtr|
                ptr != ctx.buffers.norm_output && !places.contains(ptr) ==> #[trigger] read(
                    end,
                    ptr,
                ) == read(memory, ptr)
        }),
{
    let result = result_ptr(id, at + 3);
    let places = row_places(layer, hidden, ctx, row, result);
    let all = mixer_scratch(ctx) + seq![ctx.buffers.norm_output, state.h_state, state.conv_state]
        + places;
    assert(all[6] == ctx.buffers.attn_output);
    assert(all[7] == ctx.buffers.norm_output && all[10] == hidden);
    assert(all[11] == places[1] && all[12] == places[2] && all[13] == places[3]);
    assert(all[14] == result && places[4] == result && places[0] == hidden);
    let kernels = seq![
        layer.kda_recurrent_k,
        layer.kda_gated_norm_k,
        layer.hc_expand_k,
        layer.hc_pre_k,
        layer.hc_post_k,
        layer.hc_mean_k,
    ];
    assert(kernels[0] == layer.kda_recurrent_k && kernels[1] == layer.kda_gated_norm_k);
    assert(kernels[2] == layer.hc_expand_k && kernels[3] == layer.hc_pre_k);
    assert(kernels[4] == layer.hc_post_k && kernels[5] == layer.hc_mean_k);
    let steps = seq![layer.post_step(ctx.buffers.attn_output, ctx, stream, row)]
        + layer.ffn_steps(hidden, ctx, stream, row, id, at + 1);
    lemma_after_one(layer, stream, memory, steps, id, at, 0);
    lemma_after_one(layer, stream, memory, steps, id, at, 1);
    lemma_after_one(layer, stream, memory, steps, id, at, 2);
    lemma_after_one(layer, stream, memory, steps, id, at, 3);
    lemma_after_one(layer, stream, memory, steps, id, at, 4);
    assert(steps.take(0).len() == 0);
    if layer.layer_idx + 1 == ctx.config.num_hidden_layers {
        lemma_after_one(layer, stream, memory, steps, id, at, 5);
        assert(steps.take(6) =~= steps);
    } else {
        assert(steps.take(5) =~= steps);
    }
}

/// Where the feed-forward block of a row leaves its output.
pub open spec fn ffn_result(
    layer: Glm5KdaLayer,
    hidden: DevicePtr,
    state: SsmLayerState,
    ctx: ForwardContext,
    stream: u64,
    row: int,
    id: u64,
    at: nat,
) -> DevicePtr {
    result_ptr(id, at + layer.mixer_steps(hidden, state, ctx, stream, row).len() + 2)
}

/// What a row leaves behind in its streams: the hidden state, or the streams of the
/// layer before, went through the mixer and through the feed-forward block, each
/// with its own site of the hyper-connection and its own norm, and each was merged
/// back. The last layer of a model leaves their mean in the hidden state. The state
/// of the sequence advances by this token, and what is no scratch buffer and no
/// part of this row is left alone.
pub proof fn law_row_through_the_block(
    layer: Glm5KdaLayer,
    hidden: DevicePtr,
    state: SsmLayerState,
    ctx: ForwardContext,
    stream: u64,
    row: int,
    memory: Memory,
    id: u64,
    at: nat,
)
    requires
        layer.row_fits(ctx, row),
        Glm5KdaLayer::width(*ctx.config) * 3 <= u32::MAX,
        row_apart(
            layer,
            hidden,
            state,
            ctx,
            row,
            ffn_result(layer, hidden, state, ctx, stream, row, id, at),
        ),
    ensures
        ({
            let config = *ctx.config;
            let result = ffn_result(layer, hidden, state, ctx, stream, row, id, at);
            let places = row_places(layer, hidden, ctx, row, result);
            let end = after(
                layer,
                stream,
                memory,
                layer.row_steps(hidden, state, ctx, stream, row, id, at),
                id,
                at,
            );
            let h = read(memory, state.h_state);
            let tail = read(memory, state.conv_state);
            let first = entering(layer, config, read(memory, hidden), read(memory, places[1]));
            let second = between(layer, config, first, h, tail);
            let x = block_input(layer.input_norm.weight, config, first);
            &&& read(end, places[1]) == leaving(layer, ctx, second)
            &&& layer.layer_idx + 1 == config.num_hidden_layers ==> read(end, hidden)
                == (Term::Mean {
                streams: layer.hc.hc_mult as u32,
                width: config.hidden_size as u32,
                input: Box::new(leaving(layer, ctx, second)),
            })
            &&& read(end, state.h_state) == Term::RecurrentState(
                token_recurrence(layer, config, x, h, tail),
            )
            &&& read(end, state.conv_state) == Term::ConvolutionTail(
                token_convolution(layer, config, x, tail),
            )
            &&& forall|ptr: DevicePtr|
                ptr != state.h_state && ptr != state.conv_state && ptr != ctx.buffers.norm_output
                    && !mixer_scratch(ctx).contains(ptr) && !places.contains(ptr)
                    ==> #[trigger] read(end, ptr) == read(memory, ptr)
        }),
{
    let config = *ctx.config;
    let result = ffn_result(layer, hidden, state, ctx, stream, row, id, at);
    let places = row_places(layer, hidden, ctx, row, result);
    let scratch = mixer_scratch(ctx);
    let all = scratch + seq![ctx.buffers.norm_output, state.h_state, state.conv_state] + places;
    let start = layer.expand_steps(hidden, ctx, stream, row) + seq![
        layer.pre_step(layer.hc.attn, hidden, ctx, stream, row),
        layer.norm_step(layer.input_norm, hidden, ctx, stream),
    ];
    let mixer = layer.attention_steps(ctx.buffers.norm_output, state, ctx, stream);
    let merging = seq![layer.post_step(ctx.buffers.attn_output, ctx, stream, row)];
    let next = at + start.len() + mixer.len();
    let rest = merging + layer.ffn_steps(hidden, ctx, stream, row, id, next + 1);
    let steps = layer.row_steps(hidden, state, ctx, stream, row, id, at);
    assert(layer.mixer_steps(hidden, state, ctx, stream, row) =~= start + mixer + merging);
    assert(steps =~= start + (mixer + rest));
    assert(result == result_ptr(id, next + 3));
    lemma_after_add(layer, stream, memory, start, mixer + rest, id, at);
    let entered = after(layer, stream, memory, start, id, at);
    lemma_after_add(layer, stream, entered, mixer, rest, id, at + start.len());
    let mixed = after(layer, stream, entered, mixer, id, at + start.len());
    lemma_entered(layer, hidden, state, ctx, stream, row, memory, id, at, result);
    lemma_mixer_part(layer, state, hidden, ctx, row, result);
    law_mixes_the_token(
        layer,
        ctx.buffers.norm_output,
        state,
        ctx,
        stream,
        entered,
        id,
        at + start.len(),
    );
    let first = entering(layer, config, read(memory, hidden), read(memory, places[1]));
    assert forall|i: int| 0 <= i < places.len() implies !scratch.contains(#[trigger] places[i])
        && places[i] != state.h_state && places[i] != state.conv_state && places[i]
        != ctx.buffers.norm_output by {
        assert(all[10 + i] == places[i]);
        assert(all[7] == ctx.buffers.norm_output);
        assert(all[8] == state.h_state && all[9] == state.conv_state);
        if scratch.contains(places[i]) {
            let j = choose|j: int| 0 <= j < scratch.len() && scratch[j] == places[i];
            assert(all[j] == scratch[j]);
        }
    }
    assert(!places.contains(state.h_state) && !places.contains(state.conv_state));
    assert(!places.contains(ctx.buffers.attn_output)) by {
        assert(scratch[6] == ctx.buffers.attn_output);
    }
    assert(all[6] == ctx.buffers.attn_output && all[7] == ctx.buffers.norm_output);
    assert(all[8] == state.h_state && all[9] == state.conv_state);
    assert(places[1] == stream_row(layer, ctx, ctx.buffers.hc_streams, row));
    assert(places[2] == stream_row(layer, ctx, ctx.buffers.hc_post, row));
    assert(places[3] == stream_row(layer, ctx, ctx.buffers.hc_comb, row));
    lemma_left(layer, hidden, state, ctx, stream, row, mixed, id, next, first);
}

/// A prompt works through its hidden states from the first one on, each right behind
/// the one before it, two bytes for each element, and with the state that the
/// tokens before it left.
pub proof fn law_prompt_in_order(
    layer: Glm5KdaLayer,
    hidden: DevicePtr,
    state: SsmLayerState,
    ctx: ForwardContext,
    stream: u64,
    count: nat,
    memory: Memory,
    id: u64,
    at: nat,
)
    ensures
        ({
            let whole = layer.prefill_trace(
                hidden,
                LayerState::Ssm(state),
                ctx,
                stream,
                count + 1,
                id,
                at,
            );
            let before = layer.prefill_trace(
                hidden,
                LayerState::Ssm(state),
                ctx,
                stream,
                count,
                id,
                at,
            );
            let token = hidden.plus(count * (ctx.config.hidden_size * 2));
            let next = at + before.steps.len();
            after(layer, stream, memory, whole.steps, id, at) == after(
                layer,
                stream,
                after(layer, stream, memory, before.steps, id, at),
                layer.row_steps(token, state, ctx, stream, count as int, id, next),
                id,
                next,
            )
        }),
{
    let state = LayerState::Ssm(state);
    let before = layer.prefill_trace(hidden, state, ctx, stream, count, id, at);
    law_prefill_appends(layer, hidden, state, ctx, stream, count, id, at);
    lemma_after_add(
        layer,
        stream,
        memory,
        before.steps,
        layer.row_steps(
            hidden.plus(count * Glm5KdaLayer::hidden_bytes(ctx)),
            state->Ssm_0,
            ctx,
            stream,
            count as int,
            id,
            at + before.steps.len(),
        ),
        id,
        at,
    );
}

/// A batch works through its sequences from the first one on, each with its own
/// hidden state, right behind the one before it, and with its own recurrent state.
pub proof fn law_batch_in_order(
    layer: Glm5KdaLayer,
    hidden: DevicePtr,
    states: Seq<LayerState>,
    ctx: ForwardContext,
    stream: u64,
    count: nat,
    memory: Memory,
    id: u64,
    at: nat,
)
    requires
        forall|j: int| 0 <= j <= count ==> states[j] is Ssm,
    ensures
        ({
            let whole = layer.multi_seq_trace(hidden, states, ctx, stream, count + 1, id, at);
            let before = layer.multi_seq_trace(hidden, states, ctx, stream, count, id, at);
            let token = hidden.plus(count * (ctx.config.hidden_size * 2));
            let own = states[count as int]->Ssm_0;
            let next = at + before.steps.len();
            after(layer, stream, memory, whole.steps, id, at) == after(
                layer,
                stream,
                after(layer, stream, memory, before.steps, id, at),
                layer.row_steps(token, own, ctx, stream, count as int, id, next),
                id,
                next,
            )
        }),
{
    let before = layer.multi_seq_trace(hidden, states, ctx, stream, count, id, at);
    law_batch_appends(layer, hidden, states, ctx, stream, count, id, at);
    lemma_after_add(
        layer,
        stream,
        memory,
        before.steps,
        layer.row_steps(
            hidden.plus(count * Glm5KdaLayer::hidden_bytes(ctx)),
            states[count as int]->Ssm_0,
            ctx,
            stream,
            count as int,
            id,
            at + before.steps.len(),
        ),
        id,
        at,
    );
}

/// A fresh state is two allocations of the sizes of the layer, each cleared from
/// end to end and neither the other.
pub proof fn law_fresh_state_is_clear(layer: Glm5KdaLayer, id: u64, at: nat)
    requires
        at + 4 <= usize::MAX,
    ensures
        ({
            let steps = layer.state_steps(id, at);
            let h = result_ptr(id, at);
            let tail = result_ptr(id, at + 2);
            &&& h != tail
            &&& is_clear(steps, id, at, h, layer.h_state_bytes)
            &&& is_clear(steps, id, at, tail, layer.conv_state_bytes)
        }),
{
    let steps = layer.state_steps(id, at);
    lemma_made_at(steps, id, at, 0, 0);
    lemma_made_at(steps, id, at, 1, 0);
    lemma_made_at(steps, id, at, 2, 0);
    lemma_made_at(steps, id, at, 3, 0);
}

/// `ptr` is an allocation of `bytes` bytes, all set to zero.
pub open spec fn is_clear(
    steps: Seq<CommandView>,
    id: u64,
    at: nat,
    ptr: DevicePtr,
    bytes: usize,
) -> bool {
    &&& made_by(steps, id, at, ptr, 0, CommandOf::Call(DeviceCall::Alloc { bytes }))
    &&& recorded(steps, CommandOf::Call(DeviceCall::Memset { dst: ptr, value: 0, bytes }))
}

/// A block is built exactly for a GLM-5 model with as many key heads as value heads,
/// heads of 128 elements, and a hyper-connection of as many streams as the
/// configuration has, and of one at least.
pub proof fn law_built_iff_supported(
    input_norm: DenseWeight,
    kda: Glm5KdaWeights,
    conv: DenseWeight,
    post_norm: DenseWeight,
    ffn: FfnComponent,
    hc: HcWeights,
    index: usize,
    config: ModelConfig,
    h_state_bytes: usize,
    conv_state_bytes: usize,
    id: u64,
    at: nat,
)
    ensures
        new_layer_trace(
            input_norm,
            kda,
            conv,
            post_norm,
            ffn,
            hc,
            index,
            config,
            h_state_bytes,
            conv_state_bytes,
            id,
            at,
        ).outcome is Ok <==> {
            &&& config.model_type@ == "glm5_next"@
            &&& config.linear_num_key_heads == config.linear_num_value_heads
            &&& config.linear_key_head_dim == 128
            &&& config.linear_value_head_dim == 128
            &&& hc.hc_mult == config.hc_mult
            &&& hc.hc_mult > 0
        },
{
}

} // verus!
