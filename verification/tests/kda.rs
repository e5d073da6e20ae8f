use glm5_next::config::{LayerType, ModelConfig};
use glm5_next::device::{
    BufferArena, Command, CommandBuffer, CommandOf, DenseWeight, DeviceCall, DevicePtr,
    FfnComponent, Float32, KernelArg, KernelHandle, Origin, PassContext,
};
use glm5_next::json::JsonNumber;
use glm5_next::layers::kda::{Glm5KdaLayer, KdaError, LayerState, SsmLayerState};
use glm5_next::layers::{ForwardContext, HcSiteWeights, HcWeights};
use glm5_next::weight_map::Glm5KdaWeights;

fn glm_config() -> ModelConfig {
    ModelConfig {
        model_type: "glm5_next".to_owned(),
        weight_prefix: "model.language_model".to_owned(),
        nested_config: true,
        attn_gated: false,
        eos_token_id: 154820,
        eos_token_ids: vec![154820, 154827, 154829],
        hidden_size: 4096,
        num_hidden_layers: 4,
        intermediate_size: 12288,
        vocab_size: 154880,
        num_attention_heads: 64,
        num_key_value_heads: 64,
        head_dim: 256,
        qk_nope_head_dim: 256,
        qk_rope_head_dim: 0,
        v_head_dim: 256,
        q_lora_rank: 1536,
        kv_lora_rank: 512,
        num_experts: 2,
        num_experts_per_tok: 1,
        moe_intermediate_size: 2048,
        shared_expert_intermediate_size: 2048,
        routed_scaling_factor: JsonNumber::Float(2.5f64.to_bits()),
        norm_topk_prob: true,
        scoring_func: "sigmoid".to_owned(),
        use_routing_bias: true,
        layer_types: vec![
            LayerType::LinearAttention,
            LayerType::FullAttention,
            LayerType::LinearAttention,
            LayerType::FullAttention,
        ],
        mlp_only_layers: vec![0],
        linear_num_key_heads: 64,
        linear_num_value_heads: 64,
        linear_key_head_dim: 128,
        linear_value_head_dim: 128,
        linear_conv_kernel_dim: 4,
        linear_gate_lower_bound: Some(Float32::Rounded(JsonNumber::Float((-5.0f64).to_bits()))),
        hc_mult: 4,
        hc_sinkhorn_iters: 20,
        hc_eps: Float32::Rounded(JsonNumber::Float(1.0e-6f64.to_bits())),
        index_n_heads: 32,
        index_head_dim: 128,
        index_topk: 2048,
        index_kpool: 4,
        index_kpool_compress: true,
        index_kpool_always_select_tail: true,
        indexer_types: vec![
            "full".to_owned(),
            "full".to_owned(),
            "full".to_owned(),
            "full".to_owned(),
        ],
        mtp_num_hidden_layers: 1,
        num_mtp_modules: 1,
        mtp_transformer_layers: 1,
        vision: None,
        quantization_config: None,
        rms_norm_eps: JsonNumber::Float(1.0e-5f64.to_bits()),
        rope_theta: JsonNumber::PosInt(1000000),
    }
}

fn ptr(bytes: u64) -> DevicePtr {
    DevicePtr { origin: Origin::Absolute, bytes }
}

fn dense(bytes: u64) -> DenseWeight {
    DenseWeight { weight: ptr(bytes) }
}

fn buffers() -> BufferArena {
    BufferArena {
        ssm_qkvz: ptr(0x1000_0000),
        ssm_ba: ptr(0x2000_0000),
        ssm_deinterleaved: ptr(0x3000_0000),
        ssm_conv_out_f32: ptr(0x4000_0000),
        attn_output: ptr(0x5000_0000),
        norm_output: ptr(0x6000_0000),
        qkv_output: ptr(0x7000_0000),
        expert_up_out: ptr(0x8000_0000),
        expert_gate_out: ptr(0x9000_0000),
        hc_streams: ptr(0xa000_0000),
        hc_post: ptr(0xb000_0000),
        hc_comb: ptr(0xc000_0000),
    }
}

fn context(config: &ModelConfig) -> ForwardContext<'_> {
    ForwardContext {
        config,
        buffers: buffers(),
        attn_metadata: None,
        profile: false,
        graph_capture: false,
        gemv_sw: false,
    }
}

fn weights() -> Glm5KdaWeights {
    Glm5KdaWeights {
        q_proj: dense(1),
        k_proj: dense(2),
        v_proj: dense(3),
        q_conv1d: dense(4),
        k_conv1d: dense(5),
        v_conv1d: dense(6),
        f_a_proj: dense(7),
        f_b_proj: dense(8),
        g_a_proj: dense(9),
        g_b_proj: dense(10),
        b_proj: dense(11),
        a_log: dense(12),
        dt_bias: dense(13),
        o_norm: dense(14),
        o_proj: dense(15),
    }
}

fn site(base: u64) -> HcSiteWeights {
    HcSiteWeights { hc_fn: ptr(base), hc_base: ptr(base + 1), hc_scale: ptr(base + 2) }
}

fn highway(hc_mult: usize) -> HcWeights {
    HcWeights {
        attn: site(100),
        ffn: site(200),
        head: None,
        hc_mult,
        sinkhorn_iters: 20,
        hc_eps: Float32::Bits(0x3586_37bd),
        final_mean: true,
    }
}

fn build(
    config: &ModelConfig,
    hc: HcWeights,
    layer_idx: usize,
) -> (Result<Glm5KdaLayer, KdaError>, CommandBuffer) {
    let mut gpu = CommandBuffer::new(3, 0);
    let layer = Glm5KdaLayer::new(
        dense(50),
        weights(),
        dense(51),
        dense(52),
        FfnComponent::Moe(ptr(53)),
        hc,
        layer_idx,
        config,
        1024,
        512,
        &mut gpu,
    );
    (layer, gpu)
}

fn layer_at(config: &ModelConfig, layer_idx: usize) -> Glm5KdaLayer {
    build(config, highway(4), layer_idx).0.unwrap()
}

fn state() -> SsmLayerState {
    SsmLayerState {
        h_state: ptr(0xd000_0000),
        conv_state: ptr(0xe000_0000),
        h_state_checkpoint: None,
        conv_state_checkpoint: None,
        h_state_intermediates: vec![],
        conv_state_intermediates: vec![],
        h_is_f16: false,
        h_prefill_stage: None,
    }
}

fn gemv(command: &Command) -> (DevicePtr, DenseWeight, DevicePtr, u32, u32) {
    match command {
        CommandOf::Call(DeviceCall::DenseGemv { input, weight, output, n, k, .. }) => {
            (*input, *weight, *output, *n, *k)
        }
        other => panic!("not a matrix-vector product: {other:?}"),
    }
}

#[test]
fn block_looks_its_kernels_up_in_order() {
    let config = glm_config();
    let (layer, gpu) = build(&config, highway(4), 0);
    let layer = layer.unwrap();
    let names: Vec<(&str, &str)> = gpu
        .commands()
        .iter()
        .map(|command| match command {
            CommandOf::Call(DeviceCall::LookupKernel { module, name }) => (*module, *name),
            other => panic!("not a lookup: {other:?}"),
        })
        .collect();
    assert_eq!(
        names,
        vec![
            ("rms_norm_vanilla", "rms_norm_vanilla"),
            ("gemv", "dense_gemv_bf16"),
            ("causal_conv1d", "causal_conv1d_update"),
            ("kda", "kda_recurrent_decode"),
            ("kda", "kda_gated_rms_norm"),
            ("hyper_connection", "hc_expand"),
            ("hyper_connection", "hc_pre"),
            ("hyper_connection", "hc_post"),
            ("hyper_connection", "hc_mean"),
        ]
    );
    assert_eq!(layer.rms_norm_k, KernelHandle::Result { buffer: 3, command: 0 });
    assert_eq!(layer.hc_mean_k, KernelHandle::Result { buffer: 3, command: 8 });
    assert!(layer.is_ssm_layer());
}

#[test]
fn block_refuses_other_architectures() {
    let mut config = glm_config();
    config.model_type = "qwen3_next".to_owned();
    assert_eq!(build(&config, highway(4), 0).0, Err(KdaError::WrongModelType));

    let mut config = glm_config();
    config.linear_num_value_heads = 32;
    assert_eq!(build(&config, highway(4), 0).0, Err(KdaError::HeadCountsDiffer));

    let mut config = glm_config();
    config.linear_key_head_dim = 64;
    assert_eq!(build(&config, highway(4), 0).0, Err(KdaError::HeadWidthUnsupported));

    let mut config = glm_config();
    config.linear_value_head_dim = 256;
    assert_eq!(build(&config, highway(4), 0).0, Err(KdaError::HeadWidthUnsupported));

    let config = glm_config();
    let (refused, gpu) = build(&config, highway(2), 0);
    assert_eq!(refused, Err(KdaError::HighwayMissing));
    assert!(gpu.commands().is_empty());

    let mut config = glm_config();
    config.hc_mult = 0;
    assert_eq!(build(&config, highway(0), 0).0, Err(KdaError::HighwayMissing));
}

#[test]
fn block_errors_say_why() {
    let texts = [
        (KdaError::WrongModelType, "Glm5KdaLayer requires model_type=glm5_next"),
        (KdaError::HeadCountsDiffer, "GLM KDA requires matching key/value head counts"),
        (KdaError::HeadWidthUnsupported, "GLM KDA kernel is specialized for 128-wide heads"),
        (KdaError::HighwayMissing, "GLM KDA requires a configured mHC highway"),
        (KdaError::NotSsmState, "GLM KDA requires SsmLayerState"),
        (KdaError::TooFewStates, "GLM KDA state count is too small"),
    ];
    for (error, text) in texts {
        assert_eq!(error.message(), text);
    }
}

#[test]
fn query_key_value_and_gate_are_consecutive() {
    let config = glm_config();
    let ctx = context(&config);
    let layer = layer_at(&config, 1);
    let mut gpu = CommandBuffer::new(4, 0);
    assert!(Glm5KdaLayer::attention_in_range(&ctx));
    let output = layer.attention_forward(&mut gpu, ptr(77), &state(), &ctx, 9);
    assert_eq!(output, ctx.buffers.attn_output);

    let commands = gpu.commands();
    assert_eq!(commands.len(), 12);
    let width = 64 * 128u32;
    let base = 0x1000_0000u64;
    assert_eq!(gemv(&commands[0]), (ptr(77), dense(1), ptr(base), width, 4096));
    assert_eq!(gemv(&commands[1]), (ptr(77), dense(2), ptr(base + 16384), width, 4096));
    assert_eq!(gemv(&commands[2]), (ptr(77), dense(3), ptr(base + 32768), width, 4096));
    assert_eq!(gemv(&commands[3]), (ptr(77), dense(7), ptr(0x2000_0000), 128, 4096));
    assert_eq!(gemv(&commands[4]), (ptr(0x2000_0000), dense(8), ptr(base + 49152), width, 128));
    assert_eq!(gemv(&commands[5]), (ptr(77), dense(11), ptr(0x2000_0000), 64, 4096));
    assert_eq!(
        commands[6],
        CommandOf::Call(DeviceCall::Conv1dUpdate {
            kernel: layer.conv1d_k,
            state: ptr(0xe000_0000),
            input: ptr(base),
            weight: dense(51),
            output: ptr(0x3000_0000),
            channels: 3 * width,
            kernel_size: 4,
            rows: 1,
            stream: 9,
        })
    );
    match &commands[7] {
        CommandOf::Launch(launch) => {
            assert_eq!(launch.kernel, layer.kda_recurrent_k);
            assert_eq!(launch.args[0], KernelArg::Ptr(ptr(0xd000_0000)));
            assert_eq!(launch.args[2], KernelArg::Ptr(ptr(base + 49152)));
            assert_eq!(launch.args[10], KernelArg::U32(1));
        }
        other => panic!("not a launch: {other:?}"),
    }
    assert_eq!(gemv(&commands[8]), (ptr(77), dense(9), ptr(0x2000_0000), 128, 4096));
    assert_eq!(gemv(&commands[9]), (ptr(0x2000_0000), dense(10), ptr(base + 49152), width, 128));
    assert_eq!(
        gemv(&commands[11]),
        (ptr(0x3000_0000), dense(15), ptr(0x5000_0000), 4096, width)
    );
}

fn row_commands(layer_idx: usize) -> usize {
    let config = glm_config();
    let ctx = context(&config);
    let layer = layer_at(&config, layer_idx);
    let mut gpu = CommandBuffer::new(4, 0);
    assert!(layer.row_in_range(&ctx, 0));
    layer.forward_one_hc(&mut gpu, ptr(77), &state(), &ctx, 9);
    gpu.commands().len()
}

#[test]
fn first_layer_expands_and_last_layer_averages() {
    assert_eq!(row_commands(0), 20);
    assert_eq!(row_commands(1), 19);
    assert_eq!(row_commands(2), 19);
    assert_eq!(row_commands(3), 20);
}

#[test]
fn feed_forward_output_is_named_by_its_command() {
    let config = glm_config();
    let ctx = context(&config);
    let layer = layer_at(&config, 1);
    let mut gpu = CommandBuffer::new(4, 0);
    layer.forward_one_hc(&mut gpu, ptr(77), &state(), &ctx, 9);
    let commands = gpu.commands();
    assert_eq!(
        commands[17],
        CommandOf::Call(DeviceCall::FfnForward {
            ffn: FfnComponent::Moe(ptr(53)),
            input: ptr(0x6000_0000),
            pass: PassContext {
                buffers: buffers(),
                attn_metadata: None,
                profile: false,
                graph_capture: false,
                gemv_sw: false,
            },
            stream: 9,
        })
    );
    match &commands[18] {
        CommandOf::Launch(launch) => {
            assert_eq!(launch.kernel, layer.hc_post_k);
            let produced = Origin::Result { buffer: 4, command: 17, part: 0 };
            assert_eq!(launch.args[0], KernelArg::Ptr(DevicePtr { origin: produced, bytes: 0 }));
        }
        other => panic!("not a launch: {other:?}"),
    }
}

#[test]
fn one_token_prompt_and_batch_of_one_are_a_decode() {
    let config = glm_config();
    let ctx = context(&config);
    let layer = layer_at(&config, 0);

    let mut decoded = CommandBuffer::new(4, 0);
    assert_eq!(layer.decode(&mut decoded, ptr(77), &LayerState::Ssm(state()), &ctx, 9), Ok(()));
    let mut prefilled = CommandBuffer::new(4, 0);
    assert_eq!(
        layer.prefill(&mut prefilled, ptr(77), 1, &LayerState::Ssm(state()), &ctx, 9),
        Ok(())
    );
    let mut batched = CommandBuffer::new(4, 0);
    assert_eq!(
        layer.decode_multi_seq(
            &mut batched,
            ptr(77),
            1,
            &vec![LayerState::Ssm(state())],
            &ctx,
            9
        ),
        Ok(())
    );
    assert_eq!(decoded.commands(), prefilled.commands());
    assert_eq!(decoded.commands(), batched.commands());
}

#[test]
fn rows_of_a_batch_are_adjacent() {
    let config = glm_config();
    let ctx = context(&config);
    let layer = layer_at(&config, 0);
    let mut gpu = CommandBuffer::new(4, 0);
    assert!(layer.batch_in_range(ptr(77), &ctx, 2));
    assert_eq!(layer.prefill(&mut gpu, ptr(77), 2, &LayerState::Ssm(state()), &ctx, 9), Ok(()));
    let commands = gpu.commands();
    assert_eq!(commands.len(), 40);
    for (position, row) in [(0usize, 0u64), (20, 1)] {
        match &commands[position] {
            CommandOf::Launch(launch) => {
                assert_eq!(launch.kernel, layer.hc_expand_k);
                assert_eq!(launch.args[0], KernelArg::Ptr(ptr(77 + row * 8192)));
                assert_eq!(launch.args[1], KernelArg::Ptr(ptr(0xa000_0000 + row * 4 * 4096 * 2)));
            }
            other => panic!("not a launch: {other:?}"),
        }
    }
}

#[test]
fn state_of_another_layer_is_refused() {
    let config = glm_config();
    let ctx = context(&config);
    let layer = layer_at(&config, 0);
    let mut gpu = CommandBuffer::new(4, 0);
    assert_eq!(
        layer.decode(&mut gpu, ptr(77), &LayerState::Other, &ctx, 9),
        Err(KdaError::NotSsmState)
    );
    assert_eq!(
        layer.prefill(&mut gpu, ptr(77), 3, &LayerState::Other, &ctx, 9),
        Err(KdaError::NotSsmState)
    );
    assert!(gpu.commands().is_empty());

    let states = vec![LayerState::Ssm(state()), LayerState::Other];
    assert!(layer.states_in_range(ptr(77), &states, &ctx, 2));
    assert_eq!(
        layer.decode_multi_seq(&mut gpu, ptr(77), 2, &states, &ctx, 9),
        Err(KdaError::NotSsmState)
    );
    assert_eq!(gpu.commands().len(), 20);
}

#[test]
fn sequences_of_a_batch_keep_their_own_states() {
    let config = glm_config();
    let ctx = context(&config);
    let layer = layer_at(&config, 1);
    let mut second = state();
    second.h_state = ptr(0xd100_0000);
    second.conv_state = ptr(0xe100_0000);
    let states = vec![LayerState::Ssm(state()), LayerState::Ssm(second)];
    let mut gpu = CommandBuffer::new(4, 0);
    assert_eq!(layer.decode_multi_seq(&mut gpu, ptr(77), 2, &states, &ctx, 9), Ok(()));
    let convolved: Vec<DevicePtr> = gpu
        .commands()
        .iter()
        .filter_map(|command| match command {
            CommandOf::Call(DeviceCall::Conv1dUpdate { state, .. }) => Some(*state),
            _ => None,
        })
        .collect();
    assert_eq!(convolved, vec![ptr(0xe000_0000), ptr(0xe100_0000)]);
    assert_eq!(gpu.commands().len(), 38);
}

#[test]
fn every_sequence_needs_a_state() {
    let config = glm_config();
    let ctx = context(&config);
    let layer = layer_at(&config, 0);
    let mut gpu = CommandBuffer::new(4, 0);
    assert_eq!(
        layer.decode_multi_seq(&mut gpu, ptr(77), 1, &vec![], &ctx, 9),
        Err(KdaError::TooFewStates)
    );
    assert_eq!(layer.decode_multi_seq(&mut gpu, ptr(77), 0, &vec![], &ctx, 9), Ok(()));
    assert!(gpu.commands().is_empty());
}

#[test]
fn fresh_state_is_zeroed() {
    let config = glm_config();
    let layer = layer_at(&config, 0);
    let mut gpu = CommandBuffer::new(4, 0);
    let state = layer.alloc_state(&mut gpu);
    let produced = |command: usize| DevicePtr {
        origin: Origin::Result { buffer: 4, command, part: 0 },
        bytes: 0,
    };
    assert_eq!(
        gpu.commands(),
        &vec![
            CommandOf::Call(DeviceCall::Alloc { bytes: 1024 }),
            CommandOf::Call(DeviceCall::Memset { dst: produced(0), value: 0, bytes: 1024 }),
            CommandOf::Call(DeviceCall::Alloc { bytes: 512 }),
            CommandOf::Call(DeviceCall::Memset { dst: produced(2), value: 0, bytes: 512 }),
        ]
    );
    assert_eq!(state.h_state, produced(0));
    assert_eq!(state.conv_state, produced(2));
    assert_eq!(state.h_state_checkpoint, None);
    assert!(!state.h_is_f16);
}

#[test]
fn sizes_out_of_range_are_noticed() {
    let mut config = glm_config();
    config.linear_num_key_heads = 1 << 20;
    config.linear_key_head_dim = 1 << 12;
    assert!(!Glm5KdaLayer::attention_in_range(&context(&config)));

    let config = glm_config();
    let mut ctx = context(&config);
    ctx.buffers.hc_post = ptr(u64::MAX);
    let layer = layer_at(&config, 0);
    assert!(layer.row_in_range(&ctx, 0));
    assert!(!layer.row_in_range(&ctx, 1));
    assert!(layer.batch_in_range(ptr(77), &ctx, 1));
    assert!(!layer.batch_in_range(ptr(77), &ctx, 2));
    let states = vec![LayerState::Ssm(state()), LayerState::Ssm(state())];
    assert!(!layer.states_in_range(ptr(77), &states, &ctx, 2));
}
