use glm5_next::config::{LayerType, ModelConfig};
use glm5_next::device::{
    AttnMetadata, BufferArena, Command, CommandBuffer, CommandOf, DenseWeight, DeviceCall,
    DevicePtr, Float32, KernelArg, KernelHandle, Origin, QuantizedWeight,
};
use glm5_next::json::JsonNumber;
use glm5_next::layers::index_selection::{select, IndexSelection, SelectionError};
use glm5_next::layers::mla_decode::{
    DecodeMlaArgs, KvLayerPools, PagedKvCache, Qwen3AttentionLayer,
};
use glm5_next::layers::mla_index::DecodeError;
use glm5_next::layers::{ForwardContext, MlaWeights};
use glm5_next::ops::OpsError;
use glm5_next::weight_map::Glm5IndexerWeights;

fn glm_config() -> ModelConfig {
    ModelConfig {
        model_type: "glm5_next".to_owned(),
        weight_prefix: "model.language_model".to_owned(),
        nested_config: true,
        attn_gated: false,
        eos_token_id: 154820,
        eos_token_ids: vec![154820, 154827, 154829],
        hidden_size: 4096,
        num_hidden_layers: 4,
        intermediate_size: 12288,
        vocab_size: 154880,
        num_attention_heads: 64,
        num_key_value_heads: 64,
        head_dim: 256,
        qk_nope_head_dim: 256,
        qk_rope_head_dim: 0,
        v_head_dim: 256,
        q_lora_rank: 1536,
        kv_lora_rank: 512,
        num_experts: 2,
        num_experts_per_tok: 1,
        moe_intermediate_size: 2048,
        shared_expert_intermediate_size: 2048,
        routed_scaling_factor: JsonNumber::Float(2.5f64.to_bits()),
        norm_topk_prob: true,
        scoring_func: "sigmoid".to_owned(),
        use_routing_bias: true,
        layer_types: vec![
            LayerType::LinearAttention,
            LayerType::FullAttention,
            LayerType::LinearAttention,
            LayerType::FullAttention,
        ],
        mlp_only_layers: vec![0],
        linear_num_key_heads: 64,
        linear_num_value_heads: 64,
        linear_key_head_dim: 128,
        linear_value_head_dim: 128,
        linear_conv_kernel_dim: 4,
        linear_gate_lower_bound: Some(Float32::Rounded(JsonNumber::Float((-5.0f64).to_bits()))),
        hc_mult: 4,
        hc_sinkhorn_iters: 20,
        hc_eps: Float32::Rounded(JsonNumber::Float(1.0e-6f64.to_bits())),
        index_n_heads: 32,
        index_head_dim: 128,
        index_topk: 2048,
        index_kpool: 4,
        index_kpool_compress: true,
        index_kpool_always_select_tail: true,
        indexer_types: vec![
            "full".to_owned(),
            "full".to_owned(),
            "full".to_owned(),
            "full".to_owned(),
        ],
        mtp_num_hidden_layers: 1,
        num_mtp_modules: 1,
        mtp_transformer_layers: 1,
        vision: None,
        quantization_config: None,
        rms_norm_eps: JsonNumber::Float(1.0e-5f64.to_bits()),
        rope_theta: JsonNumber::PosInt(1000000),
    }
}

fn ptr(bytes: u64) -> DevicePtr {
    DevicePtr { origin: Origin::Absolute, bytes }
}

fn dense(bytes: u64) -> DenseWeight {
    DenseWeight { weight: ptr(bytes) }
}

fn buffers() -> BufferArena {
    BufferArena {
        ssm_qkvz: ptr(0x1000_0000),
        ssm_ba: ptr(0x2000_0000),
        ssm_deinterleaved: ptr(0x3000_0000),
        ssm_conv_out_f32: ptr(0x4000_0000),
        attn_output: ptr(0x5000_0000),
        norm_output: ptr(0x6000_0000),
        qkv_output: ptr(0x7000_0000),
        expert_up_out: ptr(0x8000_0000),
        expert_gate_out: ptr(0x9000_0000),
        hc_streams: ptr(0xa000_0000),
        hc_post: ptr(0xb000_0000),
        hc_comb: ptr(0xc000_0000),
    }
}

fn context(config: &ModelConfig) -> ForwardContext<'_> {
    ForwardContext {
        config,
        buffers: buffers(),
        attn_metadata: Some(AttnMetadata {
            positions: ptr(301),
            slot: ptr(302),
            block_table: ptr(303),
            seq_len: ptr(304),
            max_blocks_per_seq: 8,
        }),
        profile: false,
        graph_capture: true,
        gemv_sw: true,
    }
}

fn indexer() -> Glm5IndexerWeights {
    Glm5IndexerWeights {
        wq_b: dense(21),
        wk: dense(22),
        weights_proj: dense(23),
        k_norm_weight: dense(24),
        k_norm_bias: dense(25),
        kpool_compress_ape: dense(26),
        kpool_compress_gate: dense(27),
    }
}

fn mla() -> MlaWeights {
    MlaWeights {
        glm_indexer: Some(indexer()),
        wq_a: dense(1),
        wq_a_nvfp4: None,
        wq_a_fp8: None,
        wq_b: dense(2),
        wq_b_nvfp4: None,
        wq_b_fp8: None,
        q_a_norm: dense(3),
        wkv_a: dense(4),
        wkv_a_nvfp4: None,
        wkv_a_fp8: None,
        wkv_b: dense(5),
        kv_a_norm: dense(6),
        wkv_a_rope: dense(7),
        wkv_a_merged: dense(0),
        wo: dense(8),
        wo_nvfp4: None,
        wo_a: dense(0),
        wo_a_nvfp4: None,
        wo_a_fp8: None,
        wo_b: dense(0),
        wo_b_nvfp4: None,
        wo_b_fp8: None,
        w_uk_t: dense(0x1_0000),
        w_uv: dense(0x2_0000),
        wq_b_rope: dense(0),
        w_qk_absorbed: dense(0),
        w_uk_block_diag: dense(0),
        w_uv_block_diag: dense(0),
        yarn_inv_freq: ptr(0),
        main_inv_freq: ptr(0),
        q_lora_rank: 1536,
        kv_lora_rank: 512,
        o_lora_rank: 0,
        nope: 256,
        rope: 0,
        v_dim: 256,
        compressor: None,
        attn_sink: ptr(0),
    }
}

fn layer() -> Qwen3AttentionLayer {
    let kernel = |handle: u64| KernelHandle::Raw(handle);
    Qwen3AttentionLayer {
        mla: Some(mla()),
        attn_layer_idx: 5,
        dense_gemv_k: kernel(11),
        rms_norm_w_k: kernel(12),
        mla_batched_gemv_k: kernel(13),
        mla_q_rope_scatter_k: kernel(14),
        mla_q_rope_writeback_k: kernel(15),
        mla_cache_assemble_k: kernel(16),
        rope_yarn_k: kernel(17),
        paged_decode_mla_k: kernel(18),
        glm_index_norm_k: kernel(19),
        glm_index_write_k: kernel(20),
        glm_index_select_k: kernel(21),
        glm_index_expand_k: kernel(22),
        glm_selected_mla_k: kernel(23),
    }
}

fn pools() -> KvLayerPools {
    KvLayerPools {
        k_pool: ptr(401),
        v_pool: ptr(402),
        index_raw_pool: Some(ptr(403)),
        index_raw_block_stride: Some(8192),
    }
}

/// A cache in which layer 5 has `own` and no other layer does.
fn cache(own: &KvLayerPools) -> PagedKvCache {
    let other = |layer: u64| KvLayerPools {
        k_pool: ptr(800 + 2 * layer),
        v_pool: ptr(801 + 2 * layer),
        index_raw_pool: Some(ptr(900 + layer)),
        index_raw_block_stride: Some(4096),
    };
    PagedKvCache { layers: vec![other(0), other(1), other(2), other(3), other(4), *own, other(6)] }
}

fn args(pos: Option<u32>) -> DecodeMlaArgs {
    DecodeMlaArgs {
        normed: ptr(501),
        q_out: ptr(502),
        k_out: ptr(503),
        v_out: ptr(504),
        q_dim: 64 * 256,
        h: 4096,
        nq: 64,
        hd: 256,
        eps: Float32::Bits(1.0e-5f32.to_bits()),
        bs: 16,
        stream: 9,
        pos,
        inv_sqrt_d: Float32::Bits(0.0625f32.to_bits()),
    }
}

fn run(
    layer: &Qwen3AttentionLayer,
    ctx: &ForwardContext,
    kv: &KvLayerPools,
    args: &DecodeMlaArgs,
    sparse: bool,
) -> (Result<DevicePtr, DecodeError>, Vec<Command>) {
    let mut gpu = CommandBuffer::new(6, 0);
    let kv_cache = cache(kv);
    assert!(layer.decode_in_range(&kv_cache, ctx, args, sparse));
    let result = layer.attention_forward_mla(&mut gpu, &kv_cache, ctx, args, sparse);
    let mut commands = Vec::new();
    let recorded = gpu.commands();
    for command in recorded {
        commands.push(match command {
            CommandOf::Call(call) => CommandOf::Call(*call),
            CommandOf::Launch(launch) => CommandOf::Launch(glm5_next::device::LaunchOf {
                kernel: launch.kernel,
                grid: launch.grid,
                block: launch.block,
                shared_mem: launch.shared_mem,
                args: launch.args.clone(),
                stream: launch.stream,
            }),
            other => panic!("unexpected command: {other:?}"),
        });
    }
    (result, commands)
}

fn kernel_of(command: &Command) -> u64 {
    match command {
        CommandOf::Launch(launch) => match launch.kernel {
            KernelHandle::Raw(handle) => handle,
            KernelHandle::Result { .. } => 0,
        },
        _ => 0,
    }
}

#[test]
fn dense_decode_records_the_absorbed_chain() {
    let config = glm_config();
    let ctx = context(&config);
    let (result, commands) = run(&layer(), &ctx, &pools(), &args(Some(99)), false);
    assert_eq!(result, Ok(ctx.buffers.qkv_output));
    assert_eq!(commands.len(), 12);
    assert_eq!(
        commands[0],
        CommandOf::Call(DeviceCall::DenseGemv {
            kernel: KernelHandle::Raw(11),
            input: ptr(501),
            weight: dense(1),
            output: ptr(0x2000_0000),
            n: 1536,
            k: 4096,
            stream: 9,
        })
    );
    assert_eq!(
        commands[3],
        CommandOf::Call(DeviceCall::MlaBatchedGemv {
            kernel: KernelHandle::Raw(13),
            input: ptr(0x3000_0000),
            weight: ptr(0x1_0000),
            output: ptr(0x8000_0000),
            n: 512,
            k: 256,
            heads: 64,
            input_stride: 256,
            output_stride: 512,
            stream: 9,
        })
    );
    assert_eq!(
        commands[8],
        CommandOf::Call(DeviceCall::WriteKvCache {
            layer: 5,
            k_pool: ptr(401),
            v_pool: ptr(402),
            k_entry: ptr(503),
            v_entry: ptr(504),
            slot: ptr(302),
            rows: 1,
            kv_heads: 1,
            head_dim: 512,
            block_size: 16,
            k_stride: 512,
            v_stride: 512,
            stream: 9,
            graph_capture: true,
        })
    );
    assert_eq!(
        commands[9],
        CommandOf::Call(DeviceCall::PagedDecodeAttention {
            kernel: KernelHandle::Raw(18),
            q: ptr(0x8000_0000),
            k_pool: ptr(401),
            v_pool: ptr(402),
            output: ptr(0x5000_0000),
            block_table: ptr(303),
            seq_len: ptr(304),
            max_blocks_per_seq: 8,
            rows: 1,
            q_heads: 64,
            kv_heads: 1,
            head_dim: 512,
            block_size: 16,
            scale: Float32::Bits(0.0625f32.to_bits()),
            q_stride: 64 * 512,
            window: 0,
            stream: 9,
        })
    );
    assert_eq!(
        commands[11],
        CommandOf::Call(DeviceCall::DenseGemv {
            kernel: KernelHandle::Raw(11),
            input: ptr(0x6000_0000),
            weight: dense(8),
            output: ptr(0x7000_0000),
            n: 4096,
            k: 64 * 256,
            stream: 9,
        })
    );
}

#[test]
fn dense_decode_leaves_the_index_pool_alone() {
    let config = glm_config();
    let ctx = context(&config);
    let (_, with_index) = run(&layer(), &ctx, &pools(), &args(Some(99)), false);
    let mut bare = layer();
    bare.mla = Some(MlaWeights { glm_indexer: None, ..mla() });
    let empty = KvLayerPools { index_raw_pool: None, index_raw_block_stride: None, ..pools() };
    let (_, without) = run(&bare, &ctx, &empty, &args(None), false);
    assert_eq!(with_index, without);
    let (_, asked) = run(&bare, &ctx, &empty, &args(None), true);
    assert_eq!(asked, without);
}

#[test]
fn query_buffer_is_free_after_absorption() {
    let config = glm_config();
    let ctx = context(&config);
    let mut moved = context(&config);
    moved.buffers.ssm_deinterleaved = ptr(0x3333_0000);
    let (_, here) = run(&layer(), &ctx, &pools(), &args(Some(99)), false);
    let (_, there) = run(&layer(), &moved, &pools(), &args(Some(99)), false);
    // The query is expanded, absorbed and scattered; the rest is the same.
    assert_ne!(here[2], there[2]);
    assert_ne!(here[3], there[3]);
    assert_ne!(here[4], there[4]);
    assert_eq!(here[5..], there[5..]);
}

#[test]
fn sparse_decode_selects_expands_and_attends() {
    let config = glm_config();
    let ctx = context(&config);
    let (result, commands) = run(&layer(), &ctx, &pools(), &args(Some(9)), true);
    assert_eq!(result, Ok(ctx.buffers.qkv_output));
    let launches: Vec<u64> =
        commands.iter().map(kernel_of).filter(|kernel| *kernel != 0).collect();
    assert_eq!(launches, vec![19, 20, 21, 22, 23]);
    for command in &commands {
        if kernel_of(command) == 23 {
            match command {
                CommandOf::Launch(launch) => assert_eq!(launch.args[6], KernelArg::U32(10)),
                other => panic!("not a launch: {other:?}"),
            }
        }
    }
}

#[test]
fn sparse_decode_without_complete_pools_reads_the_tail() {
    let config = glm_config();
    let ctx = context(&config);
    let (result, commands) = run(&layer(), &ctx, &pools(), &args(Some(1)), true);
    assert!(result.is_ok());
    let launches: Vec<u64> =
        commands.iter().map(kernel_of).filter(|kernel| *kernel != 0).collect();
    assert_eq!(launches, vec![19, 20, 22, 23]);
}

#[test]
fn sparse_decode_needs_its_sidecar() {
    let config = glm_config();
    let ctx = context(&config);
    let no_pool = KvLayerPools { index_raw_pool: None, ..pools() };
    let (result, _) = run(&layer(), &ctx, &no_pool, &args(Some(9)), true);
    assert_eq!(result, Err(DecodeError::SidecarMissing { layer: 5 }));
    let no_stride = KvLayerPools { index_raw_block_stride: None, ..pools() };
    let (result, _) = run(&layer(), &ctx, &no_stride, &args(Some(9)), true);
    assert_eq!(result, Err(DecodeError::RawStrideMissing { layer: 5 }));
    let wide = KvLayerPools { index_raw_block_stride: Some(1 << 33), ..pools() };
    let (result, _) = run(&layer(), &ctx, &wide, &args(Some(9)), true);
    assert_eq!(result, Err(DecodeError::RawStrideTooLarge));
    let (result, _) = run(&layer(), &ctx, &pools(), &args(None), true);
    assert_eq!(result, Err(DecodeError::Selection(SelectionError::PositionMissing)));
}

#[test]
fn sparse_decode_passes_kernel_refusals_on() {
    let mut config = glm_config();
    config.index_head_dim = 2048;
    let ctx = context(&config);
    let (result, _) = run(&layer(), &ctx, &pools(), &args(Some(9)), true);
    assert_eq!(result, Err(DecodeError::Ops(OpsError::LayerNormDim)));

    let config = glm_config();
    let ctx = context(&config);
    let mut wide = layer();
    wide.mla = Some(MlaWeights { kv_lora_rank: 513, ..mla() });
    let (result, _) = run(&wide, &ctx, &pools(), &args(Some(9)), true);
    assert_eq!(result, Err(DecodeError::Ops(OpsError::SelectedMlaRank)));
}

#[test]
fn decode_errors_say_why() {
    assert_eq!(
        DecodeError::SidecarMissing { layer: 5 }.message(),
        "GLM IndexPool sidecar missing for attention layer 5"
    );
    assert_eq!(
        DecodeError::RawStrideMissing { layer: 12 }.message(),
        "GLM IndexPool raw stride missing for attention layer 12"
    );
    assert_eq!(DecodeError::RawStrideTooLarge.message(), "GLM IndexPool raw stride exceeds u32");
    assert_eq!(
        DecodeError::Selection(SelectionError::PositionMissing).message(),
        "GLM IndexPool requires a single-sequence decode position"
    );
    assert_eq!(SelectionError::KpoolTooLarge.message(), "GLM IndexPool kpool exceeds u32");
    assert_eq!(SelectionError::TopkTooLarge.message(), "GLM IndexPool top-k exceeds u32");
}

#[test]
fn fallbacks_work_head_by_head() {
    let config = glm_config();
    let ctx = context(&config);
    let absent = KernelHandle::Raw(0);
    let mut plain = layer();
    plain.mla = Some(MlaWeights { rope: 64, nope: 192, ..mla() });
    plain.mla_batched_gemv_k = absent;
    plain.mla_q_rope_scatter_k = absent;
    plain.mla_q_rope_writeback_k = absent;
    plain.mla_cache_assemble_k = absent;
    let mut two = args(Some(9));
    two.nq = 2;
    let (result, commands) = run(&plain, &ctx, &pools(), &two, false);
    assert!(result.is_ok());
    // Query, absorption, scatter, latent, rotation, cache entry, attention,
    // extraction and output.
    assert_eq!(commands.len(), 3 + 2 + 4 + 2 + 4 + 5 + 1 + 2 + 1);
    assert_eq!(
        commands[4],
        CommandOf::Call(DeviceCall::DenseGemv {
            kernel: KernelHandle::Raw(11),
            input: ptr(0x3000_0000 + 512),
            weight: dense(0x1_0000 + 192 * 512 * 2),
            output: ptr(0x8000_0000 + 576 * 2),
            n: 512,
            k: 192,
            stream: 9,
        })
    );
    assert_eq!(
        commands[8],
        CommandOf::Call(DeviceCall::CopyD2dAsync {
            src: ptr(0x3000_0000 + (256 + 192) * 2),
            dst: ptr(0x8000_0000 + (576 + 512) * 2),
            bytes: 128,
            stream: 9,
        })
    );
}

#[test]
fn quantised_projections_are_preferred() {
    let config = glm_config();
    let ctx = context(&config);
    let mut quantised = layer();
    let weight = QuantizedWeight { weight: ptr(600) };
    quantised.mla = Some(MlaWeights { wq_a_nvfp4: Some(weight), ..mla() });
    let (_, commands) = run(&quantised, &ctx, &pools(), &args(Some(9)), false);
    assert_eq!(
        commands[0],
        CommandOf::Call(DeviceCall::Nvfp4Gemv {
            layer: 5,
            gemv_sw: true,
            input: ptr(501),
            weight,
            output: ptr(0x2000_0000),
            n: 1536,
            k: 4096,
            stream: 9,
        })
    );
}

#[test]
fn profiling_times_every_section() {
    let config = glm_config();
    let mut ctx = context(&config);
    ctx.profile = true;
    let (_, commands) = run(&layer(), &ctx, &pools(), &args(Some(99)), false);
    let labels: Vec<(&str, bool)> = commands
        .iter()
        .filter_map(|command| match command {
            CommandOf::Call(DeviceCall::ProfileEnd { label, after_failure, .. }) => {
                Some((*label, *after_failure))
            }
            _ => None,
        })
        .collect();
    assert_eq!(
        labels,
        vec![
            ("wq_a", true),
            ("q_norm", true),
            ("wq_b", true),
            ("q_absorb", true),
            ("q_rope_scatter", true),
            ("wkv_a+norm", true),
            ("k_rope+RoPE+wb", false),
            ("cache_asm+write", true),
            ("paged_attn", true),
            ("v_extract", true),
            ("wo", true),
        ]
    );
    assert_eq!(commands.len(), 12 + 2 * 11);
}

#[test]
fn decode_out_of_range_is_noticed() {
    let config = glm_config();
    let ctx = context(&config);
    let mut headless = layer();
    headless.mla = None;
    assert!(!headless.decode_in_range(&cache(&pools()), &ctx, &args(Some(9)), false));
    let mut bare = context(&config);
    bare.attn_metadata = None;
    assert!(!layer().decode_in_range(&cache(&pools()), &bare, &args(Some(9)), false));
    let mut config = glm_config();
    config.index_kpool = 0;
    let ctx = context(&config);
    assert!(!layer().decode_in_range(&cache(&pools()), &ctx, &args(Some(9)), true));
    assert!(layer().decode_in_range(&cache(&pools()), &ctx, &args(None), true));
    assert!(layer().decode_in_range(&cache(&pools()), &ctx, &args(Some(9)), false));
    let mut many = args(Some(9));
    many.nq = u32::MAX;
    assert!(!layer().decode_in_range(&cache(&pools()), &ctx, &many, false));
    let mut short = cache(&pools());
    short.layers.truncate(5);
    assert!(!layer().decode_in_range(&short, &ctx, &args(Some(9)), false));
}

fn is_mark(command: &Command) -> bool {
    matches!(
        command,
        CommandOf::Call(DeviceCall::ProfileStart | DeviceCall::ProfileEnd { .. })
    )
}

#[test]
fn profiling_only_adds_marks() {
    let config = glm_config();
    let quiet = context(&config);
    let mut profiled = context(&config);
    profiled.profile = true;
    let wide = KvLayerPools { index_raw_block_stride: Some(1 << 33), ..pools() };
    for (kv, pos, sparse) in [
        (pools(), Some(99), false),
        (pools(), Some(9999), true),
        (pools(), Some(2), true),
        (pools(), None, true),
        (wide, Some(9), true),
    ] {
        let (result, commands) = run(&layer(), &quiet, &kv, &args(pos), sparse);
        let (watched, marked) = run(&layer(), &profiled, &kv, &args(pos), sparse);
        assert_eq!(watched, result);
        assert!(commands.iter().all(|command| !is_mark(command)));
        assert!(marked.len() > commands.len());
        let unmarked: Vec<Command> =
            marked.into_iter().filter(|command| !is_mark(command)).collect();
        assert_eq!(unmarked, commands);
    }
}

type PoolUse = (usize, KernelArg, KernelArg);

/// The pools of every cache write and of every attention, with their places.
fn pools_used(commands: &[Command]) -> (Vec<PoolUse>, Vec<PoolUse>) {
    let mut written = Vec::new();
    let mut read = Vec::new();
    for (place, command) in commands.iter().enumerate() {
        match command {
            CommandOf::Call(DeviceCall::WriteKvCache { k_pool, v_pool, .. }) => {
                written.push((place, KernelArg::Ptr(*k_pool), KernelArg::Ptr(*v_pool)));
            }
            CommandOf::Call(DeviceCall::PagedDecodeAttention { k_pool, v_pool, .. }) => {
                read.push((place, KernelArg::Ptr(*k_pool), KernelArg::Ptr(*v_pool)));
            }
            CommandOf::Launch(launch) if launch.kernel == KernelHandle::Raw(23) => {
                read.push((place, launch.args[1], launch.args[2]));
            }
            _ => {}
        }
    }
    (written, read)
}

#[test]
fn attention_reads_the_pools_that_were_written() {
    let config = glm_config();
    let ctx = context(&config);
    for sparse in [false, true] {
        let (result, commands) = run(&layer(), &ctx, &pools(), &args(Some(9)), sparse);
        assert!(result.is_ok());
        let (written, read) = pools_used(&commands);
        assert_eq!(written.len(), 1);
        assert_eq!(read.len(), 1);
        assert!(written[0].0 < read[0].0);
        assert_eq!((written[0].1, written[0].2), (read[0].1, read[0].2));
        assert_eq!(written[0].1, KernelArg::Ptr(ptr(401)));
        assert_eq!(written[0].2, KernelArg::Ptr(ptr(402)));
    }
}

#[test]
fn each_layer_uses_its_own_pools() {
    let config = glm_config();
    let ctx = context(&config);
    let mut neighbour = layer();
    neighbour.attn_layer_idx = 6;
    let (_, commands) = run(&neighbour, &ctx, &pools(), &args(Some(9)), true);
    let (written, read) = pools_used(&commands);
    assert_eq!(written[0].1, KernelArg::Ptr(ptr(812)));
    assert_eq!(read[0].2, KernelArg::Ptr(ptr(813)));
}

#[test]
fn indexer_searches_the_pool_it_fills() {
    let config = glm_config();
    let ctx = context(&config);
    let (_, commands) = run(&layer(), &ctx, &pools(), &args(Some(9)), true);
    let launches: Vec<(KernelHandle, Vec<KernelArg>)> = commands
        .iter()
        .filter_map(|command| match command {
            CommandOf::Launch(launch) => Some((launch.kernel, launch.args.clone())),
            _ => None,
        })
        .collect();
    let filed = launches.iter().position(|(kernel, _)| *kernel == KernelHandle::Raw(20)).unwrap();
    let searched =
        launches.iter().position(|(kernel, _)| *kernel == KernelHandle::Raw(21)).unwrap();
    assert!(filed < searched);
    assert_eq!(launches[filed].1[3], KernelArg::Ptr(ptr(403)));
    assert_eq!(launches[searched].1[1], KernelArg::Ptr(ptr(403)));
}

#[test]
fn selection_keeps_pools_and_tail() {
    let config = glm_config();
    assert_eq!(
        select(&config, Some(9)),
        Ok(IndexSelection { seq_len: 10, kpool: 4, candidates: 2, select_count: 2, tail_count: 2 })
    );
    assert_eq!(
        select(&config, Some(9999)),
        Ok(IndexSelection {
            seq_len: 10000,
            kpool: 4,
            candidates: 2500,
            select_count: 512,
            tail_count: 0
        })
    );
    assert_eq!(
        select(&config, Some(u32::MAX)).map(|chosen| chosen.seq_len),
        Ok(u32::MAX)
    );
    assert_eq!(select(&config, None), Err(SelectionError::PositionMissing));

    let mut config = glm_config();
    config.index_kpool_always_select_tail = false;
    assert_eq!(select(&config, Some(9)).map(|chosen| chosen.tail_count), Ok(0));
    config.index_kpool = 1 << 33;
    assert_eq!(select(&config, Some(9)), Err(SelectionError::KpoolTooLarge));
    config.index_kpool = 1;
    config.index_topk = 1 << 33;
    assert_eq!(select(&config, Some(9)), Err(SelectionError::TopkTooLarge));
}

#[test]
fn selection_never_exceeds_the_sequence() {
    let config = glm_config();
    for pos in 0..3000u32 {
        let chosen = select(&config, Some(pos)).unwrap();
        let tokens = chosen.select_count * chosen.kpool + chosen.tail_count;
        assert!(tokens <= chosen.seq_len);
        assert!((chosen.select_count * chosen.kpool) as usize <= config.index_topk);
        if chosen.seq_len as usize <= config.index_topk {
            assert_eq!(tokens, chosen.seq_len);
        }
        if chosen.candidates >= 512 {
            assert_eq!(chosen.select_count * chosen.kpool, 2048);
        }
    }
}
