use glm5_next::config::{LayerType, ModelConfig};
use glm5_next::device::{
    AttentionWeights, CommandBuffer, CommandOf, DenseWeight, DeviceCall, DevicePtr, FfnComponent,
    Float32, KernelHandle, KvCacheDtype, Origin, QuantizedWeight,
};
use glm5_next::json::{Json, JsonNumber};
use glm5_next::layers::kda::KdaError;
use glm5_next::layers::mla_decode::Qwen3AttentionLayer;
use glm5_next::tensors::{TensorInfo, WeightErrorOf, WeightStore};
use glm5_next::weight_loader::attention::hc_in_range;
use glm5_next::weight_loader::{
    model_in_range, Glm5NextWeightLoader, LoadErrorOf, StateBytes, TransformerLayer,
    VISION_NOT_ATTACHED,
};
use glm5_next::weight_map::{
    index_in_range, load_glm5_dsa, load_glm5_kda, require_glm, Glm5KdaWeights,
};

fn glm_config() -> ModelConfig {
    ModelConfig {
        model_type: "glm5_next".to_owned(),
        weight_prefix: "model.language_model".to_owned(),
        nested_config: true,
        attn_gated: false,
        eos_token_id: 154820,
        eos_token_ids: vec![154820, 154827, 154829],
        hidden_size: 4096,
        num_hidden_layers: 4,
        intermediate_size: 12288,
        vocab_size: 154880,
        num_attention_heads: 64,
        num_key_value_heads: 64,
        head_dim: 256,
        qk_nope_head_dim: 256,
        qk_rope_head_dim: 0,
        v_head_dim: 256,
        q_lora_rank: 1536,
        kv_lora_rank: 512,
        num_experts: 2,
        num_experts_per_tok: 1,
        moe_intermediate_size: 2048,
        shared_expert_intermediate_size: 2048,
        routed_scaling_factor: JsonNumber::Float(2.5f64.to_bits()),
        norm_topk_prob: true,
        scoring_func: "sigmoid".to_owned(),
        use_routing_bias: true,
        layer_types: vec![
            LayerType::LinearAttention,
            LayerType::FullAttention,
            LayerType::LinearAttention,
            LayerType::FullAttention,
        ],
        mlp_only_layers: vec![0],
        linear_num_key_heads: 64,
        linear_num_value_heads: 64,
        linear_key_head_dim: 128,
        linear_value_head_dim: 128,
        linear_conv_kernel_dim: 4,
        linear_gate_lower_bound: Some(Float32::Rounded(JsonNumber::Float((-5.0f64).to_bits()))),
        hc_mult: 4,
        hc_sinkhorn_iters: 20,
        hc_eps: Float32::Rounded(JsonNumber::Float(1.0e-6f64.to_bits())),
        index_n_heads: 32,
        index_head_dim: 128,
        index_topk: 2048,
        index_kpool: 4,
        index_kpool_compress: true,
        index_kpool_always_select_tail: true,
        indexer_types: vec![
            "full".to_owned(),
            "full".to_owned(),
            "full".to_owned(),
            "full".to_owned(),
        ],
        mtp_num_hidden_layers: 1,
        num_mtp_modules: 1,
        mtp_transformer_layers: 1,
        vision: None,
        quantization_config: None,
        rms_norm_eps: JsonNumber::Float(1.0e-5f64.to_bits()),
        rope_theta: JsonNumber::PosInt(1000000),
    }
}

fn tensor(name: String, shape: &[usize]) -> TensorInfo {
    TensorInfo { name, shape: shape.to_vec() }
}

fn kda_tensors(prefix: &str) -> Vec<TensorInfo> {
    let shapes: [(&str, &[usize]); 15] = [
        ("q_proj.weight", &[8192, 4096]),
        ("k_proj.weight", &[8192, 4096]),
        ("v_proj.weight", &[8192, 4096]),
        ("q_conv1d.weight", &[8192, 1, 4]),
        ("k_conv1d.weight", &[8192, 1, 4]),
        ("v_conv1d.weight", &[8192, 1, 4]),
        ("f_a_proj.weight", &[128, 4096]),
        ("f_b_proj.weight", &[8192, 128]),
        ("g_a_proj.weight", &[128, 4096]),
        ("g_b_proj.weight", &[8192, 128]),
        ("b_proj.weight", &[64, 4096]),
        ("A_log", &[64]),
        ("dt_bias", &[8192]),
        ("o_norm.weight", &[128]),
        ("o_proj.weight", &[4096, 8192]),
    ];
    shapes
        .iter()
        .map(|(name, shape)| tensor(format!("{prefix}.self_attn.{name}"), shape))
        .collect()
}

fn dsa_tensors(prefix: &str) -> Vec<TensorInfo> {
    let shapes: [(&str, &[usize]); 14] = [
        ("q_a_proj.weight", &[1536, 4096]),
        ("q_a_layernorm.weight", &[1536]),
        ("q_b_proj.weight", &[16384, 1536]),
        ("kv_a_proj_with_mqa.weight", &[512, 4096]),
        ("kv_a_layernorm.weight", &[512]),
        ("kv_b_proj.weight", &[32768, 512]),
        ("o_proj.weight", &[4096, 16384]),
        ("indexer.wq_b.weight", &[4096, 1536]),
        ("indexer.wk.weight", &[128, 4096]),
        ("indexer.weights_proj.weight", &[32, 4096]),
        ("indexer.k_norm.weight", &[128]),
        ("indexer.k_norm.bias", &[128]),
        ("indexer.index_kpool_compress_ape.weight", &[4, 128]),
        ("indexer.index_kpool_compress_gate.weight", &[128, 4096]),
    ];
    shapes
        .iter()
        .map(|(name, shape)| tensor(format!("{prefix}.self_attn.{name}"), shape))
        .collect()
}

fn layer_name(layer: usize) -> String {
    format!("model.language_model.layers.{layer}")
}

fn model_store() -> WeightStore {
    let mut tensors = Vec::new();
    for layer in [0, 2] {
        tensors.extend(kda_tensors(&layer_name(layer)));
    }
    for layer in [1, 3] {
        tensors.extend(dsa_tensors(&layer_name(layer)));
    }
    WeightStore { tensors }
}

fn produced(command: usize, part: u8) -> DevicePtr {
    DevicePtr { origin: Origin::Result { buffer: 2, command, part }, bytes: 0 }
}

fn dense(command: usize) -> DenseWeight {
    DenseWeight { weight: produced(command, 0) }
}

fn null() -> DenseWeight {
    DenseWeight { weight: DevicePtr { origin: Origin::Absolute, bytes: 0 } }
}

const STATE: StateBytes = StateBytes { h_state: 1024, conv_state: 512 };

fn kda_weights() -> Glm5KdaWeights {
    let store = WeightStore { tensors: kda_tensors("p") };
    let mut gpu = CommandBuffer::new(2, 0);
    load_glm5_kda(&store, &"p".to_owned(), &glm_config(), &mut gpu).unwrap()
}

#[test]
fn linear_attention_weights_load_in_order() {
    let store = WeightStore { tensors: kda_tensors("p") };
    let mut gpu = CommandBuffer::new(2, 0);
    let weights = load_glm5_kda(&store, &"p".to_owned(), &glm_config(), &mut gpu).unwrap();
    assert_eq!(gpu.commands().len(), 15);
    assert_eq!(gpu.commands()[0], CommandOf::LoadDense { name: "p.self_attn.q_proj.weight".to_owned() });
    assert_eq!(gpu.commands()[11], CommandOf::LoadF32 { name: "p.self_attn.A_log".to_owned() });
    assert_eq!(gpu.commands()[12], CommandOf::LoadF32 { name: "p.self_attn.dt_bias".to_owned() });
    assert_eq!(weights.q_proj, dense(0));
    assert_eq!(weights.a_log, dense(11));
    assert_eq!(weights.o_proj, dense(14));
}

#[test]
fn sparse_attention_weights_load_in_order() {
    let store = WeightStore { tensors: dsa_tensors("p") };
    let mut gpu = CommandBuffer::new(2, 0);
    assert!(index_in_range(&glm_config()));
    let weights = load_glm5_dsa(&store, &"p".to_owned(), &glm_config(), &mut gpu).unwrap();
    assert_eq!(gpu.commands().len(), 14);
    assert_eq!(
        gpu.commands()[11],
        CommandOf::LoadDense { name: "p.self_attn.indexer.k_norm.bias".to_owned() }
    );
    assert_eq!(weights.q_a_proj, dense(0));
    assert_eq!(weights.indexer.wq_b, dense(7));
    assert_eq!(weights.indexer.kpool_compress_gate, dense(13));
}

#[test]
fn wrong_shapes_stop_the_load() {
    let mut tensors = kda_tensors("p");
    tensors[3].shape = vec![8192, 4];
    let store = WeightStore { tensors };
    let mut gpu = CommandBuffer::new(2, 0);
    let error = load_glm5_kda(&store, &"p".to_owned(), &glm_config(), &mut gpu).unwrap_err();
    assert_eq!(
        error.message(),
        "GLM KDA: p.self_attn.q_conv1d.weight shape [8192, 4], expected [8192, 1, 4]"
    );
    assert_eq!(gpu.commands().len(), 3);

    let mut tensors = dsa_tensors("p");
    tensors[7].shape = vec![];
    let store = WeightStore { tensors };
    let mut gpu = CommandBuffer::new(2, 0);
    let error = load_glm5_dsa(&store, &"p".to_owned(), &glm_config(), &mut gpu).unwrap_err();
    assert_eq!(
        error.message(),
        "GLM IndexPool: p.self_attn.indexer.wq_b.weight shape [], expected [4096, 1536]"
    );
    assert_eq!(gpu.commands().len(), 7);
}

#[test]
fn missing_tensors_stop_the_load() {
    let mut tensors = dsa_tensors("p");
    tensors.remove(2);
    let store = WeightStore { tensors };
    let mut gpu = CommandBuffer::new(2, 0);
    assert_eq!(
        load_glm5_dsa(&store, &"p".to_owned(), &glm_config(), &mut gpu),
        Err(WeightErrorOf::MissingTensor { name: "p.self_attn.q_b_proj.weight".to_owned() })
    );
    assert_eq!(gpu.commands().len(), 2);
}

#[test]
fn other_configurations_are_refused() {
    let mut config = glm_config();
    config.model_type = "qwen3_next".to_owned();
    assert_eq!(
        require_glm(&config).unwrap_err().message(),
        "GLM-5 weight contract requires model_type=glm5_next, got `qwen3_next`"
    );
    let store = WeightStore { tensors: kda_tensors("p") };
    let mut gpu = CommandBuffer::new(2, 0);
    assert!(load_glm5_kda(&store, &"p".to_owned(), &config, &mut gpu).is_err());
    assert!(load_glm5_dsa(&store, &"p".to_owned(), &config, &mut gpu).is_err());
    assert!(kda_weights().pack_conv1d(&config, &mut gpu).is_err());
    assert!(gpu.commands().is_empty());

    let mut config = glm_config();
    config.linear_num_value_heads = 32;
    assert_eq!(
        require_glm(&config).unwrap_err().message(),
        "GLM KDA requires equal key/value head counts"
    );
    let mut config = glm_config();
    config.linear_value_head_dim = 64;
    assert_eq!(
        require_glm(&config).unwrap_err().message(),
        "GLM KDA requires equal key/value head dimensions"
    );
}

#[test]
fn dimensions_must_be_sizes() {
    let store = WeightStore { tensors: vec![] };
    let mut gpu = CommandBuffer::new(2, 0);
    let name = "p".to_owned();

    let mut config = glm_config();
    config.linear_num_key_heads = usize::MAX;
    config.linear_num_value_heads = usize::MAX;
    assert_eq!(
        load_glm5_kda(&store, &name, &config, &mut gpu).unwrap_err().message(),
        "GLM KDA qkv dimension overflow"
    );
    assert_eq!(
        kda_weights().pack_conv1d(&config, &mut gpu).unwrap_err().message(),
        "GLM KDA qkv dimension overflow"
    );

    let mut config = glm_config();
    config.linear_conv_kernel_dim = usize::MAX;
    assert_eq!(
        kda_weights().pack_conv1d(&config, &mut gpu).unwrap_err().message(),
        "GLM KDA convolution byte size overflow"
    );
    config.linear_conv_kernel_dim = usize::MAX / 16384;
    assert_eq!(
        kda_weights().pack_conv1d(&config, &mut gpu).unwrap_err().message(),
        "GLM KDA convolution size overflow"
    );

    let mut config = glm_config();
    config.head_dim = usize::MAX;
    assert_eq!(
        load_glm5_dsa(&store, &name, &config, &mut gpu).unwrap_err().message(),
        "GLM DSA query dimension overflow"
    );
    let mut config = glm_config();
    config.v_head_dim = usize::MAX;
    assert_eq!(
        load_glm5_dsa(&store, &name, &config, &mut gpu).unwrap_err().message(),
        "GLM DSA KV dimension overflow"
    );
    let mut config = glm_config();
    config.v_head_dim = usize::MAX - 256;
    assert_eq!(
        load_glm5_dsa(&store, &name, &config, &mut gpu).unwrap_err().message(),
        "GLM DSA KV dimension overflow"
    );
    assert!(gpu.commands().is_empty());

    let mut config = glm_config();
    config.index_n_heads = usize::MAX;
    assert!(!index_in_range(&config));
    assert!(!model_in_range(&config));
    let mut config = glm_config();
    config.hc_mult = usize::MAX;
    assert!(!hc_in_range(&config));
    assert!(!model_in_range(&config));
    let mut config = glm_config();
    config.num_hidden_layers = 5;
    assert!(!model_in_range(&config));
}

#[test]
fn packed_convolutions_fill_their_allocation() {
    let weights = kda_weights();
    let mut gpu = CommandBuffer::new(8, 0);
    let packed = weights.pack_conv1d(&glm_config(), &mut gpu).unwrap();
    let bytes = 64 * 128 * 4 * 2usize;
    let at = |offset: usize| DevicePtr {
        origin: Origin::Result { buffer: 8, command: 0, part: 0 },
        bytes: offset as u64,
    };
    assert_eq!(packed.weight, at(0));
    assert_eq!(
        gpu.commands(),
        &vec![
            CommandOf::Call(DeviceCall::Alloc { bytes: 3 * bytes }),
            CommandOf::Call(
                DeviceCall::CopyD2d { src: weights.q_conv1d.weight, dst: at(0), bytes },
            ),
            CommandOf::Call(DeviceCall::CopyD2d {
                src: weights.k_conv1d.weight,
                dst: at(bytes),
                bytes
            }),
            CommandOf::Call(DeviceCall::CopyD2d {
                src: weights.v_conv1d.weight,
                dst: at(2 * bytes),
                bytes
            }),
        ]
    );
}

#[test]
fn model_loads_layer_by_layer() {
    let config = glm_config();
    let loader = Glm5NextWeightLoader;
    let mut gpu = CommandBuffer::new(2, 77);
    assert!(model_in_range(&config));
    let layers = loader.load_layers(&model_store(), &config, STATE, &mut gpu).unwrap();
    assert_eq!(layers.len(), 4);
    let commands = gpu.commands();
    assert_eq!(
        commands[0],
        CommandOf::Call(DeviceCall::LookupKernel {
            module: "quantize_nvfp4",
            name: "nvfp4_global_absmax"
        })
    );
    assert_eq!(
        commands[2],
        CommandOf::LoadDense {
            name: "model.language_model.layers.0.input_layernorm.weight".to_owned()
        }
    );
    // Layer 0 is dense: norms, projections, their transposes, the block.
    assert_eq!(
        commands[7],
        CommandOf::Call(DeviceCall::QuantizeNvfp4 {
            source: dense(4),
            rows: 12288,
            cols: 4096,
            absmax: KernelHandle::Result { buffer: 2, command: 0 },
            quantize: KernelHandle::Result { buffer: 2, command: 1 },
            stream: 77,
        })
    );
    assert_eq!(
        commands[10],
        CommandOf::Call(DeviceCall::TransposeForGemm {
            source: QuantizedWeight { weight: produced(7, 0) },
            rows: 12288,
            cols: 4096,
        })
    );
    match layers[0] {
        TransformerLayer::Kda(layer) => {
            assert_eq!(layer.layer_idx, 0);
            assert_eq!(layer.input_norm, dense(2));
            assert_eq!(layer.post_attn_norm, dense(3));
            assert_eq!(layer.ffn, FfnComponent::Dense(produced(13, 0)));
            assert_eq!(layer.kda.q_proj, dense(14));
            assert_eq!(layer.conv_weight, dense(29));
            assert_eq!(layer.hc.attn.hc_fn, produced(33, 0));
            assert_eq!(layer.hc.hc_mult, 4);
            assert!(layer.hc.final_mean);
            assert_eq!(layer.h_state_bytes, 1024);
            assert_eq!(layer.conv_state_bytes, 512);
        }
        other => panic!("not linear attention: {other:?}"),
    }
}

#[test]
fn cached_layers_are_numbered_among_themselves() {
    let config = glm_config();
    let mut gpu = CommandBuffer::new(2, 77);
    let layers =
        Glm5NextWeightLoader.load_layers(&model_store(), &config, STATE, &mut gpu).unwrap();
    let numbers: Vec<(usize, usize)> = layers
        .iter()
        .filter_map(|layer| match layer {
            TransformerLayer::Dsa(layer) => Some((layer.physical_layer_idx, layer.attn_layer_idx)),
            TransformerLayer::Kda(_) => None,
        })
        .collect();
    assert_eq!(numbers, vec![(1, 0), (3, 1)]);
    assert_eq!(config.num_attention_layers(), 2);
}

#[test]
fn loaded_layers_decode_with_caches_of_their_own() {
    let config = glm_config();
    let mut gpu = CommandBuffer::new(2, 77);
    let layers =
        Glm5NextWeightLoader.load_layers(&model_store(), &config, STATE, &mut gpu).unwrap();
    let runtime = Qwen3AttentionLayer {
        mla: None,
        attn_layer_idx: 99,
        dense_gemv_k: KernelHandle::Raw(11),
        rms_norm_w_k: KernelHandle::Raw(12),
        mla_batched_gemv_k: KernelHandle::Raw(13),
        mla_q_rope_scatter_k: KernelHandle::Raw(14),
        mla_q_rope_writeback_k: KernelHandle::Raw(15),
        mla_cache_assemble_k: KernelHandle::Raw(16),
        rope_yarn_k: KernelHandle::Raw(17),
        paged_decode_mla_k: KernelHandle::Raw(18),
        glm_index_norm_k: KernelHandle::Raw(19),
        glm_index_write_k: KernelHandle::Raw(20),
        glm_index_select_k: KernelHandle::Raw(21),
        glm_index_expand_k: KernelHandle::Raw(22),
        glm_selected_mla_k: KernelHandle::Raw(23),
    };
    let mut numbers = Vec::new();
    for layer in &layers {
        if let TransformerLayer::Dsa(layer) = layer {
            let decoder = layer.decoder(&runtime);
            assert_eq!(decoder.mla, Some(layer.mla));
            assert_eq!(decoder.paged_decode_mla_k, KernelHandle::Raw(18));
            assert_eq!(decoder.glm_selected_mla_k, KernelHandle::Raw(23));
            assert!(decoder.attn_layer_idx < config.num_attention_layers());
            numbers.push(decoder.attn_layer_idx);
        }
    }
    assert_eq!(numbers, vec![0, 1]);
}

#[test]
fn sparse_attention_layer_is_assembled_from_views() {
    let config = glm_config();
    let mut gpu = CommandBuffer::new(2, 77);
    let layers =
        Glm5NextWeightLoader.load_layers(&model_store(), &config, STATE, &mut gpu).unwrap();
    let layer = match layers[1] {
        TransformerLayer::Dsa(layer) => layer,
        other => panic!("not sparse attention: {other:?}"),
    };
    let commands = gpu.commands();
    let position = commands
        .iter()
        .position(|command| matches!(command, CommandOf::PerHeadViews { .. }))
        .unwrap();
    let loads = position - 14;
    assert_eq!(
        commands[position],
        CommandOf::PerHeadViews {
            kv_b: dense(loads + 5),
            kv_b_shape: vec![32768, 512],
            q_b: dense(loads + 2),
            q_b_shape: vec![16384, 1536],
        }
    );
    assert_eq!(
        commands[position + 1],
        CommandOf::QkAbsorbed {
            q_b: dense(loads + 2),
            q_b_shape: vec![16384, 1536],
            w_uk_t: DenseWeight { weight: produced(position, 0) },
        }
    );
    assert_eq!(
        commands[position + 2],
        CommandOf::Call(DeviceCall::BlockDiagonals {
            w_uk_host: produced(position, 3),
            w_uv: DenseWeight { weight: produced(position, 1) },
        })
    );
    let one = Float32::Bits(1.0f32.to_bits());
    assert_eq!(
        commands[position + 5],
        CommandOf::Call(DeviceCall::NewUngatedAttention {
            input_norm: dense(position + 3),
            attention: AttentionWeights {
                q_proj: null(),
                k_proj: null(),
                v_proj: null(),
                o_proj: QuantizedWeight { weight: null().weight },
                q_norm: null(),
                k_norm: null(),
                q_norm_full: None,
                k_norm_full: None,
                k_scale: one,
                v_scale: one,
            },
            post_norm: dense(position + 4),
            ffn: FfnComponent::Moe(produced(loads - 2, 0)),
            attn_layer_idx: 0,
            kv_dtype: KvCacheDtype::Bf16,
        })
    );
    assert_eq!(
        commands[position + 6],
        CommandOf::LoadHcF32 {
            name: "model.language_model.layers.1.hc_attn_fn".to_owned(),
            elements: 24 * 4 * 4096,
        }
    );
    assert_eq!(
        commands[position + 11],
        CommandOf::LoadHcF32 {
            name: "model.language_model.layers.1.hc_ffn_scale".to_owned(),
            elements: 3,
        }
    );
    assert_eq!(layer.attention, produced(position + 5, 0));
    assert_eq!(layer.mla.wq_b, dense(loads + 2));
    assert_eq!(layer.mla.glm_indexer.map(|indexer| indexer.wq_b), Some(dense(loads + 7)));
    assert_eq!(layer.mla.w_uv_block_diag, DenseWeight { weight: produced(position + 2, 1) });
    assert_eq!(layer.mla.rope, 0);
    assert_eq!(layer.mla.nope, 256);
    assert_eq!(layer.hc.ffn.hc_scale, produced(position + 11, 0));
}

#[test]
fn mixture_of_experts_has_an_ungated_shared_expert() {
    let config = glm_config();
    let mut gpu = CommandBuffer::new(2, 77);
    Glm5NextWeightLoader.load_layers(&model_store(), &config, STATE, &mut gpu).unwrap();
    let commands = gpu.commands();
    let position = commands
        .iter()
        .position(|command| matches!(command, CommandOf::NewMoe { .. }))
        .unwrap();
    match &commands[position] {
        CommandOf::NewMoe { weights, num_experts } => {
            assert_eq!(*num_experts, 2);
            assert_eq!(weights.experts.len(), 2);
            assert_eq!(weights.shared_expert_gate, null());
            assert_eq!(weights.router_pre_norm, None);
            assert_eq!(weights.correction_bias, Some(dense(position - 1)));
            assert_eq!(weights.gate, dense(position - 20));
            assert_eq!(
                weights.experts[1].down_proj,
                QuantizedWeight { weight: produced(position - 8, 0) }
            );
        }
        other => panic!("not a mixture of experts: {other:?}"),
    }
    assert_eq!(
        commands[position - 13],
        CommandOf::LoadDense {
            name: "model.language_model.layers.1.mlp.experts.1.gate_proj.weight".to_owned()
        }
    );
    assert_eq!(
        commands[position - 1],
        CommandOf::LoadF32 {
            name: "model.language_model.layers.1.mlp.gate.e_score_correction_bias".to_owned()
        }
    );
    assert_eq!(
        commands[position + 1],
        CommandOf::Call(DeviceCall::PredequantForPrefill { ffn: produced(position, 0), stream: 77 })
    );
}

#[test]
fn loader_refuses_what_it_cannot_load() {
    let mut config = glm_config();
    config.model_type = "qwen3_next".to_owned();
    let mut gpu = CommandBuffer::new(2, 77);
    let error =
        Glm5NextWeightLoader.load_layers(&model_store(), &config, STATE, &mut gpu).unwrap_err();
    assert_eq!(error.message(), "GLM loader received another model type");
    assert!(gpu.commands().is_empty());

    let config = glm_config();
    let empty = WeightStore { tensors: vec![] };
    let error = Glm5NextWeightLoader.load_layers(&empty, &config, STATE, &mut gpu).unwrap_err();
    assert_eq!(
        error,
        LoadErrorOf::Weights(WeightErrorOf::MissingTensor {
            name: "model.language_model.layers.0.self_attn.q_proj.weight".to_owned()
        })
    );

    let mut config = glm_config();
    config.hc_mult = 0;
    let mut gpu = CommandBuffer::new(2, 77);
    let error =
        Glm5NextWeightLoader.load_layers(&model_store(), &config, STATE, &mut gpu).unwrap_err();
    assert_eq!(error, LoadErrorOf::Kda(KdaError::HighwayMissing));
    assert_eq!(error.message(), "GLM KDA requires a configured mHC highway");
}

#[test]
fn model_without_layers_loads_nothing() {
    let mut config = glm_config();
    config.num_hidden_layers = 0;
    let mut gpu = CommandBuffer::new(2, 77);
    let layers =
        Glm5NextWeightLoader.load_layers(&model_store(), &config, STATE, &mut gpu).unwrap();
    assert!(layers.is_empty());
    assert_eq!(gpu.commands().len(), 2);
}

#[test]
fn outer_tensors_load_by_name() {
    let loader = Glm5NextWeightLoader;
    let mut gpu = CommandBuffer::new(2, 77);
    assert_eq!(loader.load_embedding(&mut gpu), dense(0));
    assert_eq!(loader.load_final_norm(&mut gpu), dense(1));
    assert_eq!(loader.load_lm_head(&mut gpu), dense(2));
    assert_eq!(
        gpu.commands(),
        &vec![
            CommandOf::LoadDense { name: "model.language_model.embed_tokens.weight".to_owned() },
            CommandOf::LoadDense { name: "model.language_model.norm.weight".to_owned() },
            CommandOf::LoadDense { name: "lm_head.weight".to_owned() },
        ]
    );
    assert!(!loader.supports_tp());
    assert_eq!(loader.load_mtp_weights(), None);
}

#[test]
fn vision_tower_is_left_out_with_a_warning() {
    let loader = Glm5NextWeightLoader;
    let mut config = glm_config();
    assert_eq!(loader.load_vision_encoder(), None);
    assert_eq!(loader.vision_warning(&config), None);
    config.vision = Some(Json::Null);
    assert_eq!(loader.vision_warning(&config), Some(VISION_NOT_ATTACHED));
    assert!(VISION_NOT_ATTACHED.starts_with(
        "GLM-5.3-Flash vision tower detected but not attached",
    ));
}
