use glm5_next::capabilities::ensure_supported_speculation;
use glm5_next::config::{LayerType, ModelConfig};
use glm5_next::device::Float32;
use glm5_next::json::JsonNumber;

fn glm_config() -> ModelConfig {
    ModelConfig {
        model_type: "glm5_next".to_owned(),
        weight_prefix: "model.language_model".to_owned(),
        nested_config: true,
        attn_gated: false,
        eos_token_id: 154820,
        eos_token_ids: vec![154820, 154827, 154829],
        hidden_size: 4096,
        num_hidden_layers: 4,
        intermediate_size: 12288,
        vocab_size: 154880,
        num_attention_heads: 64,
        num_key_value_heads: 64,
        head_dim: 256,
        qk_nope_head_dim: 256,
        qk_rope_head_dim: 0,
        v_head_dim: 256,
        q_lora_rank: 1536,
        kv_lora_rank: 512,
        num_experts: 2,
        num_experts_per_tok: 1,
        moe_intermediate_size: 2048,
        shared_expert_intermediate_size: 2048,
        routed_scaling_factor: JsonNumber::Float(2.5f64.to_bits()),
        norm_topk_prob: true,
        scoring_func: "sigmoid".to_owned(),
        use_routing_bias: true,
        layer_types: vec![
            LayerType::LinearAttention,
            LayerType::FullAttention,
            LayerType::LinearAttention,
            LayerType::FullAttention,
        ],
        mlp_only_layers: vec![0],
        linear_num_key_heads: 64,
        linear_num_value_heads: 64,
        linear_key_head_dim: 128,
        linear_value_head_dim: 128,
        linear_conv_kernel_dim: 4,
        linear_gate_lower_bound: Some(Float32::Rounded(JsonNumber::Float((-5.0f64).to_bits()))),
        hc_mult: 4,
        hc_sinkhorn_iters: 20,
        hc_eps: Float32::Rounded(JsonNumber::Float(1.0e-6f64.to_bits())),
        index_n_heads: 32,
        index_head_dim: 128,
        index_topk: 2048,
        index_kpool: 4,
        index_kpool_compress: true,
        index_kpool_always_select_tail: true,
        indexer_types: vec![
            "full".to_owned(),
            "full".to_owned(),
            "full".to_owned(),
            "full".to_owned(),
        ],
        mtp_num_hidden_layers: 1,
        num_mtp_modules: 1,
        mtp_transformer_layers: 1,
        vision: None,
        quantization_config: None,
        rms_norm_eps: JsonNumber::Float(1.0e-5f64.to_bits()),
        rope_theta: JsonNumber::PosInt(1000000),
    }
}

fn qwen_config() -> ModelConfig {
    let mut config = glm_config();
    config.model_type = "qwen3_next".to_owned();
    config.num_mtp_modules = 0;
    config
}

#[test]
fn glm_nextn_rejects_requested_speculation() {
    let mut config = qwen_config();
    config.model_type = "glm5_next".into();
    config.num_mtp_modules = 1;

    let err = ensure_supported_speculation(&config, true).unwrap_err();
    assert!(err.message().contains("NextN speculative decoding"));
    assert!(ensure_supported_speculation(&config, false).is_ok());
}

#[test]
fn non_glm_models_keep_existing_speculation_path() {
    let mut config = qwen_config();
    config.num_mtp_modules = 1;
    assert!(ensure_supported_speculation(&config, true).is_ok());
}

#[test]
fn glm_without_draft_modules_may_speculate() {
    let mut config = glm_config();
    config.num_mtp_modules = 0;
    assert!(ensure_supported_speculation(&config, true).is_ok());
}

#[test]
fn refused_speculation_tells_the_operator_what_to_do() {
    let err = ensure_supported_speculation(&glm_config(), true).unwrap_err();
    assert_eq!(
        err.message(),
        "GLM-5.3-Flash NextN speculative decoding is not supported: its DSA+MoE predictor is not \
         compatible with Atlas's MTP runtime. Re-run with --speculative disabled."
    );
}
