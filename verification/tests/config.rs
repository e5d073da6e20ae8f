use glm5_next::capabilities::ensure_supported_speculation;
use glm5_next::config::error::ConfigError;
use glm5_next::config::parse::{
    parse_document, parse_glm5_next, GenericFields, ParsedElsewhere,
};
use glm5_next::config::text::{deserialized_text, serde_text};
use glm5_next::config::{LayerType, ModelConfig};
use glm5_next::device::Float32;
use glm5_next::json::{Json, JsonMember, JsonNumber};
use glm5_next::weight_map::require_glm;
use serde_json::Value;

fn object(members: Vec<(&str, Value)>) -> Value {
    let mut map = serde_json::Map::new();
    for (key, value) in members {
        map.insert(key.to_owned(), value);
    }
    Value::Object(map)
}

fn strings(texts: &[&str]) -> Value {
    Value::Array(texts.iter().map(|text| Value::from(*text)).collect())
}

fn generic() -> Option<GenericFields> {
    Some(GenericFields {
        rms_norm_eps: JsonNumber::Float(1.0e-5f64.to_bits()),
        rope_theta: JsonNumber::PosInt(1000000),
    })
}

fn member(key: &str, value: u64) -> JsonMember {
    JsonMember { key: key.to_owned(), value: Json::Number(JsonNumber::PosInt(value)) }
}

/// What other parsers make of the document.
fn elsewhere(raw: &Value) -> ParsedElsewhere {
    let vision = raw.get("vision_config").map(|section| {
        Json::Object(
            section
                .as_object()
                .unwrap()
                .iter()
                .map(|(key, value)| member(key, value.as_u64().unwrap()))
                .collect(),
        )
    });
    ParsedElsewhere { generic: generic(), vision, quantization_config: None }
}

fn parse(raw: &Value) -> Result<ModelConfig, ConfigError> {
    parse_glm5_next(raw, elsewhere(raw))
}

fn single(number: Float32) -> f32 {
    match number {
        Float32::Bits(bits) => f32::from_bits(bits),
        Float32::Rounded(JsonNumber::PosInt(value)) => value as f64 as f32,
        Float32::Rounded(JsonNumber::NegInt(value)) => value as f64 as f32,
        Float32::Rounded(JsonNumber::Float(bits)) => f64::from_bits(bits) as f32,
    }
}

fn small() -> Value {
    object(vec![
        ("model_type", Value::from("glm5_next")),
        (
            "text_config",
            object(vec![
                ("model_type", Value::from("glm5_next_text")),
                ("hidden_size", Value::from(4096)),
                ("num_hidden_layers", Value::from(1)),
                ("intermediate_size", Value::from(12288)),
                ("vocab_size", Value::from(154880)),
                ("num_attention_heads", Value::from(64)),
                ("num_key_value_heads", Value::from(64)),
                ("qk_head_dim", Value::from(256)),
                ("qk_nope_head_dim", Value::from(256)),
                ("qk_rope_head_dim", Value::from(0)),
                ("v_head_dim", Value::from(256)),
                ("q_lora_rank", Value::from(1536)),
                ("kv_lora_rank", Value::from(512)),
                ("n_routed_experts", Value::from(288)),
                ("n_shared_experts", Value::from(1)),
                ("num_experts_per_tok", Value::from(8)),
                ("moe_intermediate_size", Value::from(2048)),
                ("routed_scaling_factor", Value::from(2.5)),
                ("norm_topk_prob", Value::from(true)),
                ("scoring_func", Value::from("sigmoid")),
                ("topk_method", Value::from("noaux_tc")),
                ("layer_types", strings(&["linear_attention"])),
                ("mlp_layer_types", strings(&["dense"])),
                (
                    "linear_attn_config",
                    object(vec![
                        ("num_heads", Value::from(64)),
                        ("head_dim", Value::from(128)),
                        ("short_conv_kernel_size", Value::from(4)),
                        ("gate_lower_bound", Value::Null),
                    ]),
                ),
                ("hc_mult", Value::from(4)),
                ("hc_sinkhorn_iters", Value::from(20)),
                ("hc_eps", Value::from(0.000001)),
                ("index_n_heads", Value::from(32)),
                ("index_head_dim", Value::from(128)),
                ("index_topk", Value::from(2048)),
                ("index_kpool", Value::from(4)),
                ("index_kpool_compress", Value::from(true)),
                ("index_kpool_always_select_tail", Value::from(true)),
                ("indexer_types", strings(&["full"])),
                ("num_nextn_predict_layers", Value::from(1)),
                ("eos_token_id", Value::Array(vec![Value::from(154820)])),
            ]),
        ),
    ])
}

/// The message after `field` of the text configuration is set to `value`.
fn fault_of(field: &str, value: Value) -> String {
    let mut raw = small();
    raw["text_config"][field] = value;
    parse(&raw).unwrap_err().message()
}

fn fault_without(field: &str) -> String {
    let mut raw = small();
    raw["text_config"].as_object_mut().unwrap().remove(field);
    parse(&raw).unwrap_err().message()
}

#[test]
fn parses_glm53_flash_architecture_without_fallbacks() {
    let layer_types = (0..45)
        .map(|layer| {
            if layer % 4 == 3 {
                "deepseek_sparse_attention"
            } else {
                "linear_attention"
            }
        })
        .collect::<Vec<_>>();
    let mlp_layer_types = (0..45)
        .map(|layer| if layer < 3 { "dense" } else { "sparse" })
        .collect::<Vec<_>>();
    let raw = object(vec![
        ("model_type", Value::from("glm5_next")),
        (
            "text_config",
            object(vec![
                ("model_type", Value::from("glm5_next_text")),
                ("hidden_size", Value::from(4096)),
                ("num_hidden_layers", Value::from(45)),
                ("intermediate_size", Value::from(12288)),
                ("vocab_size", Value::from(154880)),
                ("num_attention_heads", Value::from(64)),
                ("num_key_value_heads", Value::from(64)),
                ("head_dim", Value::from(0)),
                ("qk_head_dim", Value::from(256)),
                ("qk_nope_head_dim", Value::from(256)),
                ("qk_rope_head_dim", Value::from(0)),
                ("v_head_dim", Value::from(256)),
                ("q_lora_rank", Value::from(1536)),
                ("kv_lora_rank", Value::from(512)),
                ("n_routed_experts", Value::from(288)),
                ("n_shared_experts", Value::from(1)),
                ("num_experts_per_tok", Value::from(8)),
                ("moe_intermediate_size", Value::from(2048)),
                ("routed_scaling_factor", Value::from(2.5)),
                ("norm_topk_prob", Value::from(true)),
                ("scoring_func", Value::from("sigmoid")),
                ("topk_method", Value::from("noaux_tc")),
                ("layer_types", strings(&layer_types)),
                ("mlp_layer_types", strings(&mlp_layer_types)),
                (
                    "linear_attn_config",
                    object(vec![
                        ("num_heads", Value::from(64)),
                        ("head_dim", Value::from(128)),
                        ("short_conv_kernel_size", Value::from(4)),
                        ("gate_lower_bound", Value::from(-5.0)),
                    ]),
                ),
                ("hc_mult", Value::from(4)),
                ("hc_sinkhorn_iters", Value::from(20)),
                ("hc_eps", Value::from(0.000001)),
                ("index_n_heads", Value::from(32)),
                ("index_head_dim", Value::from(128)),
                ("index_topk", Value::from(2048)),
                ("index_kpool", Value::from(4)),
                ("index_kpool_compress", Value::from(true)),
                ("index_kpool_always_select_tail", Value::from(true)),
                ("indexer_types", strings(&vec!["full"; 45])),
                ("num_nextn_predict_layers", Value::from(1)),
                (
                    "eos_token_id",
                    Value::Array(vec![
                        Value::from(154820),
                        Value::from(154827),
                        Value::from(154829),
                    ]),
                ),
            ]),
        ),
        (
            "vision_config",
            object(vec![
                ("depth", Value::from(24)),
                ("hidden_size", Value::from(1024)),
                ("num_heads", Value::from(16)),
                ("patch_size", Value::from(14)),
                ("temporal_patch_size", Value::from(2)),
                ("spatial_merge_size", Value::from(2)),
                ("intermediate_size", Value::from(4096)),
                ("out_hidden_size", Value::from(4096)),
            ]),
        ),
    ]);

    let config = parse(&raw).expect("GLM-5.3 Flash config parses");
    assert_eq!(config.model_type, "glm5_next");
    assert_eq!(config.weight_prefix, "model.language_model");
    assert_eq!(config.num_attention_layers(), 11);
    assert_eq!(config.num_ssm_layers(), 34);
    assert_eq!(config.mlp_only_layers, vec![0, 1, 2]);
    assert_eq!(config.head_dim, 256);
    assert_eq!(config.linear_key_head_dim, 128);
    assert_eq!(config.shared_expert_intermediate_size, 2048);
    assert_eq!(config.eos_token_id, 154820);
    assert_eq!(config.eos_token_ids, vec![154820, 154827, 154829]);
    assert_eq!(config.linear_gate_lower_bound.map(single), Some(-5.0));
    assert_eq!(config.index_kpool, 4);
    assert!(config.use_routing_bias);
    assert!(config.vision.is_some());
}

#[test]
fn rejects_zero_index_pool_before_validating_divisibility() {
    let mut raw = small();
    raw["text_config"]["index_kpool"] = Value::from(0);
    let err = parse(&raw).expect_err("zero k-pool must fail");
    assert!(err.message().contains("index_kpool must be greater than zero"));

    raw["text_config"]["index_kpool"] = Value::from(4);
    assert!(parse(&raw).is_ok());

    raw["text_config"]["indexer_types"] = strings(&["shared"]);
    let err = parse(&raw).expect_err("shared indexer must fail");
    assert!(err.message().contains("shared is not supported"));
}

#[test]
fn parsed_fields_come_from_the_document() {
    let config = parse(&small()).unwrap();
    assert_eq!(config.hidden_size, 4096);
    assert_eq!(config.num_hidden_layers, 1);
    assert_eq!(config.intermediate_size, 12288);
    assert_eq!(config.vocab_size, 154880);
    assert_eq!(config.num_attention_heads, 64);
    assert_eq!(config.num_key_value_heads, 64);
    assert_eq!(config.qk_nope_head_dim, 256);
    assert_eq!(config.qk_rope_head_dim, 0);
    assert_eq!(config.v_head_dim, 256);
    assert_eq!(config.q_lora_rank, 1536);
    assert_eq!(config.kv_lora_rank, 512);
    assert_eq!(config.num_experts, 288);
    assert_eq!(config.num_experts_per_tok, 8);
    assert_eq!(config.moe_intermediate_size, 2048);
    assert_eq!(config.routed_scaling_factor, JsonNumber::Float(2.5f64.to_bits()));
    assert!(config.norm_topk_prob);
    assert_eq!(config.scoring_func, "sigmoid");
    assert_eq!(config.layer_types, vec![LayerType::LinearAttention]);
    assert_eq!(config.mlp_only_layers, vec![0]);
    assert_eq!(config.linear_num_key_heads, 64);
    assert_eq!(config.linear_num_value_heads, 64);
    assert_eq!(config.linear_value_head_dim, 128);
    assert_eq!(config.linear_conv_kernel_dim, 4);
    assert_eq!(config.linear_gate_lower_bound, None);
    assert_eq!(config.hc_mult, 4);
    assert_eq!(config.hc_sinkhorn_iters, 20);
    assert_eq!(single(config.hc_eps), 0.000001f32);
    assert_eq!(config.index_n_heads, 32);
    assert_eq!(config.index_head_dim, 128);
    assert_eq!(config.index_topk, 2048);
    assert!(config.index_kpool_compress);
    assert!(config.index_kpool_always_select_tail);
    assert_eq!(config.indexer_types, vec!["full".to_owned()]);
    assert_eq!(config.mtp_num_hidden_layers, 1);
    assert_eq!(config.num_mtp_modules, 1);
    assert_eq!(config.mtp_transformer_layers, 1);
    assert!(!config.attn_gated);
    assert!(config.nested_config);
    assert!(config.vision.is_none());
    assert!(config.quantization_config.is_none());
    assert_eq!(config.rope_theta, JsonNumber::PosInt(1000000));
    assert_eq!(config.rms_norm_eps, JsonNumber::Float(1.0e-5f64.to_bits()));
}

#[test]
fn parsed_configuration_is_accepted_downstream() {
    let config = parse(&small()).unwrap();
    assert!(require_glm(&config).is_ok());
    assert!(ensure_supported_speculation(&config, true).is_err());
    assert_eq!(config.layer_types.len(), config.num_hidden_layers);
    assert_eq!(config.index_topk % config.index_kpool, 0);
}

#[test]
fn every_required_field_is_missed() {
    let fields = [
        "eos_token_id",
        "num_hidden_layers",
        "linear_attn_config",
        "hidden_size",
        "intermediate_size",
        "vocab_size",
        "num_attention_heads",
        "num_key_value_heads",
        "qk_head_dim",
        "qk_nope_head_dim",
        "qk_rope_head_dim",
        "v_head_dim",
        "q_lora_rank",
        "kv_lora_rank",
        "n_routed_experts",
        "num_experts_per_tok",
        "moe_intermediate_size",
        "n_shared_experts",
        "routed_scaling_factor",
        "norm_topk_prob",
        "scoring_func",
        "topk_method",
        "layer_types",
        "mlp_layer_types",
        "hc_mult",
        "hc_sinkhorn_iters",
        "hc_eps",
        "index_n_heads",
        "index_head_dim",
        "index_topk",
        "index_kpool",
        "index_kpool_compress",
        "index_kpool_always_select_tail",
        "indexer_types",
        "num_nextn_predict_layers",
    ];
    for field in fields {
        assert_eq!(
            fault_without(field),
            format!("glm5_next text_config missing required field `{field}`")
        );
    }
}

#[test]
fn linear_attention_fields_are_required() {
    for field in ["num_heads", "head_dim", "short_conv_kernel_size", "gate_lower_bound"] {
        let mut raw = small();
        raw["text_config"]["linear_attn_config"].as_object_mut().unwrap().remove(field);
        assert_eq!(
            parse(&raw).unwrap_err().message(),
            format!("glm5_next text_config missing required field `{field}`")
        );
    }
}

#[test]
fn text_configuration_is_required_by_name_and_type() {
    let raw = object(vec![("model_type", Value::from("glm5_next"))]);
    assert_eq!(parse(&raw).unwrap_err().message(), "glm5_next config missing text_config");
    assert_eq!(
        fault_of("model_type", Value::from("glm5_next")),
        "glm5_next text_config.model_type must be `glm5_next_text`"
    );
    assert_eq!(
        fault_without("model_type"),
        "glm5_next text_config.model_type must be `glm5_next_text`"
    );
    let raw = object(vec![("text_config", Value::from("glm5_next_text"))]);
    assert_eq!(
        parse(&raw).unwrap_err().message(),
        "glm5_next text_config.model_type must be `glm5_next_text`"
    );
}

#[test]
fn wrong_field_types_are_named() {
    assert_eq!(
        fault_of("hidden_size", Value::from(-1)),
        "glm5_next text_config field `hidden_size` must be an unsigned integer"
    );
    assert_eq!(
        fault_of("hidden_size", Value::from(4096.0)),
        "glm5_next text_config field `hidden_size` must be an unsigned integer"
    );
    assert_eq!(
        fault_of("routed_scaling_factor", Value::from("2.5")),
        "glm5_next text_config field `routed_scaling_factor` must be a number"
    );
    assert_eq!(
        fault_of("norm_topk_prob", Value::from(1)),
        "glm5_next text_config field `norm_topk_prob` must be a boolean"
    );
    assert_eq!(
        fault_of("scoring_func", Value::Null),
        "glm5_next text_config field `scoring_func` must be a string"
    );
    assert_eq!(
        fault_of("topk_method", Value::from(false)),
        "glm5_next text_config field `topk_method` must be a string"
    );
    assert_eq!(
        fault_of("layer_types", Value::from("linear_attention")),
        "glm5_next text_config field `layer_types` must be an array"
    );
    assert_eq!(
        fault_of("index_kpool_always_select_tail", Value::from("yes")),
        "glm5_next text_config field `index_kpool_always_select_tail` must be a boolean"
    );
}

#[test]
fn integers_are_numbers_too() {
    let mut raw = small();
    raw["text_config"]["routed_scaling_factor"] = Value::from(2);
    raw["text_config"]["hc_eps"] = Value::from(-1);
    let config = parse(&raw).unwrap();
    assert_eq!(config.routed_scaling_factor, JsonNumber::PosInt(2));
    assert_eq!(single(config.hc_eps), -1.0);
}

#[test]
fn layer_lists_are_checked_entry_by_entry() {
    assert_eq!(
        fault_of("layer_types", strings(&[])),
        "glm5_next layer_types length (0) does not match num_hidden_layers (1)"
    );
    assert_eq!(
        fault_of("mlp_layer_types", strings(&["dense", "sparse"])),
        "glm5_next mlp_layer_types length (2) does not match num_hidden_layers (1)"
    );
    assert_eq!(
        fault_of("layer_types", strings(&["sliding_attention"])),
        "glm5_next layer_types[0] has unsupported value `sliding_attention`"
    );
    assert_eq!(
        fault_of("mlp_layer_types", strings(&["moe"])),
        "glm5_next mlp_layer_types[0] has unsupported value `moe`"
    );
    assert_eq!(
        fault_of("mlp_layer_types", Value::Array(vec![Value::Null])),
        "glm5_next mlp_layer_types[0] must be a string"
    );
    assert_eq!(
        fault_of("indexer_types", strings(&["none"])),
        "glm5_next indexer_types[0] has unsupported value `none`"
    );
    assert_eq!(
        fault_of("indexer_types", strings(&["shared"])),
        "glm5_next indexer_types[0] = shared is not supported"
    );
}

#[test]
fn both_names_of_full_attention_are_understood() {
    let mut raw = small();
    raw["text_config"]["num_hidden_layers"] = Value::from(3);
    raw["text_config"]["layer_types"] =
        strings(&["full_attention", "linear_attention", "deepseek_sparse_attention"]);
    raw["text_config"]["mlp_layer_types"] = strings(&["sparse", "dense", "sparse"]);
    raw["text_config"]["indexer_types"] = strings(&["full", "full", "full"]);
    let config = parse(&raw).unwrap();
    assert_eq!(
        config.layer_types,
        vec![LayerType::FullAttention, LayerType::LinearAttention, LayerType::FullAttention]
    );
    assert_eq!(config.mlp_only_layers, vec![1]);
    assert_eq!(config.num_attention_layers() + config.num_ssm_layers(), 3);
}

#[test]
fn end_of_sequence_tokens_are_a_list_of_integers() {
    assert_eq!(
        fault_of("eos_token_id", Value::from(154820)),
        "glm5_next eos_token_id must be an array"
    );
    assert_eq!(
        fault_of("eos_token_id", Value::Array(vec![])),
        "glm5_next eos_token_id must contain an integer"
    );
    assert_eq!(
        fault_of("eos_token_id", Value::Array(vec![Value::from("x")])),
        "glm5_next eos_token_id must contain an integer"
    );
    assert_eq!(
        fault_of("eos_token_id", Value::Array(vec![Value::from(1), Value::from("x")])),
        "glm5_next eos_token_id must contain integers"
    );
    assert_eq!(
        fault_of("eos_token_id", Value::Array(vec![Value::from(1), Value::from(1u64 << 32)])),
        "glm5_next eos token does not fit u32"
    );
}

fn text_only(members: Vec<JsonMember>) -> Json {
    let mut text = vec![JsonMember {
        key: "model_type".to_owned(),
        value: Json::String("glm5_next_text".to_owned()),
    }];
    text.extend(members);
    Json::Object(vec![JsonMember { key: "text_config".to_owned(), value: Json::Object(text) }])
}

fn number(value: u64) -> Json {
    Json::Number(JsonNumber::PosInt(value))
}

fn named(key: &str, value: Json) -> JsonMember {
    JsonMember { key: key.to_owned(), value }
}

fn text_type() -> JsonMember {
    named("model_type", Json::String("glm5_next_text".to_owned()))
}

#[test]
fn text_is_prepared_for_deserialization() {
    let nested = || {
        Json::Object(vec![
            named("flags", Json::Array(vec![Json::Null, Json::Bool(true)])),
            named("offset", Json::Number(JsonNumber::NegInt(-3))),
            named("scale", Json::Number(JsonNumber::Float(2.5f64.to_bits()))),
        ])
    };
    let raw = text_only(vec![
        named("layer_types", Json::Array(vec![Json::String("full_attention".to_owned())])),
        named("eos_token_id", Json::Array(vec![number(154820), number(154827)])),
        named("nested", nested()),
    ]);
    assert_eq!(
        deserialized_text(&raw),
        Ok(Json::Object(vec![
            text_type(),
            named("eos_token_id", number(154820)),
            named("nested", nested()),
        ]))
    );
    assert_eq!(
        deserialized_text(&text_only(vec![member("eos_token_id", 7)])),
        Ok(Json::Object(vec![text_type(), member("eos_token_id", 7)]))
    );
    assert_eq!(deserialized_text(&text_only(vec![])), Ok(Json::Object(vec![text_type()])));
}

#[test]
fn text_that_cannot_be_prepared_is_refused() {
    let message = |raw: &Json| deserialized_text(raw).unwrap_err().message();
    assert_eq!(message(&Json::Null), "glm5_next config missing text_config");
    let empty = Json::Object(vec![named("text_config", Json::Array(vec![]))]);
    assert_eq!(message(&empty), "glm5_next text_config.model_type must be `glm5_next_text`");
    let none = text_only(vec![named("eos_token_id", Json::Array(vec![]))]);
    assert_eq!(message(&none), "glm5_next eos_token_id must contain an integer");
    assert!(serde_text(&Value::Null).is_err());
}

#[test]
fn serde_text_keeps_every_other_field() {
    let raw = small();
    let prepared = serde_text(&raw).unwrap();
    assert_eq!(prepared.get("layer_types"), None);
    assert_eq!(prepared.get("eos_token_id"), Some(&number(154820)));
    let text = raw["text_config"].as_object().unwrap();
    for (key, value) in text {
        if key != "layer_types" && key != "eos_token_id" {
            let kept = prepared.get(key).unwrap();
            assert_eq!(kept.as_u64(), value.as_u64(), "{key}");
            assert_eq!(kept.as_bool(), value.as_bool(), "{key}");
            assert_eq!(kept.as_string().map(String::as_str), value.as_str(), "{key}");
            assert_eq!(
                kept.as_array().map(Vec::len),
                value.as_array().map(Vec::len),
                "{key}"
            );
        }
    }
    match prepared {
        Json::Object(members) => assert_eq!(members.len(), text.len() - 1),
        other => panic!("not an object: {other:?}"),
    }
}

#[test]
fn failed_deserialization_is_reported_before_later_faults() {
    let mut raw = small();
    raw["text_config"]["index_kpool"] = Value::from(0);
    let nothing = ParsedElsewhere { generic: None, vision: None, quantization_config: None };
    assert_eq!(
        parse_glm5_next(&raw, nothing).unwrap_err().message(),
        "failed to deserialize glm5_next text_config"
    );
}

#[test]
fn first_fault_wins() {
    let mut raw = small();
    raw["text_config"]["index_kpool"] = Value::from(0);
    raw["text_config"]["hidden_size"] = Value::Null;
    assert_eq!(
        parse(&raw).unwrap_err().message(),
        "glm5_next text_config field `hidden_size` must be an unsigned integer"
    );
}

#[test]
fn shared_expert_width_must_be_a_size() {
    let mut raw = small();
    raw["text_config"]["n_shared_experts"] = Value::from(u64::MAX);
    assert_eq!(
        parse(&raw).unwrap_err().message(),
        "glm5_next shared expert width overflows usize"
    );
    raw["text_config"]["n_shared_experts"] = Value::from(3);
    assert_eq!(parse(&raw).unwrap().shared_expert_intermediate_size, 6144);
}

fn with_gate(value: Value) -> Result<Option<f32>, String> {
    let mut raw = small();
    raw["text_config"]["linear_attn_config"]["gate_lower_bound"] = value;
    match parse(&raw) {
        Ok(config) => Ok(config.linear_gate_lower_bound.map(single)),
        Err(error) => Err(error.message()),
    }
}

#[test]
fn gate_bound_is_a_number_within_single_precision() {
    let outside = "glm5_next linear_attn_config field `gate_lower_bound` is outside f32 range";
    assert_eq!(with_gate(Value::Null), Ok(None));
    assert_eq!(with_gate(Value::from(-5.0)), Ok(Some(-5.0)));
    assert_eq!(with_gate(Value::from(-5)), Ok(Some(-5.0)));
    assert_eq!(with_gate(Value::from(f32::MAX as f64)), Ok(Some(f32::MAX)));
    assert_eq!(with_gate(Value::from(f32::MIN as f64)), Ok(Some(f32::MIN)));
    assert_eq!(with_gate(Value::from(1.0e39)), Err(outside.to_owned()));
    assert_eq!(with_gate(Value::from(-1.0e39)), Err(outside.to_owned()));
    assert_eq!(
        with_gate(Value::from("low")),
        Err("glm5_next linear_attn_config field `gate_lower_bound` must be a number or null"
            .to_owned())
    );
}

#[test]
fn unsupported_architectures_are_refused() {
    assert_eq!(
        fault_of("num_key_value_heads", Value::from(8)),
        "glm5_next requires MHA: num_key_value_heads (8) != num_attention_heads (64)"
    );
    assert_eq!(
        fault_of("qk_rope_head_dim", Value::from(64)),
        "glm5_next support requires NoPE DSA, got qk_rope_head_dim=64"
    );
    assert_eq!(
        fault_of("scoring_func", Value::from("softmax")),
        "glm5_next support requires sigmoid expert routing, got `softmax`"
    );
    assert_eq!(
        fault_of("index_topk", Value::from(2047)),
        "glm5_next index_topk (2047) must be divisible by index_kpool (4)"
    );
    assert_eq!(
        fault_of("index_kpool_compress", Value::from(false)),
        "glm5_next requires index_kpool_compress=true"
    );
}

#[test]
fn routing_bias_follows_the_method() {
    let mut raw = small();
    raw["text_config"]["topk_method"] = Value::from("greedy");
    assert!(!parse(&raw).unwrap().use_routing_bias);
}

#[test]
fn only_the_text_configuration_matters() {
    let mut raw = small();
    raw["model_type"] = Value::from("anything");
    raw["text_config"]["unheard_of"] = Value::from(1);
    assert_eq!(parse(&raw), parse(&small()));
}

#[test]
fn documents_need_not_come_from_serde_json() {
    let faulty = text_only(vec![]);
    let nothing = ParsedElsewhere { generic: generic(), vision: None, quantization_config: None };
    assert_eq!(
        parse_document(&faulty, nothing).unwrap_err().message(),
        "glm5_next text_config missing required field `num_hidden_layers`"
    );
}
