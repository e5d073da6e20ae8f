//! What holds of every configuration that parses.
use vstd::prelude::*;

use crate::capabilities::refuses_speculation;
use crate::config::fields::{dense_layers_of, usize_at, LayerList};
use crate::config::parse::{config_fault, describes, text_of, ParsedElsewhere};
use crate::config::ModelConfig;
use crate::json::Json;
use crate::weight_map::glm_fault;

verus! {

/// The positions of the dense layers, whatever their number: in order, in
/// range, and no others.
pub open spec fn lists_dense_layers(layers: Seq<usize>, entries: Seq<Json>, count: nat) -> bool {
    &&& forall|i: int, j: int| 0 <= i < j < layers.len() ==> layers[i] < layers[j]
    &&& forall|i: int| 0 <= i < layers.len() ==> #[trigger] layers[i] < count
    &&& forall|layer: usize|
        layer < count ==> (#[trigger] layers.contains(layer) <==> entries[layer as int].text()
            == Some("dense"@))
}

/// The dense layers are listed in increasing order, and exactly they are
/// listed.
pub proof fn law_dense_layers(entries: Seq<Json>, count: nat)
    requires
        count <= usize::MAX,
    ensures
        lists_dense_layers(dense_layers_of(entries, count), entries, count),
    decreases count,
{
    if count > 0 {
        let last = (count - 1) as nat;
        law_dense_layers(entries, last);
        let before = dense_layers_of(entries, last);
        let layers = dense_layers_of(entries, count);
        if entries[last as int].text() == Some("dense"@) {
            assert(layers == before.push(last as usize));
            assert(layers[before.len() as int] == last as usize);
            assert forall|layer: usize| layer < count implies (#[trigger] layers.contains(layer)
                <==> entries[layer as int].text() == Some("dense"@)) by {
                if layer < last {
                    assert(before.contains(layer) <==> entries[layer as int].text() == Some(
                        "dense"@,
                    ));
                    if before.contains(layer) {
                        let i = choose|i: int| 0 <= i < before.len() && before[i] == layer;
                        assert(layers[i] == layer);
                    }
                    if layers.contains(layer) {
                        let i = choose|i: int| 0 <= i < layers.len() && layers[i] == layer;
                        assert(before[i] == layer);
                    }
                }
            }
        } else {
            assert(layers == before);
            assert forall|layer: usize| layer < count implies (#[trigger] layers.contains(layer)
                <==> entries[layer as int].text() == Some("dense"@)) by {
                if layer == last {
                    if layers.contains(layer) {
                        let i = choose|i: int| 0 <= i < layers.len() && layers[i] == layer;
                        assert(before[i] < last);
                    }
                }
            }
        }
    }
}

/// What the runtime relies on in a configuration.
pub open spec fn supported(config: ModelConfig) -> bool {
    &&& config.num_key_value_heads == config.num_attention_heads
    &&& config.qk_rope_head_dim == 0
    &&& config.scoring_func@ == "sigmoid"@
    &&& config.index_kpool > 0
    &&& config.index_topk % config.index_kpool == 0
    &&& config.index_kpool_compress
    &&& config.layer_types@.len() == config.num_hidden_layers
    &&& config.indexer_types@.len() == config.num_hidden_layers
    &&& config.eos_token_ids@.len() > 0
    &&& config.eos_token_id == config.eos_token_ids@[0]
}

/// A configuration that parses is one that the runtime supports.
pub proof fn law_parsed_is_supported(config: ModelConfig, raw: Json, elsewhere: ParsedElsewhere)
    requires
        config_fault(raw, elsewhere.generic is Some) is None,
        describes(config, raw, elsewhere),
    ensures
        supported(config),
{
    assert(LayerList::LayerTypes.fault(text_of(raw), config.num_hidden_layers) is None);
}

/// A configuration that parses is accepted by the weight loaders.
pub proof fn law_parsed_is_glm(config: ModelConfig, raw: Json, elsewhere: ParsedElsewhere)
    requires
        describes(config, raw, elsewhere),
    ensures
        glm_fault(config) is None,
{
}

/// The dense layers of a parsed configuration are exactly those that the
/// document marks dense.
pub proof fn law_parsed_dense_layers(config: ModelConfig, raw: Json, elsewhere: ParsedElsewhere)
    requires
        config_fault(raw, elsewhere.generic is Some) is None,
        describes(config, raw, elsewhere),
    ensures
        lists_dense_layers(
            config.mlp_only_layers@,
            LayerList::MlpLayerTypes.entries(text_of(raw)),
            config.num_hidden_layers as nat,
        ),
{
    law_dense_layers(
        LayerList::MlpLayerTypes.entries(text_of(raw)),
        config.num_hidden_layers as nat,
    );
}

/// A model whose document announces draft modules refuses speculative decoding,
/// and one that announces none does not.
pub proof fn law_parsed_speculation(config: ModelConfig, raw: Json, elsewhere: ParsedElsewhere)
    requires
        describes(config, raw, elsewhere),
    ensures
        refuses_speculation(config) <==> usize_at(text_of(raw), "num_nextn_predict_layers") > 0,
{
}

/// The fields that the text configuration must have.
pub open spec fn required_fields() -> Seq<Seq<char>> {
    seq![
        "model_type"@,
        "eos_token_id"@,
        "num_hidden_layers"@,
        "linear_attn_config"@,
        "hidden_size"@,
        "intermediate_size"@,
        "vocab_size"@,
        "num_attention_heads"@,
        "num_key_value_heads"@,
        "qk_head_dim"@,
        "qk_nope_head_dim"@,
        "qk_rope_head_dim"@,
        "v_head_dim"@,
        "q_lora_rank"@,
        "kv_lora_rank"@,
        "n_routed_experts"@,
        "num_experts_per_tok"@,
        "moe_intermediate_size"@,
        "n_shared_experts"@,
        "routed_scaling_factor"@,
        "norm_topk_prob"@,
        "scoring_func"@,
        "topk_method"@,
        "layer_types"@,
        "mlp_layer_types"@,
        "hc_mult"@,
        "hc_sinkhorn_iters"@,
        "hc_eps"@,
        "index_n_heads"@,
        "index_head_dim"@,
        "index_topk"@,
        "index_kpool"@,
        "index_kpool_compress"@,
        "index_kpool_always_select_tail"@,
        "indexer_types"@,
        "num_nextn_predict_layers"@,
    ]
}

/// The fields that the description of linear attention must have.
pub open spec fn required_linear_fields() -> Seq<Seq<char>> {
    seq!["num_heads"@, "head_dim"@, "short_conv_kernel_size"@, "gate_lower_bound"@]
}

/// Nothing about the architecture is filled in: a document that lacks a
/// required field does not parse.
pub proof fn law_no_defaults(raw: Json, deserialized: bool, i: int)
    requires
        config_fault(raw, deserialized) is None,
    ensures
        0 <= i < required_fields().len() ==> text_of(raw).field(required_fields()[i]) is Some,
        0 <= i < required_linear_fields().len() ==> text_of(raw).field(
            "linear_attn_config"@,
        )->0.field(required_linear_fields()[i]) is Some,
{
}

/// Only the text configuration decides: documents that agree on it have the
/// same fault, or say the same.
pub proof fn law_only_text_matters(
    config: ModelConfig,
    raw: Json,
    other: Json,
    elsewhere: ParsedElsewhere,
)
    requires
        raw.field("text_config"@) == other.field("text_config"@),
    ensures
        config_fault(raw, elsewhere.generic is Some) == config_fault(
            other,
            elsewhere.generic is Some,
        ),
        describes(config, raw, elsewhere) == describes(config, other, elsewhere),
{
}

} // verus!
