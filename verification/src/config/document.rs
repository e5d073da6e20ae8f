//! What the document of a configuration says.
use vstd::prelude::*;

use crate::config::error::ConfigErrorView;
use crate::config::fields::{
    bool_fault, missing_fault, number_fault, string_fault, usize_at, usize_fault, LayerList,
};
use crate::config::laws::{law_dense_layers, supported};
use crate::config::parse::{
    compression_fault, config_fault, describes, eos_fault, gate_fault, generic_fault,
    primary_fault, shared_fault, support_fault, text_fault, text_of, token_fault, tokens_fault,
    within_single, ParsedElsewhere,
};
use crate::config::{LayerType, ModelConfig};
use crate::device::Float32;
use crate::json::{Json, JsonNumber};

verus! {

/// The field `name` is the number `value`.
pub open spec fn says(object: Json, name: Seq<char>, value: usize) -> bool {
    object.field(name) == Some(Json::Number(JsonNumber::PosInt(value as u64)))
}

/// The field `name` is the string `value`.
pub open spec fn says_text(object: Json, name: Seq<char>, value: Seq<char>) -> bool {
    object.field(name) matches Some(Json::String(text)) && text@ == value
}

/// The field `name` is a list of strings, one for each of `count` layers.
pub open spec fn lists(object: Json, name: Seq<char>, count: nat) -> bool {
    object.field(name) matches Some(Json::Array(entries)) && entries@.len() == count && forall|
        i: int,
    |
        0 <= i < count ==> (#[trigger] entries@[i]) is String
}

/// Entry `i` of the list in the field `name`.
pub open spec fn entry(object: Json, name: Seq<char>, i: int) -> Seq<char> {
    object.field(name)->0->Array_0@[i].text()->0
}

/// The document says of the decoder what `config` holds.
pub open spec fn says_sizes(config: ModelConfig, text: Json) -> bool {
    &&& says(text, "num_hidden_layers"@, config.num_hidden_layers)
    &&& says(text, "hidden_size"@, config.hidden_size)
    &&& says(text, "intermediate_size"@, config.intermediate_size)
    &&& says(text, "vocab_size"@, config.vocab_size)
    &&& says(text, "num_attention_heads"@, config.num_attention_heads)
    &&& says(text, "num_key_value_heads"@, config.num_key_value_heads)
    &&& says(text, "qk_head_dim"@, config.head_dim)
    &&& says(text, "qk_nope_head_dim"@, config.qk_nope_head_dim)
    &&& says(text, "qk_rope_head_dim"@, config.qk_rope_head_dim)
    &&& says(text, "v_head_dim"@, config.v_head_dim)
    &&& says(text, "q_lora_rank"@, config.q_lora_rank)
    &&& says(text, "kv_lora_rank"@, config.kv_lora_rank)
}

/// The document says of the experts and their routing what `config` holds. The
/// width of the shared experts is that of one expert for each of them.
pub open spec fn says_experts(config: ModelConfig, text: Json) -> bool {
    &&& says(text, "n_routed_experts"@, config.num_experts)
    &&& says(text, "num_experts_per_tok"@, config.num_experts_per_tok)
    &&& says(text, "moe_intermediate_size"@, config.moe_intermediate_size)
    &&& exists|shared: usize|
        #[trigger] says(text, "n_shared_experts"@, shared) && shared * config.moe_intermediate_size
            == config.shared_expert_intermediate_size
    &&& text.field("routed_scaling_factor"@) == Some(Json::Number(config.routed_scaling_factor))
    &&& text.field("norm_topk_prob"@) == Some(Json::Bool(config.norm_topk_prob))
    &&& says_text(text, "scoring_func"@, config.scoring_func@)
    &&& text.field("topk_method"@) is Some
    &&& text.field("topk_method"@)->0 is String
    &&& config.use_routing_bias <==> says_text(text, "topk_method"@, "noaux_tc"@)
}

/// The document says of the layers what `config` holds: how each mixes tokens, and
/// which feed-forward blocks are dense. Every layer has an indexer of its own.
pub open spec fn says_layers(config: ModelConfig, text: Json) -> bool {
    let count = config.num_hidden_layers as nat;
    &&& lists(text, "layer_types"@, count)
    &&& lists(text, "mlp_layer_types"@, count)
    &&& lists(text, "indexer_types"@, count)
    &&& config.layer_types@.len() == count
    &&& config.indexer_types@.len() == count
    &&& forall|i: int|
        0 <= i < count ==> match #[trigger] config.layer_types@[i] {
            LayerType::LinearAttention => entry(text, "layer_types"@, i) == "linear_attention"@,
            LayerType::FullAttention => {
                ||| entry(text, "layer_types"@, i) == "deepseek_sparse_attention"@
                ||| entry(text, "layer_types"@, i) == "full_attention"@
            },
        }
    &&& forall|i: int|
        0 <= i < count ==> {
            ||| (#[trigger] entry(text, "mlp_layer_types"@, i)) == "dense"@
            ||| entry(text, "mlp_layer_types"@, i) == "sparse"@
        }
    &&& forall|layer: usize|
        layer < count ==> (#[trigger] config.mlp_only_layers@.contains(layer) <==> entry(
            text,
            "mlp_layer_types"@,
            layer as int,
        ) == "dense"@)
    &&& forall|i: int|
        0 <= i < count ==> (#[trigger] config.indexer_types@[i])@ == "full"@ && entry(
            text,
            "indexer_types"@,
            i,
        ) == "full"@
}

/// The document says of linear attention what `config` holds: keys and values have
/// the same heads.
pub open spec fn says_linear(config: ModelConfig, text: Json) -> bool {
    let linear = text.field("linear_attn_config"@)->0;
    &&& text.field("linear_attn_config"@) is Some
    &&& says(linear, "num_heads"@, config.linear_num_key_heads)
    &&& says(linear, "num_heads"@, config.linear_num_value_heads)
    &&& says(linear, "head_dim"@, config.linear_key_head_dim)
    &&& says(linear, "head_dim"@, config.linear_value_head_dim)
    &&& says(linear, "short_conv_kernel_size"@, config.linear_conv_kernel_dim)
    &&& match config.linear_gate_lower_bound {
        None => linear.field("gate_lower_bound"@) == Some(Json::Null),
        Some(Float32::Rounded(bound)) => {
            &&& linear.field("gate_lower_bound"@) == Some(Json::Number(bound))
            &&& within_single(bound)
        },
        Some(Float32::Bits(_)) => false,
    }
}

/// The document says of the hyper-connections, the index pool and the draft modules
/// what `config` holds.
pub open spec fn says_rest(config: ModelConfig, text: Json) -> bool {
    &&& says(text, "hc_mult"@, config.hc_mult)
    &&& says(text, "hc_sinkhorn_iters"@, config.hc_sinkhorn_iters)
    &&& config.hc_eps is Rounded
    &&& text.field("hc_eps"@) == Some(Json::Number(config.hc_eps->Rounded_0))
    &&& says(text, "index_n_heads"@, config.index_n_heads)
    &&& says(text, "index_head_dim"@, config.index_head_dim)
    &&& says(text, "index_topk"@, config.index_topk)
    &&& says(text, "index_kpool"@, config.index_kpool)
    &&& text.field("index_kpool_compress"@) == Some(Json::Bool(config.index_kpool_compress))
    &&& text.field("index_kpool_always_select_tail"@) == Some(
        Json::Bool(config.index_kpool_always_select_tail),
    )
    &&& says(text, "num_nextn_predict_layers"@, config.num_mtp_modules)
    &&& says(text, "num_nextn_predict_layers"@, config.mtp_num_hidden_layers)
    &&& config.mtp_transformer_layers == 1
}

/// The document lists the end-of-sequence tokens of `config`, the first of which
/// stands for all where one is asked for.
pub open spec fn says_tokens(config: ModelConfig, text: Json) -> bool {
    let ids = config.eos_token_ids@;
    &&& text.field("eos_token_id"@) matches Some(Json::Array(tokens)) && tokens@.len() == ids.len()
        && forall|i: int|
        0 <= i < ids.len() ==> (#[trigger] tokens@[i]) == Json::Number(
            JsonNumber::PosInt(ids[i] as u64),
        )
    &&& ids.len() > 0
    &&& config.eos_token_id == ids[0]
}

/// The document says what `config` holds.
pub open spec fn says_all(config: ModelConfig, raw: Json) -> bool {
    let text = text_of(raw);
    &&& raw.field("text_config"@) is Some
    &&& says_text(text, "model_type"@, "glm5_next_text"@)
    &&& says_tokens(config, text)
    &&& says_sizes(config, text)
    &&& says_experts(config, text)
    &&& says_layers(config, text)
    &&& says_linear(config, text)
    &&& says_rest(config, text)
}

proof fn lemma_entries_sound(list: LayerList, entries: Seq<Json>, count: nat, index: int)
    requires
        list.entries_fault(entries, count) is None,
        0 <= index < count,
    ensures
        list.entry_fault(entries[index], index as usize) is None,
    decreases count,
{
    if index < count - 1 {
        lemma_entries_sound(list, entries, (count - 1) as nat, index);
    }
}

proof fn lemma_sound_entries(list: LayerList, entries: Seq<Json>, count: nat)
    requires
        forall|i: int|
            0 <= i < count ==> list.entry_fault(#[trigger] entries[i], i as usize) is None,
    ensures
        list.entries_fault(entries, count) is None,
    decreases count,
{
    if count > 0 {
        lemma_sound_entries(list, entries, (count - 1) as nat);
        assert(list.entry_fault(entries[count - 1], (count - 1) as usize) is None);
    }
}

proof fn lemma_listed(list: LayerList, text: Json, count: usize)
    requires
        list.fault(text, count) is None,
    ensures
        lists(text, list.field()@, count as nat),
        forall|i: int|
            0 <= i < count ==> list.supports(#[trigger] entry(text, list.field()@, i)),
        forall|i: int|
            0 <= i < count ==> list.entries(text)[i].text() == Some(
                #[trigger] entry(text, list.field()@, i),
            ),
{
    let entries = list.entries(text);
    assert forall|i: int| 0 <= i < count implies (#[trigger] entries[i]) is String by {
        lemma_entries_sound(list, entries, count as nat, i);
    }
    assert forall|i: int| 0 <= i < count implies list.supports(
        #[trigger] entry(text, list.field()@, i),
    ) by {
        lemma_entries_sound(list, entries, count as nat, i);
    }
    assert forall|i: int| 0 <= i < count implies list.entries(text)[i].text() == Some(
        #[trigger] entry(text, list.field()@, i),
    ) by {
        assert(entries[i] is String);
    }
}

proof fn lemma_says_layers(config: ModelConfig, raw: Json, elsewhere: ParsedElsewhere)
    requires
        config_fault(raw, elsewhere.generic is Some) is None,
        describes(config, raw, elsewhere),
    ensures
        says_layers(config, text_of(raw)),
{
    let text = text_of(raw);
    let count = config.num_hidden_layers;
    lemma_listed(LayerList::LayerTypes, text, count);
    lemma_listed(LayerList::MlpLayerTypes, text, count);
    lemma_listed(LayerList::IndexerTypes, text, count);
    law_dense_layers(LayerList::MlpLayerTypes.entries(text), count as nat);
    assert forall|layer: usize| layer < count implies (
    #[trigger] config.mlp_only_layers@.contains(layer) <==> entry(
        text,
        "mlp_layer_types"@,
        layer as int,
    ) == "dense"@) by {
        let found = entry(text, "mlp_layer_types"@, layer as int);
        assert(LayerList::MlpLayerTypes.entries(text)[layer as int].text() == Some(found));
    }
    assert forall|i: int| 0 <= i < count implies match #[trigger] config.layer_types@[i] {
        LayerType::LinearAttention => entry(text, "layer_types"@, i) == "linear_attention"@,
        LayerType::FullAttention => {
            ||| entry(text, "layer_types"@, i) == "deepseek_sparse_attention"@
            ||| entry(text, "layer_types"@, i) == "full_attention"@
        },
    } by {
        let found = entry(text, "layer_types"@, i);
        assert(LayerList::LayerTypes.entries(text)[i].text() == Some(found));
        assert(LayerList::LayerTypes.supports(found));
    }
}

proof fn lemma_token_sound(tokens: Seq<Json>, count: nat, i: int)
    requires
        tokens_fault(tokens, count) is None,
        0 <= i < count,
    ensures
        token_fault(tokens[i]) is None,
    decreases count,
{
    if i < count - 1 {
        lemma_token_sound(tokens, (count - 1) as nat, i);
    }
}

proof fn lemma_sound_tokens(tokens: Seq<Json>, count: nat)
    requires
        forall|i: int| 0 <= i < count ==> token_fault(#[trigger] tokens[i]) is None,
    ensures
        tokens_fault(tokens, count) is None,
    decreases count,
{
    if count > 0 {
        lemma_sound_tokens(tokens, (count - 1) as nat);
        assert(token_fault(tokens[count - 1]) is None);
    }
}

proof fn lemma_says_tokens(config: ModelConfig, raw: Json, elsewhere: ParsedElsewhere)
    requires
        config_fault(raw, elsewhere.generic is Some) is None,
        describes(config, raw, elsewhere),
    ensures
        says_tokens(config, text_of(raw)),
{
    let text = text_of(raw);
    let tokens = text.field("eos_token_id"@)->0->Array_0@;
    assert(eos_fault(text) is None);
    assert forall|i: int| 0 <= i < tokens.len() implies (#[trigger] tokens[i]) == Json::Number(
        JsonNumber::PosInt(config.eos_token_ids@[i] as u64),
    ) by {
        lemma_token_sound(tokens, tokens.len(), i);
        assert(config.eos_token_ids@[i] == tokens[i].unsigned()->0 as u32);
    }
}

/// A configuration that parses holds what the document says, field for field.
pub proof fn law_parsed_says_the_document(
    config: ModelConfig,
    raw: Json,
    elsewhere: ParsedElsewhere,
)
    requires
        config_fault(raw, elsewhere.generic is Some) is None,
        describes(config, raw, elsewhere),
    ensures
        says_all(config, raw),
        config.model_type@ == "glm5_next"@,
        config.weight_prefix@ == "model.language_model"@,
        config.nested_config,
        !config.attn_gated,
        config.vision == elsewhere.vision,
        config.quantization_config == elsewhere.quantization_config,
        elsewhere.generic is Some,
        config.rms_norm_eps == elsewhere.generic->0.rms_norm_eps,
        config.rope_theta == elsewhere.generic->0.rope_theta,
{
    let text = text_of(raw);
    lemma_says_layers(config, raw, elsewhere);
    lemma_says_tokens(config, raw, elsewhere);
    let shared = text.field("n_shared_experts"@)->0.unsigned()->0 as usize;
    assert(says(text, "n_shared_experts"@, shared));
}

/// A document that says a supported configuration parses.
pub proof fn law_supported_document_parses(config: ModelConfig, raw: Json)
    requires
        says_all(config, raw),
        supported(config),
    ensures
        config_fault(raw, true) is None,
{
    let text = text_of(raw);
    let count = config.num_hidden_layers as nat;
    let layers = LayerList::LayerTypes.entries(text);
    let blocks = LayerList::MlpLayerTypes.entries(text);
    let indexers = LayerList::IndexerTypes.entries(text);
    assert forall|i: int| 0 <= i < count implies LayerList::LayerTypes.entry_fault(
        #[trigger] layers[i],
        i as usize,
    ) is None by {
        let kind = config.layer_types@[i];
        assert(layers[i] is String);
        assert(entry(text, "layer_types"@, i) == layers[i].text()->0);
    }
    assert forall|i: int| 0 <= i < count implies LayerList::MlpLayerTypes.entry_fault(
        #[trigger] blocks[i],
        i as usize,
    ) is None by {
        assert(blocks[i] is String);
        assert(entry(text, "mlp_layer_types"@, i) == blocks[i].text()->0);
    }
    assert forall|i: int| 0 <= i < count implies LayerList::IndexerTypes.entry_fault(
        #[trigger] indexers[i],
        i as usize,
    ) is None by {
        let kind = config.indexer_types@[i];
        assert(indexers[i] is String);
        assert(entry(text, "indexer_types"@, i) == indexers[i].text()->0);
    }
    let tokens = text.field("eos_token_id"@)->0->Array_0@;
    lemma_sound_tokens(tokens, tokens.len());
    lemma_sound_entries(LayerList::LayerTypes, layers, count);
    lemma_sound_entries(LayerList::MlpLayerTypes, blocks, count);
    lemma_sound_entries(LayerList::IndexerTypes, indexers, count);
}

/// What is looked for in a document, in the order in which it is looked for.
pub open spec fn faults_in_order(raw: Json, deserialized: bool) -> Seq<Option<ConfigErrorView>> {
    let text = text_of(raw);
    let linear = text.field("linear_attn_config"@)->0;
    let count = usize_at(text, "num_hidden_layers");
    seq![
        text_fault(raw),
        primary_fault(text),
        generic_fault(deserialized),
        usize_fault(text, "num_hidden_layers"),
        missing_fault(text, "linear_attn_config"),
        eos_fault(text),
        usize_fault(text, "hidden_size"),
        usize_fault(text, "intermediate_size"),
        usize_fault(text, "vocab_size"),
        usize_fault(text, "num_attention_heads"),
        usize_fault(text, "num_key_value_heads"),
        usize_fault(text, "qk_head_dim"),
        usize_fault(text, "qk_nope_head_dim"),
        usize_fault(text, "qk_rope_head_dim"),
        usize_fault(text, "v_head_dim"),
        usize_fault(text, "q_lora_rank"),
        usize_fault(text, "kv_lora_rank"),
        usize_fault(text, "n_routed_experts"),
        usize_fault(text, "num_experts_per_tok"),
        usize_fault(text, "moe_intermediate_size"),
        usize_fault(text, "n_shared_experts"),
        shared_fault(text),
        number_fault(text, "routed_scaling_factor"),
        bool_fault(text, "norm_topk_prob"),
        string_fault(text, "scoring_func"),
        string_fault(text, "topk_method"),
        LayerList::LayerTypes.fault(text, count),
        LayerList::MlpLayerTypes.fault(text, count),
        usize_fault(linear, "num_heads"),
        usize_fault(linear, "head_dim"),
        usize_fault(linear, "short_conv_kernel_size"),
        gate_fault(linear),
        usize_fault(text, "hc_mult"),
        usize_fault(text, "hc_sinkhorn_iters"),
        number_fault(text, "hc_eps"),
        usize_fault(text, "index_n_heads"),
        usize_fault(text, "index_head_dim"),
        usize_fault(text, "index_topk"),
        usize_fault(text, "index_kpool"),
        bool_fault(text, "index_kpool_compress"),
        compression_fault(text),
        bool_fault(text, "index_kpool_always_select_tail"),
        LayerList::IndexerTypes.fault(text, count),
        usize_fault(text, "num_nextn_predict_layers"),
        support_fault(text),
    ]
}

/// Of several faults the first is told: the one before which none is found.
pub proof fn law_first_fault_told(raw: Json, deserialized: bool, first: int)
    requires
        0 <= first < faults_in_order(raw, deserialized).len(),
        faults_in_order(raw, deserialized)[first] is Some,
        forall|i: int|
            0 <= i < first ==> (#[trigger] faults_in_order(raw, deserialized)[i]) is None,
    ensures
        config_fault(raw, deserialized) == faults_in_order(raw, deserialized)[first],
{
    let faults = faults_in_order(raw, deserialized);
    assert(first > 0 ==> faults[0] is None);
    assert(first > 1 ==> faults[1] is None);
    assert(first > 2 ==> faults[2] is None);
    assert(first > 3 ==> faults[3] is None);
    assert(first > 4 ==> faults[4] is None);
    assert(first > 5 ==> faults[5] is None);
    assert(first > 6 ==> faults[6] is None);
    assert(first > 7 ==> faults[7] is None);
    assert(first > 8 ==> faults[8] is None);
    assert(first > 9 ==> faults[9] is None);
    assert(first > 10 ==> faults[10] is None);
    assert(first > 11 ==> faults[11] is None);
    assert(first > 12 ==> faults[12] is None);
    assert(first > 13 ==> faults[13] is None);
    assert(first > 14 ==> faults[14] is None);
    assert(first > 15 ==> faults[15] is None);
    assert(first > 16 ==> faults[16] is None);
    assert(first > 17 ==> faults[17] is None);
    assert(first > 18 ==> faults[18] is None);
    assert(first > 19 ==> faults[19] is None);
    assert(first > 20 ==> faults[20] is None);
    assert(first > 21 ==> faults[21] is None);
    assert(first > 22 ==> faults[22] is None);
    assert(first > 23 ==> faults[23] is None);
    assert(first > 24 ==> faults[24] is None);
    assert(first > 25 ==> faults[25] is None);
    assert(first > 26 ==> faults[26] is None);
    assert(first > 27 ==> faults[27] is None);
    assert(first > 28 ==> faults[28] is None);
    assert(first > 29 ==> faults[29] is None);
    assert(first > 30 ==> faults[30] is None);
    assert(first > 31 ==> faults[31] is None);
    assert(first > 32 ==> faults[32] is None);
    assert(first > 33 ==> faults[33] is None);
    assert(first > 34 ==> faults[34] is None);
    assert(first > 35 ==> faults[35] is None);
    assert(first > 36 ==> faults[36] is None);
    assert(first > 37 ==> faults[37] is None);
    assert(first > 38 ==> faults[38] is None);
    assert(first > 39 ==> faults[39] is None);
    assert(first > 40 ==> faults[40] is None);
    assert(first > 41 ==> faults[41] is None);
    assert(first > 42 ==> faults[42] is None);
    assert(first > 43 ==> faults[43] is None);
    assert(first > 44 ==> faults[44] is None);
}

} // verus!
