//! Parsing the GLM-5.3-Flash configuration.
//!
//! The language model is described under `text_config`, with names of its own
//! for several fields. Every field that matters is required: nothing about the
//! architecture is filled in by default.
use vstd::prelude::*;

use crate::config::error::{ConfigError, ConfigErrorOf, ConfigErrorView};
use crate::config::fields::{
    all_full, bool_at, bool_fault, dense_layers_of, dense_mlp_layers, indexer_types,
    layer_types, layer_types_of, missing_fault, number_at, number_fault, reads, required,
    required_bool, required_f64, required_string, required_usize, string_at, string_fault,
    usize_at, usize_fault, InOrder, LayerList,
};
use crate::config::ModelConfig;
use crate::device::Float32;
use crate::json::{document, value_document, Json, JsonNumber};
use crate::text::same_text;

verus! {

/// What deserialising the text configuration by field name yields.
#[derive(Clone, Copy, PartialEq, Eq, Debug)]
pub struct GenericFields {
    pub rms_norm_eps: JsonNumber,
    pub rope_theta: JsonNumber,
}

/// What is made of the document elsewhere: the fields deserialised by name,
/// absent when that failed, and the vision and quantisation sections.
#[derive(PartialEq, Eq, Debug)]
pub struct ParsedElsewhere {
    pub generic: Option<GenericFields>,
    pub vision: Option<Json>,
    pub quantization_config: Option<Json>,
}

/// The text configuration.
pub open spec fn text_of(raw: Json) -> Json {
    raw.field("text_config"@)->0
}

pub open spec fn text_fault(raw: Json) -> Option<ConfigErrorView> {
    match raw.field("text_config"@) {
        None => Some(ConfigErrorOf::MissingTextConfig),
        Some(text) => match text.field("model_type"@) {
            Some(model_type) => if model_type.text() == Some("glm5_next_text"@) {
                None
            } else {
                Some(ConfigErrorOf::WrongTextModelType)
            },
            None => Some(ConfigErrorOf::WrongTextModelType),
        },
    }
}

pub(crate) fn text_section<'a>(raw: &'a Json) -> (result: Result<&'a Json, ConfigError>)
    ensures
        reads(result, text_fault(*raw), &text_of(*raw)),
{
    let text = match raw.get("text_config") {
        Some(text) => text,
        None => {
            return Err(ConfigErrorOf::MissingTextConfig);
        },
    };
    let named = match text.get("model_type") {
        Some(model_type) => match model_type.as_string() {
            Some(name) => same_text(name, "glm5_next_text"),
            None => false,
        },
        None => false,
    };
    if named {
        Ok(text)
    } else {
        Err(ConfigErrorOf::WrongTextModelType)
    }
}

pub open spec fn primary_fault(text: Json) -> Option<ConfigErrorView> {
    match text.field("eos_token_id"@) {
        Some(Json::Array(tokens)) => if tokens@.len() > 0 && tokens@[0].unsigned() is Some {
            None
        } else {
            Some(ConfigErrorOf::EosWithoutInteger)
        },
        _ => None,
    }
}

/// The scalar that stands for a list of end-of-sequence tokens: its first.
pub open spec fn primary_of(text: Json) -> Option<u64> {
    match text.field("eos_token_id"@) {
        Some(Json::Array(tokens)) => tokens@[0].unsigned(),
        _ => None,
    }
}

pub(crate) fn primary_token(text: &Json) -> (result: Result<Option<u64>, ConfigError>)
    ensures
        reads(result, primary_fault(*text), primary_of(*text)),
{
    let tokens = match text.get("eos_token_id") {
        Some(value) => match value.as_array() {
            Some(tokens) => tokens,
            None => {
                return Ok(None);
            },
        },
        None => {
            return Ok(None);
        },
    };
    if tokens.len() == 0 {
        return Err(ConfigErrorOf::EosWithoutInteger);
    }
    match tokens[0].as_u64() {
        Some(primary) => Ok(Some(primary)),
        None => Err(ConfigErrorOf::EosWithoutInteger),
    }
}

pub open spec fn token_fault(token: Json) -> Option<ConfigErrorView> {
    match token.unsigned() {
        None => Some(ConfigErrorOf::EosNotInteger),
        Some(id) => if id > u32::MAX {
            Some(ConfigErrorOf::EosTooLarge)
        } else {
            None
        },
    }
}

/// The first fault among the first `count` tokens.
pub open spec fn tokens_fault(tokens: Seq<Json>, count: nat) -> Option<ConfigErrorView>
    decreases count,
{
    if count == 0 {
        None
    } else {
        tokens_fault(tokens, (count - 1) as nat).otherwise(token_fault(tokens[count - 1]))
    }
}

pub open spec fn eos_fault(text: Json) -> Option<ConfigErrorView> {
    match text.field("eos_token_id"@) {
        None => Some(ConfigErrorOf::MissingField { field: "eos_token_id" }),
        Some(Json::Array(tokens)) => tokens_fault(tokens@, tokens@.len()),
        Some(_) => Some(ConfigErrorOf::EosNotArray),
    }
}

/// The end-of-sequence tokens.
pub open spec fn eos_of(text: Json) -> Seq<u32> {
    text.field("eos_token_id"@)->0->Array_0@.map_values(|token: Json| token.unsigned()->0 as u32)
}

proof fn lemma_token_fault_stays(tokens: Seq<Json>, failed: nat, count: nat)
    requires
        failed <= count,
        tokens_fault(tokens, failed) is Some,
    ensures
        tokens_fault(tokens, count) == tokens_fault(tokens, failed),
    decreases count,
{
    if failed < count {
        lemma_token_fault_stays(tokens, failed, (count - 1) as nat);
    }
}

fn eos_tokens(text: &Json) -> (result: Result<Vec<u32>, ConfigError>)
    ensures
        match eos_fault(*text) {
            None => result is Ok && result->Ok_0@ == eos_of(*text),
            Some(error) => result is Err && result->Err_0@ == error,
        },
{
    let tokens = match required(text, "eos_token_id")?.as_array() {
        Some(tokens) => tokens,
        None => {
            return Err(ConfigErrorOf::EosNotArray);
        },
    };
    let mut ids: Vec<u32> = Vec::new();
    let mut i: usize = 0;
    while i < tokens.len()
        invariant
            i <= tokens.len(),
            text.field("eos_token_id"@) == Some(Json::Array(*tokens)),
            tokens_fault(tokens@, i as nat) is None,
            ids@ == eos_of(*text).take(i as int),
        decreases tokens.len() - i,
    {
        let id: u64 = match tokens[i].as_u64() {
            Some(id) => id,
            None => {
                proof {
                    lemma_token_fault_stays(tokens@, (i + 1) as nat, tokens@.len());
                }
                return Err(ConfigErrorOf::EosNotInteger);
            },
        };
        if id > u32::MAX as u64 {
            proof {
                lemma_token_fault_stays(tokens@, (i + 1) as nat, tokens@.len());
            }
            return Err(ConfigErrorOf::EosTooLarge);
        }
        ids.push(id as u32);
        assert(ids@ =~= eos_of(*text).take(i + 1));
        i = i + 1;
    }
    assert(ids@ =~= eos_of(*text));
    Ok(ids)
}

/// The sizes of the decoder.
#[derive(Clone, Copy, PartialEq, Eq, Debug)]
pub struct Sizes {
    pub hidden_size: usize,
    pub intermediate_size: usize,
    pub vocab_size: usize,
    pub num_attention_heads: usize,
    pub num_key_value_heads: usize,
    pub head_dim: usize,
    pub qk_nope_head_dim: usize,
    pub qk_rope_head_dim: usize,
    pub v_head_dim: usize,
    pub q_lora_rank: usize,
    pub kv_lora_rank: usize,
}

pub open spec fn sizes_fault(text: Json) -> Option<ConfigErrorView> {
    usize_fault(text, "hidden_size")
        .otherwise(usize_fault(text, "intermediate_size"))
        .otherwise(usize_fault(text, "vocab_size"))
        .otherwise(usize_fault(text, "num_attention_heads"))
        .otherwise(usize_fault(text, "num_key_value_heads"))
        .otherwise(usize_fault(text, "qk_head_dim"))
        .otherwise(usize_fault(text, "qk_nope_head_dim"))
        .otherwise(usize_fault(text, "qk_rope_head_dim"))
        .otherwise(usize_fault(text, "v_head_dim"))
        .otherwise(usize_fault(text, "q_lora_rank"))
        .otherwise(usize_fault(text, "kv_lora_rank"))
}

pub open spec fn sizes_of(text: Json) -> Sizes {
    Sizes {
        hidden_size: usize_at(text, "hidden_size"),
        intermediate_size: usize_at(text, "intermediate_size"),
        vocab_size: usize_at(text, "vocab_size"),
        num_attention_heads: usize_at(text, "num_attention_heads"),
        num_key_value_heads: usize_at(text, "num_key_value_heads"),
        head_dim: usize_at(text, "qk_head_dim"),
        qk_nope_head_dim: usize_at(text, "qk_nope_head_dim"),
        qk_rope_head_dim: usize_at(text, "qk_rope_head_dim"),
        v_head_dim: usize_at(text, "v_head_dim"),
        q_lora_rank: usize_at(text, "q_lora_rank"),
        kv_lora_rank: usize_at(text, "kv_lora_rank"),
    }
}

fn read_sizes(text: &Json) -> (result: Result<Sizes, ConfigError>)
    ensures
        reads(result, sizes_fault(*text), sizes_of(*text)),
{
    let sizes = Sizes {
        hidden_size: required_usize(text, "hidden_size")?,
        intermediate_size: required_usize(text, "intermediate_size")?,
        vocab_size: required_usize(text, "vocab_size")?,
        num_attention_heads: required_usize(text, "num_attention_heads")?,
        num_key_value_heads: required_usize(text, "num_key_value_heads")?,
        head_dim: required_usize(text, "qk_head_dim")?,
        qk_nope_head_dim: required_usize(text, "qk_nope_head_dim")?,
        qk_rope_head_dim: required_usize(text, "qk_rope_head_dim")?,
        v_head_dim: required_usize(text, "v_head_dim")?,
        q_lora_rank: required_usize(text, "q_lora_rank")?,
        kv_lora_rank: required_usize(text, "kv_lora_rank")?,
    };
    Ok(sizes)
}

/// The sizes of the mixture of experts.
#[derive(Clone, Copy, PartialEq, Eq, Debug)]
pub struct ExpertSizes {
    pub num_experts: usize,
    pub num_experts_per_tok: usize,
    pub moe_intermediate_size: usize,
    pub shared_expert_intermediate_size: usize,
}

/// The width of the shared experts together.
pub open spec fn shared_width(text: Json) -> int {
    usize_at(text, "n_shared_experts") * usize_at(text, "moe_intermediate_size")
}

pub open spec fn shared_fault(text: Json) -> Option<ConfigErrorView> {
    if shared_width(text) > usize::MAX {
        Some(ConfigErrorOf::SharedWidthOverflow)
    } else {
        None
    }
}

pub open spec fn experts_fault(text: Json) -> Option<ConfigErrorView> {
    usize_fault(text, "n_routed_experts")
        .otherwise(usize_fault(text, "num_experts_per_tok"))
        .otherwise(usize_fault(text, "moe_intermediate_size"))
        .otherwise(usize_fault(text, "n_shared_experts"))
        .otherwise(shared_fault(text))
}

pub open spec fn experts_of(text: Json) -> ExpertSizes {
    ExpertSizes {
        num_experts: usize_at(text, "n_routed_experts"),
        num_experts_per_tok: usize_at(text, "num_experts_per_tok"),
        moe_intermediate_size: usize_at(text, "moe_intermediate_size"),
        shared_expert_intermediate_size: shared_width(text) as usize,
    }
}

fn read_experts(text: &Json) -> (result: Result<ExpertSizes, ConfigError>)
    ensures
        reads(result, experts_fault(*text), experts_of(*text)),
{
    let num_experts: usize = required_usize(text, "n_routed_experts")?;
    let num_experts_per_tok: usize = required_usize(text, "num_experts_per_tok")?;
    let moe_intermediate_size: usize = required_usize(text, "moe_intermediate_size")?;
    let shared: usize = required_usize(text, "n_shared_experts")?;
    match shared.checked_mul(moe_intermediate_size) {
        Some(shared_expert_intermediate_size) => Ok(
            ExpertSizes {
                num_experts,
                num_experts_per_tok,
                moe_intermediate_size,
                shared_expert_intermediate_size,
            },
        ),
        None => Err(ConfigErrorOf::SharedWidthOverflow),
    }
}

/// How tokens are routed to experts.
#[derive(PartialEq, Eq, Debug)]
pub struct Routing {
    pub routed_scaling_factor: JsonNumber,
    pub norm_topk_prob: bool,
    pub scoring_func: String,
    pub use_routing_bias: bool,
}

pub open spec fn routing_fault(text: Json) -> Option<ConfigErrorView> {
    number_fault(text, "routed_scaling_factor")
        .otherwise(bool_fault(text, "norm_topk_prob"))
        .otherwise(string_fault(text, "scoring_func"))
        .otherwise(string_fault(text, "topk_method"))
}

fn read_routing(text: &Json) -> (result: Result<Routing, ConfigError>)
    ensures
        match routing_fault(*text) {
            None => {
                &&& result is Ok
                &&& result->Ok_0.routed_scaling_factor == number_at(*text, "routed_scaling_factor")
                &&& result->Ok_0.norm_topk_prob == bool_at(*text, "norm_topk_prob")
                &&& result->Ok_0.scoring_func@ == string_at(*text, "scoring_func")
                &&& result->Ok_0.use_routing_bias == (string_at(*text, "topk_method")
                    == "noaux_tc"@)
            },
            Some(error) => result is Err && result->Err_0@ == error,
        },
{
    let routed_scaling_factor = required_f64(text, "routed_scaling_factor")?;
    let norm_topk_prob = required_bool(text, "norm_topk_prob")?;
    let scoring_func = required_string(text, "scoring_func")?.clone();
    let use_routing_bias = same_text(required_string(text, "topk_method")?, "noaux_tc");
    Ok(Routing { routed_scaling_factor, norm_topk_prob, scoring_func, use_routing_bias })
}

/// The largest magnitude that a double may have to be within single-precision
/// range, as bits.
pub const MAX_SINGLE_BITS: u64 = 0x47ef_ffff_e000_0000;

/// The bits of a double but for its sign.
pub const MAGNITUDE_MASK: u64 = 0x7fff_ffff_ffff_ffff;

/// Whether a number is finite and within single-precision range. An integer
/// always is; the magnitude of a double grows with its bits.
pub open spec fn within_single(number: JsonNumber) -> bool {
    match number {
        JsonNumber::Float(bits) => bits & MAGNITUDE_MASK <= MAX_SINGLE_BITS,
        _ => true,
    }
}

pub open spec fn gate_fault(linear: Json) -> Option<ConfigErrorView> {
    match linear.field("gate_lower_bound"@) {
        None => Some(ConfigErrorOf::MissingField { field: "gate_lower_bound" }),
        Some(Json::Null) => None,
        Some(Json::Number(number)) => if within_single(number) {
            None
        } else {
            Some(ConfigErrorOf::GateOutOfRange)
        },
        Some(_) => Some(ConfigErrorOf::GateNotNumber),
    }
}

/// The lower bound of the decay gate, rounded to single precision.
pub open spec fn gate_of(linear: Json) -> Option<Float32> {
    match linear.field("gate_lower_bound"@) {
        Some(Json::Number(number)) => Some(Float32::Rounded(number)),
        _ => None,
    }
}

fn gate_lower_bound(linear: &Json) -> (result: Result<Option<Float32>, ConfigError>)
    ensures
        reads(result, gate_fault(*linear), gate_of(*linear)),
{
    match required(linear, "gate_lower_bound")? {
        Json::Null => Ok(None),
        value => match value.as_number() {
            None => Err(ConfigErrorOf::GateNotNumber),
            Some(number) => {
                let within = match number {
                    JsonNumber::Float(bits) => bits & MAGNITUDE_MASK <= MAX_SINGLE_BITS,
                    _ => true,
                };
                if within {
                    Ok(Some(Float32::Rounded(number)))
                } else {
                    Err(ConfigErrorOf::GateOutOfRange)
                }
            },
        },
    }
}

/// The sizes of linear attention.
#[derive(Clone, Copy, PartialEq, Eq, Debug)]
pub struct LinearSizes {
    pub heads: usize,
    pub head_dim: usize,
    pub conv_kernel: usize,
    pub gate_lower_bound: Option<Float32>,
}

pub open spec fn linear_fault(linear: Json) -> Option<ConfigErrorView> {
    usize_fault(linear, "num_heads")
        .otherwise(usize_fault(linear, "head_dim"))
        .otherwise(usize_fault(linear, "short_conv_kernel_size"))
        .otherwise(gate_fault(linear))
}

pub open spec fn linear_of(linear: Json) -> LinearSizes {
    LinearSizes {
        heads: usize_at(linear, "num_heads"),
        head_dim: usize_at(linear, "head_dim"),
        conv_kernel: usize_at(linear, "short_conv_kernel_size"),
        gate_lower_bound: gate_of(linear),
    }
}

fn read_linear(linear: &Json) -> (result: Result<LinearSizes, ConfigError>)
    ensures
        reads(result, linear_fault(*linear), linear_of(*linear)),
{
    let sizes = LinearSizes {
        heads: required_usize(linear, "num_heads")?,
        head_dim: required_usize(linear, "head_dim")?,
        conv_kernel: required_usize(linear, "short_conv_kernel_size")?,
        gate_lower_bound: gate_lower_bound(linear)?,
    };
    Ok(sizes)
}

/// The parameters of the hyper-connections.
#[derive(Clone, Copy, PartialEq, Eq, Debug)]
pub struct Highway {
    pub hc_mult: usize,
    pub hc_sinkhorn_iters: usize,
    pub hc_eps: Float32,
}

pub open spec fn highway_fault(text: Json) -> Option<ConfigErrorView> {
    usize_fault(text, "hc_mult")
        .otherwise(usize_fault(text, "hc_sinkhorn_iters"))
        .otherwise(number_fault(text, "hc_eps"))
}

pub open spec fn highway_of(text: Json) -> Highway {
    Highway {
        hc_mult: usize_at(text, "hc_mult"),
        hc_sinkhorn_iters: usize_at(text, "hc_sinkhorn_iters"),
        hc_eps: Float32::Rounded(number_at(text, "hc_eps")),
    }
}

fn read_highway(text: &Json) -> (result: Result<Highway, ConfigError>)
    ensures
        reads(result, highway_fault(*text), highway_of(*text)),
{
    let highway = Highway {
        hc_mult: required_usize(text, "hc_mult")?,
        hc_sinkhorn_iters: required_usize(text, "hc_sinkhorn_iters")?,
        hc_eps: Float32::Rounded(required_f64(text, "hc_eps")?),
    };
    Ok(highway)
}

/// The parameters of the index pool, and the draft modules.
#[derive(PartialEq, Eq, Debug)]
pub struct IndexPool {
    pub index_n_heads: usize,
    pub index_head_dim: usize,
    pub index_topk: usize,
    pub index_kpool: usize,
    pub always_select_tail: bool,
    pub indexer_types: Vec<String>,
    pub nextn_layers: usize,
}

pub open spec fn compression_fault(text: Json) -> Option<ConfigErrorView> {
    if bool_at(text, "index_kpool_compress") {
        None
    } else {
        Some(ConfigErrorOf::CompressionRequired)
    }
}

pub open spec fn index_fault(text: Json, count: usize) -> Option<ConfigErrorView> {
    usize_fault(text, "index_n_heads")
        .otherwise(usize_fault(text, "index_head_dim"))
        .otherwise(usize_fault(text, "index_topk"))
        .otherwise(usize_fault(text, "index_kpool"))
        .otherwise(bool_fault(text, "index_kpool_compress"))
        .otherwise(compression_fault(text))
        .otherwise(bool_fault(text, "index_kpool_always_select_tail"))
        .otherwise(LayerList::IndexerTypes.fault(text, count))
        .otherwise(usize_fault(text, "num_nextn_predict_layers"))
}

fn read_index(text: &Json, count: usize) -> (result: Result<IndexPool, ConfigError>)
    ensures
        match index_fault(*text, count) {
            None => {
                &&& result is Ok
                &&& result->Ok_0.index_n_heads == usize_at(*text, "index_n_heads")
                &&& result->Ok_0.index_head_dim == usize_at(*text, "index_head_dim")
                &&& result->Ok_0.index_topk == usize_at(*text, "index_topk")
                &&& result->Ok_0.index_kpool == usize_at(*text, "index_kpool")
                &&& result->Ok_0.always_select_tail == bool_at(
                    *text,
                    "index_kpool_always_select_tail",
                )
                &&& all_full(result->Ok_0.indexer_types@, count as nat)
                &&& result->Ok_0.nextn_layers == usize_at(*text, "num_nextn_predict_layers")
            },
            Some(error) => result is Err && result->Err_0@ == error,
        },
{
    let index_n_heads: usize = required_usize(text, "index_n_heads")?;
    let index_head_dim: usize = required_usize(text, "index_head_dim")?;
    let index_topk: usize = required_usize(text, "index_topk")?;
    let index_kpool: usize = required_usize(text, "index_kpool")?;
    if !required_bool(text, "index_kpool_compress")? {
        return Err(ConfigErrorOf::CompressionRequired);
    }
    let always_select_tail = required_bool(text, "index_kpool_always_select_tail")?;
    let indexer_types = indexer_types(text, count)?;
    let nextn_layers: usize = required_usize(text, "num_nextn_predict_layers")?;
    Ok(
        IndexPool {
            index_n_heads,
            index_head_dim,
            index_topk,
            index_kpool,
            always_select_tail,
            indexer_types,
            nextn_layers,
        },
    )
}

/// What the runtime does not support, in the order in which it is looked for.
pub open spec fn support_fault(text: Json) -> Option<ConfigErrorView> {
    let kv_heads = usize_at(text, "num_key_value_heads");
    let heads = usize_at(text, "num_attention_heads");
    let rope = usize_at(text, "qk_rope_head_dim");
    let scoring = string_at(text, "scoring_func");
    let topk = usize_at(text, "index_topk");
    let kpool = usize_at(text, "index_kpool");
    if kv_heads != heads {
        Some(ConfigErrorOf::NotMultiHead { kv_heads, heads })
    } else if rope != 0 {
        Some(ConfigErrorOf::RotaryUnsupported { rope })
    } else if scoring != "sigmoid"@ {
        Some(ConfigErrorOf::RoutingUnsupported { scoring })
    } else if kpool == 0 {
        Some(ConfigErrorOf::ZeroPool)
    } else if topk % kpool != 0 {
        Some(ConfigErrorOf::PoolDoesNotDivide { topk, kpool })
    } else {
        None
    }
}

fn check_support(sizes: &Sizes, routing: &Routing, index: &IndexPool) -> (result: Result<
    (),
    ConfigError,
>)
    ensures
        forall|text: Json|
            #![trigger support_fault(text)]
            {
                &&& sizes.num_key_value_heads == usize_at(text, "num_key_value_heads")
                &&& sizes.num_attention_heads == usize_at(text, "num_attention_heads")
                &&& sizes.qk_rope_head_dim == usize_at(text, "qk_rope_head_dim")
                &&& routing.scoring_func@ == string_at(text, "scoring_func")
                &&& index.index_topk == usize_at(text, "index_topk")
                &&& index.index_kpool == usize_at(text, "index_kpool")
            } ==> reads(result, support_fault(text), ()),
{
    if sizes.num_key_value_heads != sizes.num_attention_heads {
        return Err(
            ConfigErrorOf::NotMultiHead {
                kv_heads: sizes.num_key_value_heads,
                heads: sizes.num_attention_heads,
            },
        );
    }
    if sizes.qk_rope_head_dim != 0 {
        return Err(ConfigErrorOf::RotaryUnsupported { rope: sizes.qk_rope_head_dim });
    }
    if !same_text(&routing.scoring_func, "sigmoid") {
        return Err(ConfigErrorOf::RoutingUnsupported { scoring: routing.scoring_func.clone() });
    }
    if index.index_kpool == 0 {
        return Err(ConfigErrorOf::ZeroPool);
    }
    if index.index_topk % index.index_kpool != 0 {
        return Err(
            ConfigErrorOf::PoolDoesNotDivide { topk: index.index_topk, kpool: index.index_kpool },
        );
    }
    Ok(())
}

pub open spec fn generic_fault(deserialized: bool) -> Option<ConfigErrorView> {
    if deserialized {
        None
    } else {
        Some(ConfigErrorOf::NotDeserializable)
    }
}

/// The first fault of the document; `deserialized` tells whether it could be
/// deserialised by field name.
pub open spec fn config_fault(raw: Json, deserialized: bool) -> Option<ConfigErrorView> {
    let text = text_of(raw);
    let linear = text.field("linear_attn_config"@)->0;
    let count = usize_at(text, "num_hidden_layers");
    text_fault(raw)
        .otherwise(primary_fault(text))
        .otherwise(generic_fault(deserialized))
        .otherwise(usize_fault(text, "num_hidden_layers"))
        .otherwise(missing_fault(text, "linear_attn_config"))
        .otherwise(eos_fault(text))
        .otherwise(sizes_fault(text))
        .otherwise(experts_fault(text))
        .otherwise(routing_fault(text))
        .otherwise(LayerList::LayerTypes.fault(text, count))
        .otherwise(LayerList::MlpLayerTypes.fault(text, count))
        .otherwise(linear_fault(linear))
        .otherwise(highway_fault(text))
        .otherwise(index_fault(text, count))
        .otherwise(support_fault(text))
}

/// `config` is what the document says.
pub open spec fn describes(config: ModelConfig, raw: Json, elsewhere: ParsedElsewhere) -> bool {
    let text = text_of(raw);
    let linear = text.field("linear_attn_config"@)->0;
    let count = usize_at(text, "num_hidden_layers");
    &&& config.model_type@ == "glm5_next"@
    &&& config.weight_prefix@ == "model.language_model"@
    &&& config.nested_config
    &&& !config.attn_gated
    &&& config.eos_token_ids@ == eos_of(text)
    &&& config.eos_token_id == eos_of(text)[0]
    &&& config.num_hidden_layers == count
    &&& config.hidden_size == usize_at(text, "hidden_size")
    &&& config.intermediate_size == usize_at(text, "intermediate_size")
    &&& config.vocab_size == usize_at(text, "vocab_size")
    &&& config.num_attention_heads == usize_at(text, "num_attention_heads")
    &&& config.num_key_value_heads == usize_at(text, "num_key_value_heads")
    &&& config.head_dim == usize_at(text, "qk_head_dim")
    &&& config.qk_nope_head_dim == usize_at(text, "qk_nope_head_dim")
    &&& config.qk_rope_head_dim == usize_at(text, "qk_rope_head_dim")
    &&& config.v_head_dim == usize_at(text, "v_head_dim")
    &&& config.q_lora_rank == usize_at(text, "q_lora_rank")
    &&& config.kv_lora_rank == usize_at(text, "kv_lora_rank")
    &&& config.num_experts == usize_at(text, "n_routed_experts")
    &&& config.num_experts_per_tok == usize_at(text, "num_experts_per_tok")
    &&& config.moe_intermediate_size == usize_at(text, "moe_intermediate_size")
    &&& config.shared_expert_intermediate_size == shared_width(text)
    &&& config.routed_scaling_factor == number_at(text, "routed_scaling_factor")
    &&& config.norm_topk_prob == bool_at(text, "norm_topk_prob")
    &&& config.scoring_func@ == string_at(text, "scoring_func")
    &&& config.use_routing_bias == (string_at(text, "topk_method") == "noaux_tc"@)
    &&& config.layer_types@ == layer_types_of(LayerList::LayerTypes.entries(text))
    &&& config.mlp_only_layers@ == dense_layers_of(
        LayerList::MlpLayerTypes.entries(text),
        count as nat,
    )
    &&& config.linear_num_key_heads == usize_at(linear, "num_heads")
    &&& config.linear_num_value_heads == usize_at(linear, "num_heads")
    &&& config.linear_key_head_dim == usize_at(linear, "head_dim")
    &&& config.linear_value_head_dim == usize_at(linear, "head_dim")
    &&& config.linear_conv_kernel_dim == usize_at(linear, "short_conv_kernel_size")
    &&& config.linear_gate_lower_bound == gate_of(linear)
    &&& config.hc_mult == usize_at(text, "hc_mult")
    &&& config.hc_sinkhorn_iters == usize_at(text, "hc_sinkhorn_iters")
    &&& config.hc_eps == Float32::Rounded(number_at(text, "hc_eps"))
    &&& config.index_n_heads == usize_at(text, "index_n_heads")
    &&& config.index_head_dim == usize_at(text, "index_head_dim")
    &&& config.index_topk == usize_at(text, "index_topk")
    &&& config.index_kpool == usize_at(text, "index_kpool")
    &&& config.index_kpool_compress
    &&& config.index_kpool_always_select_tail == bool_at(text, "index_kpool_always_select_tail")
    &&& all_full(config.indexer_types@, count as nat)
    &&& config.mtp_num_hidden_layers == usize_at(text, "num_nextn_predict_layers")
    &&& config.num_mtp_modules == usize_at(text, "num_nextn_predict_layers")
    &&& config.mtp_transformer_layers == 1
    &&& config.vision == elsewhere.vision
    &&& config.quantization_config == elsewhere.quantization_config
    &&& elsewhere.generic is Some
    &&& config.rms_norm_eps == elsewhere.generic->0.rms_norm_eps
    &&& config.rope_theta == elsewhere.generic->0.rope_theta
}

/// The configuration that a document says, or the first fault of it.
pub open spec fn parses(
    result: Result<ModelConfig, ConfigError>,
    raw: Json,
    elsewhere: ParsedElsewhere,
) -> bool {
    match config_fault(raw, elsewhere.generic is Some) {
        None => result is Ok && describes(result->Ok_0, raw, elsewhere),
        Some(error) => result is Err && result->Err_0@ == error,
    }
}

/// Parse the configuration of a GLM-5.3-Flash model.
pub fn parse_document(raw: &Json, elsewhere: ParsedElsewhere) -> (result: Result<
    ModelConfig,
    ConfigError,
>)
    ensures
        parses(result, *raw, elsewhere),
{
    let text = text_section(raw)?;
    primary_token(text)?;
    let generic = match elsewhere.generic {
        Some(generic) => generic,
        None => {
            return Err(ConfigErrorOf::NotDeserializable);
        },
    };
    let layers: usize = required_usize(text, "num_hidden_layers")?;
    let linear_config = required(text, "linear_attn_config")?;
    let eos_token_ids = eos_tokens(text)?;
    let sizes = read_sizes(text)?;
    let experts = read_experts(text)?;
    let routing = read_routing(text)?;
    let types = layer_types(text, layers)?;
    let mlp_only_layers = dense_mlp_layers(text, layers)?;
    let linear = read_linear(linear_config)?;
    let highway = read_highway(text)?;
    let index = read_index(text, layers)?;
    check_support(&sizes, &routing, &index)?;
    let eos_token_id: u32 = eos_token_ids[0];
    let config = ModelConfig {
        model_type: "glm5_next".to_owned(),
        weight_prefix: "model.language_model".to_owned(),
        nested_config: true,
        attn_gated: false,
        eos_token_id,
        eos_token_ids,
        num_hidden_layers: layers,
        hidden_size: sizes.hidden_size,
        intermediate_size: sizes.intermediate_size,
        vocab_size: sizes.vocab_size,
        num_attention_heads: sizes.num_attention_heads,
        num_key_value_heads: sizes.num_key_value_heads,
        head_dim: sizes.head_dim,
        qk_nope_head_dim: sizes.qk_nope_head_dim,
        qk_rope_head_dim: sizes.qk_rope_head_dim,
        v_head_dim: sizes.v_head_dim,
        q_lora_rank: sizes.q_lora_rank,
        kv_lora_rank: sizes.kv_lora_rank,
        num_experts: experts.num_experts,
        num_experts_per_tok: experts.num_experts_per_tok,
        moe_intermediate_size: experts.moe_intermediate_size,
        shared_expert_intermediate_size: experts.shared_expert_intermediate_size,
        routed_scaling_factor: routing.routed_scaling_factor,
        norm_topk_prob: routing.norm_topk_prob,
        scoring_func: routing.scoring_func,
        use_routing_bias: routing.use_routing_bias,
        layer_types: types,
        mlp_only_layers,
        linear_num_key_heads: linear.heads,
        linear_num_value_heads: linear.heads,
        linear_key_head_dim: linear.head_dim,
        linear_value_head_dim: linear.head_dim,
        linear_conv_kernel_dim: linear.conv_kernel,
        linear_gate_lower_bound: linear.gate_lower_bound,
        hc_mult: highway.hc_mult,
        hc_sinkhorn_iters: highway.hc_sinkhorn_iters,
        hc_eps: highway.hc_eps,
        index_n_heads: index.index_n_heads,
        index_head_dim: index.index_head_dim,
        index_topk: index.index_topk,
        index_kpool: index.index_kpool,
        index_kpool_compress: true,
        index_kpool_always_select_tail: index.always_select_tail,
        indexer_types: index.indexer_types,
        mtp_num_hidden_layers: index.nextn_layers,
        num_mtp_modules: index.nextn_layers,
        mtp_transformer_layers: 1,
        vision: elsewhere.vision,
        quantization_config: elsewhere.quantization_config,
        rms_norm_eps: generic.rms_norm_eps,
        rope_theta: generic.rope_theta,
    };
    Ok(config)
}

/// Parse the configuration of a GLM-5.3-Flash model as `serde_json` holds it.
pub fn parse_glm5_next(raw: &serde_json::Value, elsewhere: ParsedElsewhere) -> (result: Result<
    ModelConfig,
    ConfigError,
>)
    ensures
        parses(result, value_document(*raw), elsewhere),
{
    let raw = document(raw);
    parse_document(&raw, elsewhere)
}

} // verus!
