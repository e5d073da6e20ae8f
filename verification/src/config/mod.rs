//! The language-model configuration.
use vstd::prelude::*;

use crate::device::Float32;
use crate::json::{Json, JsonNumber};

pub mod document;
pub mod error;
pub mod fields;
pub mod laws;
pub mod parse;
pub mod text;

verus! {

/// How a decoder layer mixes tokens.
#[derive(Clone, Copy, PartialEq, Eq, Debug)]
pub enum LayerType {
    LinearAttention,
    FullAttention,
}

/// The architecture of a model.
#[derive(PartialEq, Eq, Debug)]
pub struct ModelConfig {
    pub model_type: String,
    pub weight_prefix: String,
    pub nested_config: bool,
    pub attn_gated: bool,
    pub eos_token_id: u32,
    pub eos_token_ids: Vec<u32>,
    pub hidden_size: usize,
    pub num_hidden_layers: usize,
    pub intermediate_size: usize,
    pub vocab_size: usize,
    pub num_attention_heads: usize,
    pub num_key_value_heads: usize,
    pub head_dim: usize,
    pub qk_nope_head_dim: usize,
    pub qk_rope_head_dim: usize,
    pub v_head_dim: usize,
    pub q_lora_rank: usize,
    pub kv_lora_rank: usize,
    pub num_experts: usize,
    pub num_experts_per_tok: usize,
    pub moe_intermediate_size: usize,
    pub shared_expert_intermediate_size: usize,
    pub routed_scaling_factor: JsonNumber,
    pub norm_topk_prob: bool,
    pub scoring_func: String,
    pub use_routing_bias: bool,
    pub layer_types: Vec<LayerType>,
    pub mlp_only_layers: Vec<usize>,
    pub linear_num_key_heads: usize,
    pub linear_num_value_heads: usize,
    pub linear_key_head_dim: usize,
    pub linear_value_head_dim: usize,
    pub linear_conv_kernel_dim: usize,
    pub linear_gate_lower_bound: Option<Float32>,
    pub hc_mult: usize,
    pub hc_sinkhorn_iters: usize,
    pub hc_eps: Float32,
    pub index_n_heads: usize,
    pub index_head_dim: usize,
    pub index_topk: usize,
    pub index_kpool: usize,
    pub index_kpool_compress: bool,
    pub index_kpool_always_select_tail: bool,
    pub indexer_types: Vec<String>,
    pub mtp_num_hidden_layers: usize,
    pub num_mtp_modules: usize,
    pub mtp_transformer_layers: usize,
    pub vision: Option<Json>,
    pub quantization_config: Option<Json>,
    pub rms_norm_eps: JsonNumber,
    pub rope_theta: JsonNumber,
}

/// How many of the layers are of type `wanted`.
pub open spec fn layers_of(types: Seq<LayerType>, wanted: LayerType) -> nat
    decreases types.len(),
{
    if types.len() == 0 {
        0
    } else {
        layers_of(types.drop_last(), wanted) + if types.last() == wanted {
            1nat
        } else {
            0nat
        }
    }
}

/// Every layer is counted once.
pub proof fn law_layers_partition(types: Seq<LayerType>)
    ensures
        layers_of(types, LayerType::FullAttention) + layers_of(types, LayerType::LinearAttention)
            == types.len(),
    decreases types.len(),
{
    if types.len() > 0 {
        law_layers_partition(types.drop_last());
    }
}

fn count_layers(types: &Vec<LayerType>, full: bool) -> (count: usize)
    ensures
        full ==> count == layers_of(types@, LayerType::FullAttention),
        !full ==> count == layers_of(types@, LayerType::LinearAttention),
{
    let mut count: usize = 0;
    let mut i: usize = 0;
    while i < types.len()
        invariant
            i <= types.len(),
            count <= i,
            full ==> count == layers_of(types@.take(i as int), LayerType::FullAttention),
            !full ==> count == layers_of(types@.take(i as int), LayerType::LinearAttention),
        decreases types.len() - i,
    {
        proof {
            assert(types@.take(i + 1).drop_last() =~= types@.take(i as int));
        }
        let is_full: bool = match types[i] {
            LayerType::FullAttention => true,
            LayerType::LinearAttention => false,
        };
        if is_full == full {
            count = count + 1;
        }
        i = i + 1;
    }
    proof {
        assert(types@.take(i as int) =~= types@);
    }
    count
}

impl ModelConfig {
    /// Whether this is the configuration of a GLM-5 model.
    pub open spec fn is_glm(self) -> bool {
        self.model_type@ == "glm5_next"@
    }

    pub fn num_attention_layers(&self) -> (count: usize)
        ensures
            count == layers_of(self.layer_types@, LayerType::FullAttention),
    {
        count_layers(&self.layer_types, true)
    }

    pub fn num_ssm_layers(&self) -> (count: usize)
        ensures
            count == layers_of(self.layer_types@, LayerType::LinearAttention),
    {
        count_layers(&self.layer_types, false)
    }

    pub fn layer_type(&self, layer_idx: usize) -> (layer_type: LayerType)
        requires
            layer_idx < self.layer_types@.len(),
        ensures
            layer_type == self.layer_types@[layer_idx as int],
    {
        self.layer_types[layer_idx]
    }

    /// Whether layer `layer_idx` has a dense feed-forward block.
    pub fn is_mlp_only(&self, layer_idx: usize) -> (found: bool)
        ensures
            found == self.mlp_only_layers@.contains(layer_idx),
    {
        let mut i: usize = 0;
        while i < self.mlp_only_layers.len()
            invariant
                i <= self.mlp_only_layers.len(),
                forall|j: int| 0 <= j < i ==> self.mlp_only_layers@[j] != layer_idx,
            decreases self.mlp_only_layers.len() - i,
        {
            if self.mlp_only_layers[i] == layer_idx {
                return true;
            }
            i = i + 1;
        }
        false
    }
}

} // verus!
