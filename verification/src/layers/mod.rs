//! Transformer layers.
use vstd::prelude::*;

use crate::config::ModelConfig;
use crate::device::{
    AttnMetadata, BufferArena, DenseWeight, DevicePtr, Float32, PassContext, QuantizedWeight,
};
use crate::weight_map::Glm5IndexerWeights;

pub mod index_selection;
pub mod kda;
pub mod kda_sequence;
pub mod kda_values;
pub mod limit_laws;
pub mod limits;
pub mod mla_attention;
pub mod mla_cache;
pub mod mla_cache_laws;
pub mod mla_decode;
pub mod mla_heads;
pub mod mla_index;
pub mod mla_laws;
pub mod mla_output;
pub mod mla_query;
pub mod mla_sections;
pub mod mla_values;
pub mod values;

verus! {

/// What a forward pass runs in.
#[derive(Clone, Copy)]
pub struct ForwardContext<'a> {
    pub config: &'a ModelConfig,
    pub buffers: BufferArena,
    pub attn_metadata: Option<AttnMetadata>,
    pub profile: bool,
    pub graph_capture: bool,
    pub gemv_sw: bool,
}

impl<'a> ForwardContext<'a> {
    /// The context without the configuration.
    #[verifier::allow_in_spec]
    pub fn pass(&self) -> (pass: PassContext)
        returns
            (PassContext {
                buffers: self.buffers,
                attn_metadata: self.attn_metadata,
                profile: self.profile,
                graph_capture: self.graph_capture,
                gemv_sw: self.gemv_sw,
            }),
    {
        PassContext {
            buffers: self.buffers,
            attn_metadata: self.attn_metadata,
            profile: self.profile,
            graph_capture: self.graph_capture,
            gemv_sw: self.gemv_sw,
        }
    }
}

/// The hyper-connection parameters of one site.
#[derive(Clone, Copy, PartialEq, Eq, Debug)]
pub struct HcSiteWeights {
    pub hc_fn: DevicePtr,
    pub hc_base: DevicePtr,
    pub hc_scale: DevicePtr,
}

/// The hyper-connection of one layer.
#[derive(Clone, Copy, PartialEq, Eq, Debug)]
pub struct HcWeights {
    pub attn: HcSiteWeights,
    pub ffn: HcSiteWeights,
    pub head: Option<HcSiteWeights>,
    pub hc_mult: usize,
    pub sinkhorn_iters: usize,
    pub hc_eps: Float32,
    pub final_mean: bool,
}

/// Multi-head latent attention weights of one layer.
#[derive(Clone, Copy, PartialEq, Eq, Debug)]
pub struct MlaWeights {
    pub glm_indexer: Option<Glm5IndexerWeights>,
    pub wq_a: DenseWeight,
    pub wq_a_nvfp4: Option<QuantizedWeight>,
    pub wq_a_fp8: Option<QuantizedWeight>,
    pub wq_b: DenseWeight,
    pub wq_b_nvfp4: Option<QuantizedWeight>,
    pub wq_b_fp8: Option<QuantizedWeight>,
    pub q_a_norm: DenseWeight,
    pub wkv_a: DenseWeight,
    pub wkv_a_nvfp4: Option<QuantizedWeight>,
    pub wkv_a_fp8: Option<QuantizedWeight>,
    pub wkv_b: DenseWeight,
    pub kv_a_norm: DenseWeight,
    pub wkv_a_rope: DenseWeight,
    pub wkv_a_merged: DenseWeight,
    pub wo: DenseWeight,
    pub wo_nvfp4: Option<QuantizedWeight>,
    pub wo_a: DenseWeight,
    pub wo_a_nvfp4: Option<QuantizedWeight>,
    pub wo_a_fp8: Option<QuantizedWeight>,
    pub wo_b: DenseWeight,
    pub wo_b_nvfp4: Option<QuantizedWeight>,
    pub wo_b_fp8: Option<QuantizedWeight>,
    pub w_uk_t: DenseWeight,
    pub w_uv: DenseWeight,
    pub wq_b_rope: DenseWeight,
    pub w_qk_absorbed: DenseWeight,
    pub w_uk_block_diag: DenseWeight,
    pub w_uv_block_diag: DenseWeight,
    pub yarn_inv_freq: DevicePtr,
    pub main_inv_freq: DevicePtr,
    pub q_lora_rank: usize,
    pub kv_lora_rank: usize,
    pub o_lora_rank: usize,
    pub nope: usize,
    pub rope: usize,
    pub v_dim: usize,
    pub compressor: Option<DevicePtr>,
    pub attn_sink: DevicePtr,
}

} // verus!
