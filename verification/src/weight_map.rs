//! The weights of a GLM-5 block, and the tensors they are loaded from.
use vstd::prelude::*;

use crate::config::ModelConfig;
use crate::device::{
    call, result_ptr, CommandBuffer, CommandView, DenseWeight, DeviceCall, Trace,
};
use crate::tensors::{
    load_tensors, load_trace, tensor, TensorSpec, TensorSpecOf, TensorView, WeightError,
    WeightErrorOf, WeightErrorView, WeightStore,
};
use crate::text::{joined, same_text};

verus! {

/// Kimi Delta Attention weights of one linear-attention block.
#[derive(Clone, Copy, PartialEq, Eq, Debug)]
pub struct Glm5KdaWeights {
    pub q_proj: DenseWeight,
    pub k_proj: DenseWeight,
    pub v_proj: DenseWeight,
    pub q_conv1d: DenseWeight,
    pub k_conv1d: DenseWeight,
    pub v_conv1d: DenseWeight,
    pub f_a_proj: DenseWeight,
    pub f_b_proj: DenseWeight,
    pub g_a_proj: DenseWeight,
    pub g_b_proj: DenseWeight,
    pub b_proj: DenseWeight,
    pub a_log: DenseWeight,
    pub dt_bias: DenseWeight,
    pub o_norm: DenseWeight,
    pub o_proj: DenseWeight,
}

/// The k-pool semantic indexer of one sparse-attention block.
#[derive(Clone, Copy, PartialEq, Eq, Debug)]
pub struct Glm5IndexerWeights {
    pub wq_b: DenseWeight,
    pub wk: DenseWeight,
    pub weights_proj: DenseWeight,
    pub k_norm_weight: DenseWeight,
    pub k_norm_bias: DenseWeight,
    pub kpool_compress_ape: DenseWeight,
    pub kpool_compress_gate: DenseWeight,
}

/// Sparse-attention weights of one block.
#[derive(Clone, Copy, PartialEq, Eq, Debug)]
pub struct Glm5DsaWeights {
    pub q_a_proj: DenseWeight,
    pub q_a_norm: DenseWeight,
    pub q_b_proj: DenseWeight,
    pub kv_a_proj_with_mqa: DenseWeight,
    pub kv_a_norm: DenseWeight,
    pub kv_b_proj: DenseWeight,
    pub o_proj: DenseWeight,
    pub indexer: Glm5IndexerWeights,
}

/// `end` is `start` with the commands of `trace` recorded, and `result` is
/// what `trace` concluded.
pub open spec fn concludes<T>(
    end: CommandBuffer,
    start: CommandBuffer,
    result: Result<T, WeightError>,
    trace: Trace<T, WeightErrorView>,
) -> bool {
    &&& end.extends(start, trace.steps)
    &&& match trace.outcome {
        Ok(value) => result == Ok::<T, WeightError>(value),
        Err(error) => result is Err && result->Err_0@ == error,
    }
}

/// Nothing recorded, and `error`.
pub open spec fn refused<T>(error: WeightErrorView) -> Trace<T, WeightErrorView> {
    Trace { steps: Seq::empty(), outcome: Err(error) }
}

/// Why `config` is not one that these weights belong to.
pub open spec fn glm_fault(config: ModelConfig) -> Option<WeightErrorView> {
    if !config.is_glm() {
        Some(WeightErrorOf::WrongModelType { model_type: config.model_type@ })
    } else if config.linear_num_key_heads != config.linear_num_value_heads {
        Some(WeightErrorOf::HeadCountsDiffer)
    } else if config.linear_key_head_dim != config.linear_value_head_dim {
        Some(WeightErrorOf::HeadDimsDiffer)
    } else {
        None
    }
}

pub fn require_glm(config: &ModelConfig) -> (result: Result<(), WeightError>)
    ensures
        match glm_fault(*config) {
            None => result is Ok,
            Some(error) => result is Err && result->Err_0@ == error,
        },
{
    if !same_text(&config.model_type, "glm5_next") {
        return Err(WeightErrorOf::WrongModelType { model_type: config.model_type.clone() });
    }
    if config.linear_num_key_heads != config.linear_num_value_heads {
        return Err(WeightErrorOf::HeadCountsDiffer);
    }
    if config.linear_key_head_dim != config.linear_value_head_dim {
        return Err(WeightErrorOf::HeadDimsDiffer);
    }
    Ok(())
}

/// The width of the query, key and value.
pub open spec fn qkv_dim(config: ModelConfig) -> int {
    config.linear_num_key_heads * config.linear_key_head_dim
}

/// The bytes of one convolution kernel.
pub open spec fn conv_bytes(config: ModelConfig) -> int {
    qkv_dim(config) * config.linear_conv_kernel_dim * 2
}

/// The three convolution kernels, packed in the order `[Q | K | V]` after `at`
/// commands of buffer `id`.
pub open spec fn pack_trace(
    weights: Glm5KdaWeights,
    config: ModelConfig,
    id: u64,
    at: nat,
) -> Trace<DenseWeight, WeightErrorView> {
    let bytes = conv_bytes(config);
    let packed = result_ptr(id, at);
    if glm_fault(config) is Some {
        refused(glm_fault(config)->0)
    } else if qkv_dim(config) > usize::MAX {
        refused(WeightErrorOf::KdaQkvOverflow)
    } else if bytes > usize::MAX {
        refused(WeightErrorOf::KdaConvBytesOverflow)
    } else if bytes * 3 > usize::MAX {
        refused(WeightErrorOf::KdaConvSizeOverflow)
    } else {
        Trace {
            steps: seq![
                call(DeviceCall::Alloc { bytes: (bytes * 3) as usize }),
                call(
                    DeviceCall::CopyD2d {
                        src: weights.q_conv1d.weight,
                        dst: packed,
                        bytes: bytes as usize,
                    },
                ),
                call(
                    DeviceCall::CopyD2d {
                        src: weights.k_conv1d.weight,
                        dst: packed.plus(bytes),
                        bytes: bytes as usize,
                    },
                ),
                call(
                    DeviceCall::CopyD2d {
                        src: weights.v_conv1d.weight,
                        dst: packed.plus(bytes * 2),
                        bytes: bytes as usize,
                    },
                ),
            ],
            outcome: Ok(DenseWeight { weight: packed }),
        }
    }
}

impl Glm5KdaWeights {
    /// Pack the three separately named depthwise convolution kernels in the
    /// `[Q | K | V]` channel order that the causal convolution reads.
    pub fn pack_conv1d(&self, config: &ModelConfig, gpu: &mut CommandBuffer) -> (result: Result<
        DenseWeight,
        WeightError,
    >)
        ensures
            concludes(
                *final(gpu),
                *old(gpu),
                result,
                pack_trace(*self, *config, old(gpu).id(), old(gpu)@.len()),
            ),
    {
        let ghost start = *gpu;
        assert(gpu@ =~= start@ + Seq::<CommandView>::empty());
        require_glm(config)?;
        let qkv: usize = match config.linear_num_key_heads.checked_mul(config.linear_key_head_dim) {
            Some(qkv) => qkv,
            None => {
                return Err(WeightErrorOf::KdaQkvOverflow);
            },
        };
        let elements: usize = match qkv.checked_mul(config.linear_conv_kernel_dim) {
            Some(elements) => elements,
            None => {
                return Err(WeightErrorOf::KdaConvBytesOverflow);
            },
        };
        let bytes: usize = match elements.checked_mul(2) {
            Some(bytes) => bytes,
            None => {
                return Err(WeightErrorOf::KdaConvBytesOverflow);
            },
        };
        let total: usize = match bytes.checked_mul(3) {
            Some(total) => total,
            None => {
                return Err(WeightErrorOf::KdaConvSizeOverflow);
            },
        };
        let packed = gpu.call_for_ptr(DeviceCall::Alloc { bytes: total });
        gpu.call(DeviceCall::CopyD2d { src: self.q_conv1d.weight, dst: packed, bytes });
        gpu.call(
            DeviceCall::CopyD2d { src: self.k_conv1d.weight, dst: packed.offset(bytes), bytes },
        );
        gpu.call(
            DeviceCall::CopyD2d { src: self.v_conv1d.weight, dst: packed.offset(bytes * 2), bytes },
        );
        assert(gpu@ =~= start@ + pack_trace(*self, *config, start.id(), start@.len()).steps);
        Ok(DenseWeight { weight: packed })
    }
}

/// A required tensor.
pub open spec fn required(
    prefix: Seq<char>,
    suffix: Seq<char>,
    shape: Seq<usize>,
    keep_f32: bool,
    context: &'static str,
) -> TensorView {
    TensorSpecOf { name: prefix + suffix, shape, keep_f32, context }
}

/// The tensors of a linear-attention block, in load order.
pub open spec fn kda_tensors(layer_prefix: Seq<char>, config: ModelConfig) -> Seq<TensorView> {
    let prefix = layer_prefix + ".self_attn"@;
    let heads = config.linear_num_key_heads;
    let head_dim = config.linear_key_head_dim;
    let qkv = qkv_dim(config) as usize;
    let hidden = config.hidden_size;
    let conv = config.linear_conv_kernel_dim;
    seq![
        required(prefix, ".q_proj.weight"@, seq![qkv, hidden], false, "GLM KDA"),
        required(prefix, ".k_proj.weight"@, seq![qkv, hidden], false, "GLM KDA"),
        required(prefix, ".v_proj.weight"@, seq![qkv, hidden], false, "GLM KDA"),
        required(prefix, ".q_conv1d.weight"@, seq![qkv, 1usize, conv], false, "GLM KDA"),
        required(prefix, ".k_conv1d.weight"@, seq![qkv, 1usize, conv], false, "GLM KDA"),
        required(prefix, ".v_conv1d.weight"@, seq![qkv, 1usize, conv], false, "GLM KDA"),
        required(prefix, ".f_a_proj.weight"@, seq![head_dim, hidden], false, "GLM KDA"),
        required(prefix, ".f_b_proj.weight"@, seq![qkv, head_dim], false, "GLM KDA"),
        required(prefix, ".g_a_proj.weight"@, seq![head_dim, hidden], false, "GLM KDA"),
        required(prefix, ".g_b_proj.weight"@, seq![qkv, head_dim], false, "GLM KDA"),
        required(prefix, ".b_proj.weight"@, seq![heads, hidden], false, "GLM KDA"),
        required(prefix, ".A_log"@, seq![heads], true, "GLM KDA"),
        required(prefix, ".dt_bias"@, seq![qkv], true, "GLM KDA"),
        required(prefix, ".o_norm.weight"@, seq![head_dim], false, "GLM KDA"),
        required(prefix, ".o_proj.weight"@, seq![hidden, qkv], false, "GLM KDA"),
    ]
}

pub open spec fn kda_weights(weights: Seq<DenseWeight>) -> Glm5KdaWeights {
    Glm5KdaWeights {
        q_proj: weights[0],
        k_proj: weights[1],
        v_proj: weights[2],
        q_conv1d: weights[3],
        k_conv1d: weights[4],
        v_conv1d: weights[5],
        f_a_proj: weights[6],
        f_b_proj: weights[7],
        g_a_proj: weights[8],
        g_b_proj: weights[9],
        b_proj: weights[10],
        a_log: weights[11],
        dt_bias: weights[12],
        o_norm: weights[13],
        o_proj: weights[14],
    }
}

/// The weights of a linear-attention block, loaded after `at` commands of
/// buffer `id`.
pub open spec fn kda_trace(
    store: WeightStore,
    layer_prefix: Seq<char>,
    config: ModelConfig,
    id: u64,
    at: nat,
) -> Trace<Glm5KdaWeights, WeightErrorView> {
    if glm_fault(config) is Some {
        refused(glm_fault(config)->0)
    } else if qkv_dim(config) > usize::MAX {
        refused(WeightErrorOf::KdaQkvOverflow)
    } else {
        let loads = load_trace(store, kda_tensors(layer_prefix, config), id, at);
        Trace {
            steps: loads.steps,
            outcome: match loads.outcome {
                Ok(weights) => Ok(kda_weights(weights)),
                Err(error) => Err(error),
            },
        }
    }
}

fn list_kda_tensors(layer_prefix: &String, config: &ModelConfig) -> (list: Vec<TensorSpec>)
    requires
        qkv_dim(*config) <= usize::MAX,
    ensures
        list@.map_values(|tensor: TensorSpec| tensor@) == kda_tensors(layer_prefix@, *config),
{
    let p = joined(layer_prefix.as_str(), ".self_attn");
    let heads: usize = config.linear_num_key_heads;
    let head_dim: usize = config.linear_key_head_dim;
    let qkv: usize = heads * head_dim;
    let hidden: usize = config.hidden_size;
    let conv: usize = config.linear_conv_kernel_dim;
    let list = vec![
        tensor(&p, ".q_proj.weight", vec![qkv, hidden], false, "GLM KDA"),
        tensor(&p, ".k_proj.weight", vec![qkv, hidden], false, "GLM KDA"),
        tensor(&p, ".v_proj.weight", vec![qkv, hidden], false, "GLM KDA"),
        tensor(&p, ".q_conv1d.weight", vec![qkv, 1, conv], false, "GLM KDA"),
        tensor(&p, ".k_conv1d.weight", vec![qkv, 1, conv], false, "GLM KDA"),
        tensor(&p, ".v_conv1d.weight", vec![qkv, 1, conv], false, "GLM KDA"),
        tensor(&p, ".f_a_proj.weight", vec![head_dim, hidden], false, "GLM KDA"),
        tensor(&p, ".f_b_proj.weight", vec![qkv, head_dim], false, "GLM KDA"),
        tensor(&p, ".g_a_proj.weight", vec![head_dim, hidden], false, "GLM KDA"),
        tensor(&p, ".g_b_proj.weight", vec![qkv, head_dim], false, "GLM KDA"),
        tensor(&p, ".b_proj.weight", vec![heads, hidden], false, "GLM KDA"),
        tensor(&p, ".A_log", vec![heads], true, "GLM KDA"),
        tensor(&p, ".dt_bias", vec![qkv], true, "GLM KDA"),
        tensor(&p, ".o_norm.weight", vec![head_dim], false, "GLM KDA"),
        tensor(&p, ".o_proj.weight", vec![hidden, qkv], false, "GLM KDA"),
    ];
    assert(list@.map_values(|tensor: TensorSpec| tensor@) =~~= kda_tensors(layer_prefix@, *config));
    list
}

/// Load and check the weights of a linear-attention block.
pub fn load_glm5_kda(
    store: &WeightStore,
    layer_prefix: &String,
    config: &ModelConfig,
    gpu: &mut CommandBuffer,
) -> (result: Result<Glm5KdaWeights, WeightError>)
    ensures
        concludes(
            *final(gpu),
            *old(gpu),
            result,
            kda_trace(*store, layer_prefix@, *config, old(gpu).id(), old(gpu)@.len()),
        ),
{
    assert(gpu@ =~= gpu@ + Seq::<CommandView>::empty());
    require_glm(config)?;
    if config.linear_num_key_heads.checked_mul(config.linear_key_head_dim).is_none() {
        return Err(WeightErrorOf::KdaQkvOverflow);
    }
    let list = list_kda_tensors(layer_prefix, config);
    match load_tensors(store, &list, gpu) {
        Ok(weights) => Ok(
            Glm5KdaWeights {
                q_proj: weights[0],
                k_proj: weights[1],
                v_proj: weights[2],
                q_conv1d: weights[3],
                k_conv1d: weights[4],
                v_conv1d: weights[5],
                f_a_proj: weights[6],
                f_b_proj: weights[7],
                g_a_proj: weights[8],
                g_b_proj: weights[9],
                b_proj: weights[10],
                a_log: weights[11],
                dt_bias: weights[12],
                o_norm: weights[13],
                o_proj: weights[14],
            },
        ),
        Err(error) => Err(error),
    }
}

/// The rows of the query up-projection.
pub open spec fn q_rows(config: ModelConfig) -> int {
    config.num_attention_heads * config.head_dim
}

/// The rows of the key/value up-projection.
pub open spec fn kv_rows(config: ModelConfig) -> int {
    config.num_key_value_heads * (config.qk_nope_head_dim + config.v_head_dim)
}

/// The width of the index query.
pub open spec fn index_width(config: ModelConfig) -> int {
    config.index_n_heads * config.index_head_dim
}

/// Why the sparse-attention tensors cannot be named for `config`.
pub open spec fn dsa_fault(config: ModelConfig) -> Option<WeightErrorView> {
    if glm_fault(config) is Some {
        glm_fault(config)
    } else if q_rows(config) > usize::MAX {
        Some(WeightErrorOf::DsaQueryOverflow)
    } else if config.qk_nope_head_dim + config.v_head_dim > usize::MAX || kv_rows(config)
        > usize::MAX {
        Some(WeightErrorOf::DsaKvOverflow)
    } else {
        None
    }
}

fn require_dsa(config: &ModelConfig) -> (result: Result<(), WeightError>)
    ensures
        match dsa_fault(*config) {
            None => result is Ok,
            Some(error) => result is Err && result->Err_0@ == error,
        },
{
    require_glm(config)?;
    if config.num_attention_heads.checked_mul(config.head_dim).is_none() {
        return Err(WeightErrorOf::DsaQueryOverflow);
    }
    let per_head: usize = match config.qk_nope_head_dim.checked_add(config.v_head_dim) {
        Some(per_head) => per_head,
        None => {
            return Err(WeightErrorOf::DsaKvOverflow);
        },
    };
    if config.num_key_value_heads.checked_mul(per_head).is_none() {
        return Err(WeightErrorOf::DsaKvOverflow);
    }
    Ok(())
}

/// Where the sparse-attention tensors can be named, the width of the index
/// query is a size.
pub open spec fn index_fits(config: ModelConfig) -> bool {
    dsa_fault(config) is None ==> index_width(config) <= usize::MAX
}

/// Whether [`load_glm5_dsa`] can be called with `config`.
pub fn index_in_range(config: &ModelConfig) -> (ok: bool)
    ensures
        ok == index_fits(*config),
{
    match require_dsa(config) {
        Ok(()) => config.index_n_heads.checked_mul(config.index_head_dim).is_some(),
        Err(_) => true,
    }
}

/// The tensors of a sparse-attention block, in load order.
pub open spec fn dsa_tensors(layer_prefix: Seq<char>, config: ModelConfig) -> Seq<TensorView> {
    let prefix = layer_prefix + ".self_attn"@;
    let index = prefix + ".indexer"@;
    let hidden = config.hidden_size;
    let q_lora = config.q_lora_rank;
    let kv_lora = config.kv_lora_rank;
    let q_rows = q_rows(config) as usize;
    let kv_rows = kv_rows(config) as usize;
    let index_heads = config.index_n_heads;
    let index_dim = config.index_head_dim;
    let index_width = index_width(config) as usize;
    let kpool = config.index_kpool;
    seq![
        required(prefix, ".q_a_proj.weight"@, seq![q_lora, hidden], false, "GLM DSA"),
        required(prefix, ".q_a_layernorm.weight"@, seq![q_lora], false, "GLM DSA"),
        required(prefix, ".q_b_proj.weight"@, seq![q_rows, q_lora], false, "GLM DSA"),
        required(prefix, ".kv_a_proj_with_mqa.weight"@, seq![kv_lora, hidden], false, "GLM DSA"),
        required(prefix, ".kv_a_layernorm.weight"@, seq![kv_lora], false, "GLM DSA"),
        required(prefix, ".kv_b_proj.weight"@, seq![kv_rows, kv_lora], false, "GLM DSA"),
        required(prefix, ".o_proj.weight"@, seq![hidden, q_rows], false, "GLM DSA"),
        required(index, ".wq_b.weight"@, seq![index_width, q_lora], false, "GLM IndexPool"),
        required(index, ".wk.weight"@, seq![index_dim, hidden], false, "GLM IndexPool"),
        required(index, ".weights_proj.weight"@, seq![index_heads, hidden], false, "GLM IndexPool"),
        required(index, ".k_norm.weight"@, seq![index_dim], false, "GLM IndexPool"),
        required(index, ".k_norm.bias"@, seq![index_dim], false, "GLM IndexPool"),
        required(
            index,
            ".index_kpool_compress_ape.weight"@,
            seq![kpool, index_dim],
            false,
            "GLM IndexPool",
        ),
        required(
            index,
            ".index_kpool_compress_gate.weight"@,
            seq![index_dim, hidden],
            false,
            "GLM IndexPool",
        ),
    ]
}

pub open spec fn dsa_weights(weights: Seq<DenseWeight>) -> Glm5DsaWeights {
    Glm5DsaWeights {
        q_a_proj: weights[0],
        q_a_norm: weights[1],
        q_b_proj: weights[2],
        kv_a_proj_with_mqa: weights[3],
        kv_a_norm: weights[4],
        kv_b_proj: weights[5],
        o_proj: weights[6],
        indexer: Glm5IndexerWeights {
            wq_b: weights[7],
            wk: weights[8],
            weights_proj: weights[9],
            k_norm_weight: weights[10],
            k_norm_bias: weights[11],
            kpool_compress_ape: weights[12],
            kpool_compress_gate: weights[13],
        },
    }
}

/// The weights of a sparse-attention block, loaded after `at` commands of
/// buffer `id`.
pub open spec fn dsa_trace(
    store: WeightStore,
    layer_prefix: Seq<char>,
    config: ModelConfig,
    id: u64,
    at: nat,
) -> Trace<Glm5DsaWeights, WeightErrorView> {
    match dsa_fault(config) {
        Some(error) => refused(error),
        None => {
            let loads = load_trace(store, dsa_tensors(layer_prefix, config), id, at);
            Trace {
                steps: loads.steps,
                outcome: match loads.outcome {
                    Ok(weights) => Ok(dsa_weights(weights)),
                    Err(error) => Err(error),
                },
            }
        },
    }
}

fn list_dsa_tensors(layer_prefix: &String, config: &ModelConfig) -> (list: Vec<TensorSpec>)
    requires
        dsa_fault(*config) is None,
        index_width(*config) <= usize::MAX,
    ensures
        list@.map_values(|tensor: TensorSpec| tensor@) == dsa_tensors(layer_prefix@, *config),
{
    let p = joined(layer_prefix.as_str(), ".self_attn");
    let index = joined(p.as_str(), ".indexer");
    let hidden: usize = config.hidden_size;
    let q_lora: usize = config.q_lora_rank;
    let kv_lora: usize = config.kv_lora_rank;
    let q_rows: usize = config.num_attention_heads * config.head_dim;
    let kv_rows: usize = config.num_key_value_heads * (config.qk_nope_head_dim + config.v_head_dim);
    let index_heads: usize = config.index_n_heads;
    let index_dim: usize = config.index_head_dim;
    let index_width: usize = index_heads * index_dim;
    let kpool: usize = config.index_kpool;
    let list = vec![
        tensor(&p, ".q_a_proj.weight", vec![q_lora, hidden], false, "GLM DSA"),
        tensor(&p, ".q_a_layernorm.weight", vec![q_lora], false, "GLM DSA"),
        tensor(&p, ".q_b_proj.weight", vec![q_rows, q_lora], false, "GLM DSA"),
        tensor(&p, ".kv_a_proj_with_mqa.weight", vec![kv_lora, hidden], false, "GLM DSA"),
        tensor(&p, ".kv_a_layernorm.weight", vec![kv_lora], false, "GLM DSA"),
        tensor(&p, ".kv_b_proj.weight", vec![kv_rows, kv_lora], false, "GLM DSA"),
        tensor(&p, ".o_proj.weight", vec![hidden, q_rows], false, "GLM DSA"),
        tensor(&index, ".wq_b.weight", vec![index_width, q_lora], false, "GLM IndexPool"),
        tensor(&index, ".wk.weight", vec![index_dim, hidden], false, "GLM IndexPool"),
        tensor(&index, ".weights_proj.weight", vec![index_heads, hidden], false, "GLM IndexPool"),
        tensor(&index, ".k_norm.weight", vec![index_dim], false, "GLM IndexPool"),
        tensor(&index, ".k_norm.bias", vec![index_dim], false, "GLM IndexPool"),
        tensor(
            &index,
            ".index_kpool_compress_ape.weight",
            vec![kpool, index_dim],
            false,
            "GLM IndexPool",
        ),
        tensor(
            &index,
            ".index_kpool_compress_gate.weight",
            vec![index_dim, hidden],
            false,
            "GLM IndexPool",
        ),
    ];
    assert(list@.map_values(|tensor: TensorSpec| tensor@) =~~= dsa_tensors(layer_prefix@, *config));
    list
}

/// Load and check the weights of a sparse-attention block.
pub fn load_glm5_dsa(
    store: &WeightStore,
    layer_prefix: &String,
    config: &ModelConfig,
    gpu: &mut CommandBuffer,
) -> (result: Result<Glm5DsaWeights, WeightError>)
    requires
        index_fits(*config),
    ensures
        concludes(
            *final(gpu),
            *old(gpu),
            result,
            dsa_trace(*store, layer_prefix@, *config, old(gpu).id(), old(gpu)@.len()),
        ),
{
    assert(gpu@ =~= gpu@ + Seq::<CommandView>::empty());
    require_dsa(config)?;
    let list = list_dsa_tensors(layer_prefix, config);
    match load_tensors(store, &list, gpu) {
        Ok(weights) => Ok(
            Glm5DsaWeights {
                q_a_proj: weights[0],
                q_a_norm: weights[1],
                q_b_proj: weights[2],
                kv_a_proj_with_mqa: weights[3],
                kv_a_norm: weights[4],
                kv_b_proj: weights[5],
                o_proj: weights[6],
                indexer: Glm5IndexerWeights {
                    wq_b: weights[7],
                    wk: weights[8],
                    weights_proj: weights[9],
                    k_norm_weight: weights[10],
                    k_norm_bias: weights[11],
                    kpool_compress_ape: weights[12],
                    kpool_compress_gate: weights[13],
                },
            },
        ),
        Err(error) => Err(error),
    }
}

} // verus!
