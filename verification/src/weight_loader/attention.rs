//! Hyper-connections and sparse-attention layers.
use vstd::prelude::*;

use crate::config::ModelConfig;
use crate::device::{
    call, lemma_extends_twice, null_ptr, result_part, result_ptr, AttentionWeights, CommandBuffer,
    CommandOf, CommandView, DenseWeight, DeviceCall, DevicePtr, FfnComponent, Float32, KvCacheDtype,
    Origin, QuantizedWeight, Trace,
};
use crate::layers::mla_decode::Qwen3AttentionLayer;
use crate::layers::{HcSiteWeights, HcWeights, MlaWeights};
use crate::tensors::{
    copy_shape, lemma_all_sound, sound_prefix, WeightError, WeightErrorOf, WeightErrorView,
    WeightStore,
};
use crate::text::{decimal, decimal_text, joined};
use crate::weight_loader::ffn::{dense_at, load, load_dense, null_dense, null_weight};
use crate::weight_map::{
    concludes, dsa_tensors, dsa_trace, index_fits, load_glm5_dsa, Glm5DsaWeights,
};
use vstd::string::StringExecFns;

verus! {

/// One, as a single-precision float.
pub const ONE_BITS: u32 = 0x3f80_0000;

/// The prefix of the tensors of layer `layer_idx`.
pub open spec fn layer_prefix(layer_idx: nat) -> Seq<char> {
    "model.language_model.layers."@ + decimal(layer_idx)
}

pub fn layer_prefix_text(layer_idx: usize) -> (prefix: String)
    ensures
        prefix@ == layer_prefix(layer_idx as nat),
{
    let number = decimal_text(layer_idx);
    joined("model.language_model.layers.", number.as_str())
}

/// The outputs of one hyper-connection mix.
pub open spec fn hc_mix(config: ModelConfig) -> int {
    (2 + config.hc_mult) * config.hc_mult
}

/// The width of the residual streams.
pub open spec fn hc_dim(config: ModelConfig) -> int {
    config.hc_mult * config.hidden_size
}

/// Whether the hyper-connection sizes are sizes at all.
pub open spec fn hc_fits(config: ModelConfig) -> bool {
    &&& hc_dim(config) <= usize::MAX
    &&& 2 + config.hc_mult <= usize::MAX
    &&& hc_mix(config) <= usize::MAX
    &&& hc_mix(config) * hc_dim(config) <= usize::MAX
}

/// Whether [`load_hc`] can be called with `config`.
pub fn hc_in_range(config: &ModelConfig) -> (ok: bool)
    ensures
        ok == hc_fits(*config),
{
    let dim: usize = match config.hc_mult.checked_mul(config.hidden_size) {
        Some(dim) => dim,
        None => {
            return false;
        },
    };
    let rows: usize = match config.hc_mult.checked_add(2) {
        Some(rows) => rows,
        None => {
            return false;
        },
    };
    match rows.checked_mul(config.hc_mult) {
        Some(mix) => mix.checked_mul(dim).is_some(),
        None => false,
    }
}

/// The name of a tensor of site `site`.
pub open spec fn site_name(prefix: Seq<char>, site: Seq<char>, part: Seq<char>) -> Seq<char> {
    prefix + ".hc_"@ + site + part
}

pub open spec fn hc_site_steps(
    prefix: Seq<char>,
    site: Seq<char>,
    config: ModelConfig,
) -> Seq<CommandView> {
    seq![
        CommandOf::LoadHcF32 {
            name: site_name(prefix, site, "_fn"@),
            elements: (hc_mix(config) * hc_dim(config)) as usize,
        },
        CommandOf::LoadHcF32 {
            name: site_name(prefix, site, "_base"@),
            elements: hc_mix(config) as usize,
        },
        CommandOf::LoadHcF32 { name: site_name(prefix, site, "_scale"@), elements: 3 },
    ]
}

pub open spec fn hc_site_at(id: u64, at: nat) -> HcSiteWeights {
    HcSiteWeights {
        hc_fn: result_ptr(id, at),
        hc_base: result_ptr(id, at + 1),
        hc_scale: result_ptr(id, at + 2),
    }
}

fn load_hc_f32(
    prefix: &String,
    site: &str,
    part: &str,
    elements: usize,
    gpu: &mut CommandBuffer,
) -> (ptr: DevicePtr)
    ensures
        ptr == result_ptr(old(gpu).id(), old(gpu)@.len()),
        final(gpu).extends(
            *old(gpu),
            seq![CommandOf::LoadHcF32 { name: site_name(prefix@, site@, part@), elements }],
        ),
{
    let mut name = joined(prefix.as_str(), ".hc_");
    name.append(site);
    name.append(part);
    gpu.record_for_ptr(CommandOf::LoadHcF32 { name, elements })
}

/// Load the hyper-connection tensors of one site.
pub fn load_hc_site(
    prefix: &String,
    site: &str,
    config: &ModelConfig,
    gpu: &mut CommandBuffer,
) -> (weights: HcSiteWeights)
    requires
        hc_fits(*config),
    ensures
        weights == hc_site_at(old(gpu).id(), old(gpu)@.len()),
        final(gpu).extends(*old(gpu), hc_site_steps(prefix@, site@, *config)),
{
    let ghost start = *gpu;
    let dim: usize = config.hc_mult * config.hidden_size;
    let mix: usize = (2 + config.hc_mult) * config.hc_mult;
    let hc_fn = load_hc_f32(prefix, site, "_fn", mix * dim, gpu);
    let hc_base = load_hc_f32(prefix, site, "_base", mix, gpu);
    let hc_scale = load_hc_f32(prefix, site, "_scale", 3, gpu);
    assert(gpu@ =~= start@ + hc_site_steps(prefix@, site@, *config));
    HcSiteWeights { hc_fn, hc_base, hc_scale }
}

pub open spec fn hc_steps(prefix: Seq<char>, config: ModelConfig) -> Seq<CommandView> {
    hc_site_steps(prefix, "attn"@, config) + hc_site_steps(prefix, "ffn"@, config)
}

/// The hyper-connection that `hc_steps` produces. The streams of the last
/// layer are averaged: there is no head.
pub open spec fn hc_at(config: ModelConfig, id: u64, at: nat) -> HcWeights {
    HcWeights {
        attn: hc_site_at(id, at),
        ffn: hc_site_at(id, at + 3),
        head: None,
        hc_mult: config.hc_mult,
        sinkhorn_iters: config.hc_sinkhorn_iters,
        hc_eps: config.hc_eps,
        final_mean: true,
    }
}

/// Load the hyper-connection of one layer.
pub fn load_hc(prefix: &String, config: &ModelConfig, gpu: &mut CommandBuffer) -> (weights:
    HcWeights)
    requires
        hc_fits(*config),
    ensures
        weights == hc_at(*config, old(gpu).id(), old(gpu)@.len()),
        final(gpu).extends(*old(gpu), hc_steps(prefix@, *config)),
{
    let ghost start = *gpu;
    let attn = load_hc_site(prefix, "attn", config, gpu);
    let ffn = load_hc_site(prefix, "ffn", config, gpu);
    assert(gpu@ =~= start@ + hc_steps(prefix@, *config));
    HcWeights {
        attn,
        ffn,
        head: None,
        hc_mult: config.hc_mult,
        sinkhorn_iters: config.hc_sinkhorn_iters,
        hc_eps: config.hc_eps,
        final_mean: true,
    }
}

/// Weights computed from the query and key/value up-projections.
#[derive(Clone, Copy, PartialEq, Eq, Debug)]
pub struct AbsorbedViews {
    pub w_uk_t: DenseWeight,
    pub w_uv: DenseWeight,
    pub wq_b_rope: DenseWeight,
    pub w_qk_absorbed: DenseWeight,
    pub w_uk_block_diag: DenseWeight,
    pub w_uv_block_diag: DenseWeight,
}

pub open spec fn part_at(id: u64, command: nat, part: u8) -> DenseWeight {
    DenseWeight { weight: result_part(id, command, part) }
}

pub open spec fn views_at(id: u64, at: nat) -> AbsorbedViews {
    AbsorbedViews {
        w_uk_t: part_at(id, at, 0),
        w_uv: part_at(id, at, 1),
        wq_b_rope: part_at(id, at, 2),
        w_qk_absorbed: dense_at(id, at + 1),
        w_uk_block_diag: part_at(id, at + 2, 0),
        w_uv_block_diag: part_at(id, at + 2, 1),
    }
}

pub open spec fn view_steps(
    dsa: Glm5DsaWeights,
    q_b_shape: Seq<usize>,
    kv_b_shape: Seq<usize>,
    id: u64,
    at: nat,
) -> Seq<CommandView> {
    seq![
        CommandOf::PerHeadViews {
            kv_b: dsa.kv_b_proj,
            kv_b_shape,
            q_b: dsa.q_b_proj,
            q_b_shape,
        },
        CommandOf::QkAbsorbed { q_b: dsa.q_b_proj, q_b_shape, w_uk_t: part_at(id, at, 0) },
        call(
            DeviceCall::BlockDiagonals {
                w_uk_host: result_part(id, at, 3),
                w_uv: part_at(id, at, 1),
            },
        ),
    ]
}

fn part_of(ptr: DevicePtr, part: u8) -> (weight: DenseWeight)
    requires
        ptr.origin is Result,
    ensures
        weight.weight.bytes == ptr.bytes,
        weight.weight.origin == (Origin::Result {
            buffer: ptr.origin->buffer,
            command: ptr.origin->command,
            part,
        }),
{
    match ptr.origin {
        Origin::Result { buffer, command, .. } => DenseWeight {
            weight: DevicePtr {
                origin: Origin::Result { buffer, command, part },
                bytes: ptr.bytes,
            },
        },
        Origin::Absolute => DenseWeight { weight: ptr },
    }
}

fn load_views(
    dsa: &Glm5DsaWeights,
    q_b_shape: &Vec<usize>,
    kv_b_shape: &Vec<usize>,
    gpu: &mut CommandBuffer,
) -> (views: AbsorbedViews)
    ensures
        views == views_at(old(gpu).id(), old(gpu)@.len()),
        final(gpu).extends(
            *old(gpu),
            view_steps(*dsa, q_b_shape@, kv_b_shape@, old(gpu).id(), old(gpu)@.len()),
        ),
{
    let ghost start = *gpu;
    let per_head = gpu.record_for_ptr(
        CommandOf::PerHeadViews {
            kv_b: dsa.kv_b_proj,
            kv_b_shape: copy_shape(kv_b_shape),
            q_b: dsa.q_b_proj,
            q_b_shape: copy_shape(q_b_shape),
        },
    );
    let w_uk_t = DenseWeight { weight: per_head };
    let w_uv = part_of(per_head, 1);
    let absorbed = gpu.record_for_ptr(
        CommandOf::QkAbsorbed { q_b: dsa.q_b_proj, q_b_shape: copy_shape(q_b_shape), w_uk_t },
    );
    let w_uk_host = part_of(per_head, 3).weight;
    let diagonals = gpu.call_for_ptr(DeviceCall::BlockDiagonals { w_uk_host, w_uv });
    assert(gpu@ =~= start@ + view_steps(
        *dsa,
        q_b_shape@,
        kv_b_shape@,
        start.id(),
        start@.len(),
    ));
    AbsorbedViews {
        w_uk_t,
        w_uv,
        wq_b_rope: part_of(per_head, 2),
        w_qk_absorbed: DenseWeight { weight: absorbed },
        w_uk_block_diag: DenseWeight { weight: diagonals },
        w_uv_block_diag: part_of(diagonals, 1),
    }
}

/// Latent-attention weights without a rotary part.
pub open spec fn mla_weights(
    dsa: Glm5DsaWeights,
    views: AbsorbedViews,
    config: ModelConfig,
) -> MlaWeights {
    MlaWeights {
        glm_indexer: Some(dsa.indexer),
        wq_a: dsa.q_a_proj,
        wq_a_nvfp4: None,
        wq_a_fp8: None,
        wq_b: dsa.q_b_proj,
        wq_b_nvfp4: None,
        wq_b_fp8: None,
        q_a_norm: dsa.q_a_norm,
        wkv_a: dsa.kv_a_proj_with_mqa,
        wkv_a_nvfp4: None,
        wkv_a_fp8: None,
        wkv_b: dsa.kv_b_proj,
        kv_a_norm: dsa.kv_a_norm,
        wkv_a_rope: null_weight(),
        wkv_a_merged: null_weight(),
        wo: dsa.o_proj,
        wo_nvfp4: None,
        wo_a: null_weight(),
        wo_a_nvfp4: None,
        wo_a_fp8: None,
        wo_b: null_weight(),
        wo_b_nvfp4: None,
        wo_b_fp8: None,
        w_uk_t: views.w_uk_t,
        w_uv: views.w_uv,
        wq_b_rope: views.wq_b_rope,
        w_qk_absorbed: views.w_qk_absorbed,
        w_uk_block_diag: views.w_uk_block_diag,
        w_uv_block_diag: views.w_uv_block_diag,
        yarn_inv_freq: null_ptr(),
        main_inv_freq: null_ptr(),
        q_lora_rank: config.q_lora_rank,
        kv_lora_rank: config.kv_lora_rank,
        o_lora_rank: 0,
        nope: config.qk_nope_head_dim,
        rope: 0,
        v_dim: config.v_head_dim,
        compressor: None,
        attn_sink: null_ptr(),
    }
}

fn assemble_mla(
    dsa: Glm5DsaWeights,
    views: AbsorbedViews,
    config: &ModelConfig,
) -> (mla: MlaWeights)
    ensures
        mla == mla_weights(dsa, views, *config),
{
    MlaWeights {
        glm_indexer: Some(dsa.indexer),
        wq_a: dsa.q_a_proj,
        wq_a_nvfp4: None,
        wq_a_fp8: None,
        wq_b: dsa.q_b_proj,
        wq_b_nvfp4: None,
        wq_b_fp8: None,
        q_a_norm: dsa.q_a_norm,
        wkv_a: dsa.kv_a_proj_with_mqa,
        wkv_a_nvfp4: None,
        wkv_a_fp8: None,
        wkv_b: dsa.kv_b_proj,
        kv_a_norm: dsa.kv_a_norm,
        wkv_a_rope: null_dense(),
        wkv_a_merged: null_dense(),
        wo: dsa.o_proj,
        wo_nvfp4: None,
        wo_a: null_dense(),
        wo_a_nvfp4: None,
        wo_a_fp8: None,
        wo_b: null_dense(),
        wo_b_nvfp4: None,
        wo_b_fp8: None,
        w_uk_t: views.w_uk_t,
        w_uv: views.w_uv,
        wq_b_rope: views.wq_b_rope,
        w_qk_absorbed: views.w_qk_absorbed,
        w_uk_block_diag: views.w_uk_block_diag,
        w_uv_block_diag: views.w_uv_block_diag,
        yarn_inv_freq: DevicePtr::null(),
        main_inv_freq: DevicePtr::null(),
        q_lora_rank: config.q_lora_rank,
        kv_lora_rank: config.kv_lora_rank,
        o_lora_rank: 0,
        nope: config.qk_nope_head_dim,
        rope: 0,
        v_dim: config.v_head_dim,
        compressor: None,
        attn_sink: DevicePtr::null(),
    }
}

/// The conventional projections of a latent-attention layer: there are none,
/// and both cache scales are one.
pub open spec fn no_projections() -> AttentionWeights {
    AttentionWeights {
        q_proj: null_weight(),
        k_proj: null_weight(),
        v_proj: null_weight(),
        o_proj: QuantizedWeight { weight: null_ptr() },
        q_norm: null_weight(),
        k_norm: null_weight(),
        q_norm_full: None,
        k_norm_full: None,
        k_scale: Float32::Bits(ONE_BITS),
        v_scale: Float32::Bits(ONE_BITS),
    }
}

/// A sparse-attention layer: the runtime's attention layer and what is set on
/// it.
#[derive(Clone, Copy, PartialEq, Eq, Debug)]
pub struct DsaLayer {
    pub attention: DevicePtr,
    pub physical_layer_idx: usize,
    pub attn_layer_idx: usize,
    pub mla: MlaWeights,
    pub hc: HcWeights,
}

impl DsaLayer {
    /// The attention layer that decodes with what was loaded: the kernels of the
    /// runtime's layer, the weights, and the number of the cache to use.
    #[verifier::allow_in_spec]
    pub fn decoder(&self, runtime: &Qwen3AttentionLayer) -> Qwen3AttentionLayer
        returns
            (Qwen3AttentionLayer {
                mla: Some(self.mla),
                attn_layer_idx: self.attn_layer_idx,
                ..*runtime
            }),
    {
        Qwen3AttentionLayer {
            mla: Some(self.mla),
            attn_layer_idx: self.attn_layer_idx,
            ..*runtime
        }
    }
}

/// What follows once the sparse-attention weights are loaded.
pub open spec fn attention_steps(
    store: WeightStore,
    prefix: Seq<char>,
    dsa: Glm5DsaWeights,
    config: ModelConfig,
    attn_layer_idx: usize,
    ffn: FfnComponent,
    id: u64,
    at: nat,
) -> Seq<CommandView> {
    let projections = prefix + ".self_attn"@;
    view_steps(
        dsa,
        store.shape(projections + ".q_b_proj.weight"@)->0,
        store.shape(projections + ".kv_b_proj.weight"@)->0,
        id,
        at,
    ) + seq![
        load(prefix + ".input_layernorm.weight"@),
        load(prefix + ".post_attention_layernorm.weight"@),
        call(
            DeviceCall::NewUngatedAttention {
                input_norm: dense_at(id, at + 3),
                attention: no_projections(),
                post_norm: dense_at(id, at + 4),
                ffn,
                attn_layer_idx,
                kv_dtype: KvCacheDtype::Bf16,
            },
        ),
    ] + hc_steps(prefix, config)
}

/// The layer that `attention_steps` produces.
pub open spec fn dsa_layer_at(
    dsa: Glm5DsaWeights,
    config: ModelConfig,
    layer_idx: usize,
    attn_layer_idx: usize,
    id: u64,
    at: nat,
) -> DsaLayer {
    DsaLayer {
        attention: result_ptr(id, at + 5),
        physical_layer_idx: layer_idx,
        attn_layer_idx,
        mla: mla_weights(dsa, views_at(id, at), config),
        hc: hc_at(config, id, at + 6),
    }
}

/// A sparse-attention layer loaded after `at` commands of buffer `id`.
pub open spec fn dsa_layer_trace(
    store: WeightStore,
    prefix: Seq<char>,
    config: ModelConfig,
    layer_idx: usize,
    attn_layer_idx: usize,
    ffn: FfnComponent,
    id: u64,
    at: nat,
) -> Trace<DsaLayer, WeightErrorView> {
    let loads = dsa_trace(store, prefix, config, id, at);
    let next = at + loads.steps.len();
    match loads.outcome {
        Err(error) => Trace { steps: loads.steps, outcome: Err(error) },
        Ok(dsa) => Trace {
            steps: loads.steps + attention_steps(
                store,
                prefix,
                dsa,
                config,
                attn_layer_idx,
                ffn,
                id,
                next,
            ),
            outcome: Ok(dsa_layer_at(dsa, config, layer_idx, attn_layer_idx, id, next)),
        },
    }
}

fn load_attention(
    store: &WeightStore,
    prefix: &String,
    dsa: Glm5DsaWeights,
    q_b_shape: &Vec<usize>,
    kv_b_shape: &Vec<usize>,
    config: &ModelConfig,
    layer_idx: usize,
    attn_layer_idx: usize,
    ffn: FfnComponent,
    gpu: &mut CommandBuffer,
) -> (layer: DsaLayer)
    requires
        hc_fits(*config),
        store.shape(prefix@ + ".self_attn"@ + ".q_b_proj.weight"@) == Some(q_b_shape@),
        store.shape(prefix@ + ".self_attn"@ + ".kv_b_proj.weight"@) == Some(kv_b_shape@),
    ensures
        layer == dsa_layer_at(
            dsa,
            *config,
            layer_idx,
            attn_layer_idx,
            old(gpu).id(),
            old(gpu)@.len(),
        ),
        final(gpu).extends(
            *old(gpu),
            attention_steps(
                *store,
                prefix@,
                dsa,
                *config,
                attn_layer_idx,
                ffn,
                old(gpu).id(),
                old(gpu)@.len(),
            ),
        ),
{
    let ghost start = *gpu;
    let views = load_views(&dsa, q_b_shape, kv_b_shape, gpu);
    let mla = assemble_mla(dsa, views, config);
    let input_norm = load_dense(prefix, ".input_layernorm.weight", gpu);
    let post_norm = load_dense(prefix, ".post_attention_layernorm.weight", gpu);
    let attention = AttentionWeights {
        q_proj: null_dense(),
        k_proj: null_dense(),
        v_proj: null_dense(),
        o_proj: QuantizedWeight::null(),
        q_norm: null_dense(),
        k_norm: null_dense(),
        q_norm_full: None,
        k_norm_full: None,
        k_scale: Float32::Bits(ONE_BITS),
        v_scale: Float32::Bits(ONE_BITS),
    };
    let attention = gpu.call_for_ptr(
        DeviceCall::NewUngatedAttention {
            input_norm,
            attention,
            post_norm,
            ffn,
            attn_layer_idx,
            kv_dtype: KvCacheDtype::Bf16,
        },
    );
    let hc = load_hc(prefix, config, gpu);
    assert(gpu@ =~= start@ + attention_steps(
        *store,
        prefix@,
        dsa,
        *config,
        attn_layer_idx,
        ffn,
        start.id(),
        start@.len(),
    ));
    DsaLayer { attention, physical_layer_idx: layer_idx, attn_layer_idx, mla, hc }
}

/// Load a sparse-attention layer.
pub fn load_dsa_layer(
    store: &WeightStore,
    config: &ModelConfig,
    layer_idx: usize,
    attn_layer_idx: usize,
    ffn: FfnComponent,
    gpu: &mut CommandBuffer,
) -> (result: Result<DsaLayer, WeightError>)
    requires
        index_fits(*config),
        hc_fits(*config),
    ensures
        concludes(
            *final(gpu),
            *old(gpu),
            result,
            dsa_layer_trace(
                *store,
                layer_prefix(layer_idx as nat),
                *config,
                layer_idx,
                attn_layer_idx,
                ffn,
                old(gpu).id(),
                old(gpu)@.len(),
            ),
        ),
{
    let ghost start = *gpu;
    let prefix = layer_prefix_text(layer_idx);
    let dsa = load_glm5_dsa(store, &prefix, config, gpu)?;
    let ghost middle = *gpu;
    let projections = joined(prefix.as_str(), ".self_attn");
    let q_b = joined(projections.as_str(), ".q_b_proj.weight");
    let kv_b = joined(projections.as_str(), ".kv_b_proj.weight");
    proof {
        lemma_loaded_shapes(*store, layer_prefix(layer_idx as nat), *config);
    }
    let q_b_shape = match store.get(&q_b) {
        Some(shape) => shape,
        None => {
            return Err(WeightErrorOf::MissingTensor { name: q_b });
        },
    };
    let kv_b_shape = match store.get(&kv_b) {
        Some(shape) => shape,
        None => {
            return Err(WeightErrorOf::MissingTensor { name: kv_b });
        },
    };
    let layer = load_attention(
        store,
        &prefix,
        dsa,
        q_b_shape,
        kv_b_shape,
        config,
        layer_idx,
        attn_layer_idx,
        ffn,
        gpu,
    );
    proof {
        let trace = dsa_trace(
            *store,
            layer_prefix(layer_idx as nat),
            *config,
            start.id(),
            start@.len(),
        );
        lemma_extends_twice(
            start,
            middle,
            *gpu,
            trace.steps,
            attention_steps(
                *store,
                layer_prefix(layer_idx as nat),
                dsa,
                *config,
                attn_layer_idx,
                ffn,
                start.id(),
                start@.len() + trace.steps.len(),
            ),
        );
    }
    Ok(layer)
}

/// Both up-projections are stored once the block's tensors are all sound.
proof fn lemma_loaded_shapes(store: WeightStore, prefix: Seq<char>, config: ModelConfig)
    requires
        sound_prefix(store, dsa_tensors(prefix, config)) >= dsa_tensors(prefix, config).len(),
    ensures
        store.shape(prefix + ".self_attn"@ + ".q_b_proj.weight"@) is Some,
        store.shape(prefix + ".self_attn"@ + ".kv_b_proj.weight"@) is Some,
{
    let list = dsa_tensors(prefix, config);
    lemma_all_sound(store, list, 2);
    lemma_all_sound(store, list, 5);
}

} // verus!
