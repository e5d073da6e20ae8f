//! The weights of a whole model.
//!
//! Every layer has two norms, a feed-forward block and a token mixer: linear
//! attention, or latent attention whose keys an index pool selects.
use vstd::prelude::*;

use crate::config::{layers_of, LayerType, ModelConfig};
use crate::device::{
    call, lemma_extends_twice, result_kernel, result_ptr, CommandBuffer, CommandOf, CommandView,
    DenseWeight, DeviceCall, DevicePtr, FfnComponent, Trace,
};
use crate::layers::kda::{new_layer_trace, Glm5KdaLayer, KdaError};
use crate::tensors::{WeightError, WeightErrorView, WeightStore};
use crate::text::{joined, same_text};
use crate::weight_loader::attention::{
    dsa_layer_trace, hc_at, hc_fits, hc_in_range, hc_steps, layer_prefix, layer_prefix_text,
    load_dsa_layer, load_hc, DsaLayer,
};
use crate::weight_loader::ffn::{
    dense_at, dense_ffn_steps, load, load_dense, load_dense_ffn, load_moe, moe_steps, Quantizer,
};
use crate::weight_map::{
    index_fits, index_in_range, kda_trace, load_glm5_kda, pack_trace, Glm5KdaWeights,
};

pub mod attention;
pub mod ffn;
pub mod laws;
pub mod model_origins;
pub mod origins;

verus! {

pub const VISION_NOT_ATTACHED: &'static str = "GLM-5.3-Flash vision tower detected but not attached: Conv3D patching, 2D RoPE/RMSNorm-QK attention, and the gated downsample merger need a GLM-specific runtime. Image/video requests will be rejected; text-only generation remains available.";

/// The bytes of recurrent state that a linear-attention layer keeps.
#[derive(Clone, Copy, PartialEq, Eq, Debug)]
pub struct StateBytes {
    pub h_state: usize,
    pub conv_state: usize,
}

/// A decoder layer.
#[derive(Clone, Copy, PartialEq, Eq, Debug)]
pub enum TransformerLayer {
    Kda(Glm5KdaLayer),
    Dsa(DsaLayer),
}

/// Why a model could not be loaded; `W` is a fault of the stored weights.
#[derive(PartialEq, Eq, Debug)]
pub enum LoadErrorOf<W> {
    AnotherModelType,
    Weights(W),
    Kda(KdaError),
}

pub type LoadError = LoadErrorOf<WeightError>;

pub type LoadErrorView = LoadErrorOf<WeightErrorView>;

impl View for LoadErrorOf<WeightError> {
    type V = LoadErrorView;

    open spec fn view(&self) -> LoadErrorView {
        match *self {
            LoadErrorOf::AnotherModelType => LoadErrorOf::AnotherModelType,
            LoadErrorOf::Weights(error) => LoadErrorOf::Weights(error@),
            LoadErrorOf::Kda(error) => LoadErrorOf::Kda(error),
        }
    }
}

impl LoadErrorOf<WeightErrorView> {
    pub open spec fn text(self) -> Seq<char> {
        match self {
            LoadErrorOf::AnotherModelType => "GLM loader received another model type"@,
            LoadErrorOf::Weights(error) => error.text(),
            LoadErrorOf::Kda(error) => error.text(),
        }
    }
}

impl LoadErrorOf<WeightError> {
    pub fn message(&self) -> (message: String)
        ensures
            message@ == self@.text(),
    {
        match self {
            LoadErrorOf::AnotherModelType => "GLM loader received another model type".to_owned(),
            LoadErrorOf::Weights(error) => error.message(),
            LoadErrorOf::Kda(error) => error.message(),
        }
    }
}

/// `end` is `start` with the commands of `trace` recorded, and `result` is
/// what `trace` concluded.
pub open spec fn loads<T>(
    end: CommandBuffer,
    start: CommandBuffer,
    result: Result<T, LoadError>,
    trace: Trace<T, LoadErrorView>,
) -> bool {
    &&& end.extends(start, trace.steps)
    &&& match trace.outcome {
        Ok(value) => result == Ok::<T, LoadError>(value),
        Err(error) => result is Err && result->Err_0@ == error,
    }
}

/// As `loads`, for a list of layers.
pub open spec fn loads_all(
    end: CommandBuffer,
    start: CommandBuffer,
    result: Result<Vec<TransformerLayer>, LoadError>,
    trace: Trace<Seq<TransformerLayer>, LoadErrorView>,
) -> bool {
    &&& end.extends(start, trace.steps)
    &&& match trace.outcome {
        Ok(layers) => result is Ok && result->Ok_0@ == layers,
        Err(error) => result is Err && result->Err_0@ == error,
    }
}

/// The feed-forward block of layer `layer_idx`: dense where the configuration
/// lists the layer, a mixture of experts elsewhere.
pub open spec fn ffn_steps(
    config: ModelConfig,
    layer_idx: usize,
    quantizer: Quantizer,
    id: u64,
    at: nat,
) -> Seq<CommandView> {
    let prefix = layer_prefix(layer_idx as nat) + ".mlp"@;
    if config.mlp_only_layers@.contains(layer_idx) {
        dense_ffn_steps(
            prefix,
            config.intermediate_size,
            config.hidden_size,
            quantizer,
            id,
            at,
        )
    } else {
        moe_steps(prefix, config, quantizer, id, at)
    }
}

/// The block that `ffn_steps` produces.
pub open spec fn ffn_at(config: ModelConfig, layer_idx: usize, id: u64, at: nat) -> FfnComponent {
    if config.mlp_only_layers@.contains(layer_idx) {
        FfnComponent::Dense(result_ptr(id, at + 9))
    } else {
        FfnComponent::Moe(result_ptr(id, at + 8 + 6 * config.num_experts as nat))
    }
}

fn load_ffn(
    prefix: &String,
    config: &ModelConfig,
    layer_idx: usize,
    quantizer: Quantizer,
    gpu: &mut CommandBuffer,
) -> (ffn: FfnComponent)
    requires
        prefix@ == layer_prefix(layer_idx as nat),
    ensures
        ffn == ffn_at(*config, layer_idx, old(gpu).id(), old(gpu)@.len()),
        final(gpu).extends(
            *old(gpu),
            ffn_steps(*config, layer_idx, quantizer, old(gpu).id(), old(gpu)@.len()),
        ),
{
    let mlp = joined(prefix.as_str(), ".mlp");
    if config.is_mlp_only(layer_idx) {
        load_dense_ffn(&mlp, config.intermediate_size, config.hidden_size, quantizer, gpu)
    } else {
        load_moe(&mlp, config, quantizer, gpu)
    }
}

/// The linear-attention layer that is built once its weights and its packed
/// convolution are loaded.
pub open spec fn kda_block_trace(
    kda: Glm5KdaWeights,
    conv: DenseWeight,
    config: ModelConfig,
    layer_idx: usize,
    norms: (DenseWeight, DenseWeight),
    ffn: FfnComponent,
    state: StateBytes,
    id: u64,
    at: nat,
) -> Trace<TransformerLayer, LoadErrorView> {
    let hc = hc_steps(layer_prefix(layer_idx as nat), config);
    let block = new_layer_trace(
        norms.0,
        kda,
        conv,
        norms.1,
        ffn,
        hc_at(config, id, at),
        layer_idx,
        config,
        state.h_state,
        state.conv_state,
        id,
        at + hc.len(),
    );
    Trace {
        steps: hc + block.steps,
        outcome: match block.outcome {
            Ok(layer) => Ok(TransformerLayer::Kda(layer)),
            Err(error) => Err(LoadErrorOf::Kda(error)),
        },
    }
}

/// A linear-attention layer: its weights, its packed convolution, its
/// hyper-connection, and the block.
pub open spec fn kda_layer_trace(
    store: WeightStore,
    config: ModelConfig,
    layer_idx: usize,
    norms: (DenseWeight, DenseWeight),
    ffn: FfnComponent,
    state: StateBytes,
    id: u64,
    at: nat,
) -> Trace<TransformerLayer, LoadErrorView> {
    let weights = kda_trace(store, layer_prefix(layer_idx as nat), config, id, at);
    match weights.outcome {
        Err(error) => Trace { steps: weights.steps, outcome: Err(LoadErrorOf::Weights(error)) },
        Ok(kda) => {
            let packing = pack_trace(kda, config, id, at + weights.steps.len());
            let loaded = weights.steps + packing.steps;
            match packing.outcome {
                Err(error) => Trace { steps: loaded, outcome: Err(LoadErrorOf::Weights(error)) },
                Ok(conv) => {
                    let block = kda_block_trace(
                        kda,
                        conv,
                        config,
                        layer_idx,
                        norms,
                        ffn,
                        state,
                        id,
                        at + loaded.len(),
                    );
                    Trace { steps: loaded + block.steps, outcome: block.outcome }
                },
            }
        },
    }
}

fn load_kda_block(
    prefix: &String,
    kda: Glm5KdaWeights,
    conv: DenseWeight,
    config: &ModelConfig,
    layer_idx: usize,
    norms: (DenseWeight, DenseWeight),
    ffn: FfnComponent,
    state: StateBytes,
    gpu: &mut CommandBuffer,
) -> (result: Result<TransformerLayer, LoadError>)
    requires
        prefix@ == layer_prefix(layer_idx as nat),
        hc_fits(*config),
    ensures
        loads(
            *final(gpu),
            *old(gpu),
            result,
            kda_block_trace(
                kda,
                conv,
                *config,
                layer_idx,
                norms,
                ffn,
                state,
                old(gpu).id(),
                old(gpu)@.len(),
            ),
        ),
{
    let ghost start = *gpu;
    let hc = load_hc(prefix, config, gpu);
    let ghost middle = *gpu;
    let built = Glm5KdaLayer::new(
        norms.0,
        kda,
        conv,
        norms.1,
        ffn,
        hc,
        layer_idx,
        config,
        state.h_state,
        state.conv_state,
        gpu,
    );
    proof {
        let at = start@.len();
        let first = hc_steps(prefix@, *config);
        let block = new_layer_trace(
            norms.0,
            kda,
            conv,
            norms.1,
            ffn,
            hc,
            layer_idx,
            *config,
            state.h_state,
            state.conv_state,
            start.id(),
            at + first.len(),
        );
        lemma_extends_twice(start, middle, *gpu, first, block.steps);
    }
    match built {
        Ok(layer) => Ok(TransformerLayer::Kda(layer)),
        Err(error) => Err(LoadErrorOf::Kda(error)),
    }
}

fn load_kda_layer(
    store: &WeightStore,
    prefix: &String,
    config: &ModelConfig,
    layer_idx: usize,
    norms: (DenseWeight, DenseWeight),
    ffn: FfnComponent,
    state: StateBytes,
    gpu: &mut CommandBuffer,
) -> (result: Result<TransformerLayer, LoadError>)
    requires
        prefix@ == layer_prefix(layer_idx as nat),
        hc_fits(*config),
    ensures
        loads(
            *final(gpu),
            *old(gpu),
            result,
            kda_layer_trace(
                *store,
                *config,
                layer_idx,
                norms,
                ffn,
                state,
                old(gpu).id(),
                old(gpu)@.len(),
            ),
        ),
{
    let ghost start = *gpu;
    let ghost weights = kda_trace(*store, prefix@, *config, start.id(), start@.len());
    let kda = match load_glm5_kda(store, prefix, config, gpu) {
        Ok(kda) => kda,
        Err(error) => {
            return Err(LoadErrorOf::Weights(error));
        },
    };
    let ghost middle = *gpu;
    let ghost packing = pack_trace(
        kda,
        *config,
        start.id(),
        start@.len() + weights.steps.len(),
    );
    let packed = kda.pack_conv1d(config, gpu);
    proof {
        lemma_extends_twice(start, middle, *gpu, weights.steps, packing.steps);
    }
    let conv = match packed {
        Ok(conv) => conv,
        Err(error) => {
            return Err(LoadErrorOf::Weights(error));
        },
    };
    let ghost before = *gpu;
    let result = load_kda_block(prefix, kda, conv, config, layer_idx, norms, ffn, state, gpu);
    proof {
        let loaded = weights.steps + packing.steps;
        let block = kda_block_trace(
            kda,
            conv,
            *config,
            layer_idx,
            norms,
            ffn,
            state,
            start.id(),
            start@.len() + loaded.len(),
        );
        lemma_extends_twice(start, before, *gpu, loaded, block.steps);
    }
    result
}

/// How many of the layers before `layer_idx` attend over a key/value cache.
pub open spec fn cached_before(config: ModelConfig, layer_idx: int) -> nat {
    layers_of(config.layer_types@.take(layer_idx), LayerType::FullAttention)
}

/// The token mixer of layer `layer_idx`. A layer with a key/value cache is
/// numbered among those layers.
pub open spec fn mixer_trace(
    store: WeightStore,
    config: ModelConfig,
    layer_idx: usize,
    norms: (DenseWeight, DenseWeight),
    ffn: FfnComponent,
    state: StateBytes,
    id: u64,
    at: nat,
) -> Trace<TransformerLayer, LoadErrorView> {
    match config.layer_types@[layer_idx as int] {
        LayerType::LinearAttention => kda_layer_trace(
            store,
            config,
            layer_idx,
            norms,
            ffn,
            state,
            id,
            at,
        ),
        LayerType::FullAttention => {
            let layer = dsa_layer_trace(
                store,
                layer_prefix(layer_idx as nat),
                config,
                layer_idx,
                cached_before(config, layer_idx as int) as usize,
                ffn,
                id,
                at,
            );
            Trace {
                steps: layer.steps,
                outcome: match layer.outcome {
                    Ok(layer) => Ok(TransformerLayer::Dsa(layer)),
                    Err(error) => Err(LoadErrorOf::Weights(error)),
                },
            }
        },
    }
}

/// The two norms of a layer.
pub open spec fn norm_steps(layer_idx: usize) -> Seq<CommandView> {
    let prefix = layer_prefix(layer_idx as nat);
    seq![
        load(prefix + ".input_layernorm.weight"@),
        load(prefix + ".post_attention_layernorm.weight"@),
    ]
}

/// Layer `layer_idx`, loaded after `at` commands of buffer `id`.
pub open spec fn layer_trace(
    store: WeightStore,
    config: ModelConfig,
    layer_idx: usize,
    quantizer: Quantizer,
    state: StateBytes,
    id: u64,
    at: nat,
) -> Trace<TransformerLayer, LoadErrorView> {
    let first = norm_steps(layer_idx) + ffn_steps(config, layer_idx, quantizer, id, at + 2);
    let mixer = mixer_trace(
        store,
        config,
        layer_idx,
        (dense_at(id, at), dense_at(id, at + 1)),
        ffn_at(config, layer_idx, id, at + 2),
        state,
        id,
        at + first.len(),
    );
    Trace { steps: first + mixer.steps, outcome: mixer.outcome }
}

/// The first `count` layers, in order, up to the first that fails.
pub open spec fn layers_trace(
    store: WeightStore,
    config: ModelConfig,
    count: nat,
    quantizer: Quantizer,
    state: StateBytes,
    id: u64,
    at: nat,
) -> Trace<Seq<TransformerLayer>, LoadErrorView>
    decreases count,
{
    if count == 0 {
        Trace { steps: Seq::empty(), outcome: Ok(Seq::empty()) }
    } else {
        let before = layers_trace(
            store,
            config,
            (count - 1) as nat,
            quantizer,
            state,
            id,
            at,
        );
        match before.outcome {
            Err(error) => before,
            Ok(layers) => {
                let last = layer_trace(
                    store,
                    config,
                    (count - 1) as usize,
                    quantizer,
                    state,
                    id,
                    at + before.steps.len(),
                );
                Trace {
                    steps: before.steps + last.steps,
                    outcome: match last.outcome {
                        Ok(layer) => Ok(layers.push(layer)),
                        Err(error) => Err(error),
                    },
                }
            },
        }
    }
}

/// The kernels that quantise weights.
pub open spec fn quantizer_lookups() -> Seq<CommandView> {
    seq![
        call(DeviceCall::LookupKernel { module: "quantize_nvfp4", name: "nvfp4_global_absmax" }),
        call(DeviceCall::LookupKernel { module: "quantize_nvfp4", name: "quantize_bf16_to_nvfp4" }),
    ]
}

/// A whole model, loaded after `at` commands of buffer `id`.
pub open spec fn model_trace(
    store: WeightStore,
    config: ModelConfig,
    state: StateBytes,
    stream: u64,
    id: u64,
    at: nat,
) -> Trace<Seq<TransformerLayer>, LoadErrorView> {
    if !config.is_glm() {
        Trace { steps: Seq::empty(), outcome: Err(LoadErrorOf::AnotherModelType) }
    } else {
        let quantizer = Quantizer {
            absmax: result_kernel(id, at),
            quantize: result_kernel(id, at + 1),
            stream,
        };
        let layers = layers_trace(
            store,
            config,
            config.num_hidden_layers as nat,
            quantizer,
            state,
            id,
            at + 2,
        );
        Trace { steps: quantizer_lookups() + layers.steps, outcome: layers.outcome }
    }
}

/// Every layer has a type, and the sizes that loading it multiplies out are
/// sizes.
pub open spec fn model_fits(config: ModelConfig) -> bool {
    config.is_glm() ==> {
        &&& config.num_hidden_layers <= config.layer_types@.len()
        &&& config.num_hidden_layers > 0 ==> hc_fits(config)
        &&& cached_before(config, config.num_hidden_layers as int) > 0 ==> index_fits(config)
    }
}

pub proof fn lemma_cached_step(config: ModelConfig, layer_idx: int)
    requires
        0 <= layer_idx < config.layer_types@.len(),
    ensures
        cached_before(config, layer_idx + 1) == cached_before(config, layer_idx) + if
            config.layer_types@[layer_idx] == LayerType::FullAttention {
            1nat
        } else {
            0nat
        },
{
    let types = config.layer_types@;
    assert(types.take(layer_idx + 1).drop_last() =~= types.take(layer_idx));
}

pub proof fn lemma_cached_grows(config: ModelConfig, low: int, high: int)
    requires
        0 <= low <= high <= config.layer_types@.len(),
    ensures
        cached_before(config, low) <= cached_before(config, high) <= cached_before(config, low)
            + high - low,
    decreases high - low,
{
    if low < high {
        lemma_cached_grows(config, low, high - 1);
        lemma_cached_step(config, high - 1);
    }
}

/// Whether [`Glm5NextWeightLoader::load_layers`] can be called with `config`.
pub fn model_in_range(config: &ModelConfig) -> (ok: bool)
    ensures
        ok == model_fits(*config),
{
    if !same_text(&config.model_type, "glm5_next") {
        return true;
    }
    if config.num_hidden_layers > config.layer_types.len() {
        return false;
    }
    if config.num_hidden_layers > 0 && !hc_in_range(config) {
        return false;
    }
    let mut i: usize = 0;
    while i < config.num_hidden_layers
        invariant
            i <= config.num_hidden_layers <= config.layer_types@.len(),
            cached_before(*config, i as int) == 0,
            config.is_glm(),
            config.num_hidden_layers > 0 ==> hc_fits(*config),
        decreases config.num_hidden_layers - i,
    {
        proof {
            lemma_cached_step(*config, i as int);
            lemma_cached_grows(*config, i + 1, config.num_hidden_layers as int);
        }
        match config.layer_type(i) {
            LayerType::FullAttention => {
                return index_in_range(config);
            },
            LayerType::LinearAttention => {},
        }
        i = i + 1;
    }
    true
}

fn load_mixer(
    store: &WeightStore,
    prefix: &String,
    config: &ModelConfig,
    layer_idx: usize,
    attn_layer_idx: usize,
    norms: (DenseWeight, DenseWeight),
    ffn: FfnComponent,
    state: StateBytes,
    gpu: &mut CommandBuffer,
) -> (result: Result<TransformerLayer, LoadError>)
    requires
        prefix@ == layer_prefix(layer_idx as nat),
        layer_idx < config.layer_types@.len(),
        attn_layer_idx == cached_before(*config, layer_idx as int),
        hc_fits(*config),
        config.layer_types@[layer_idx as int] == LayerType::FullAttention ==> index_fits(*config),
    ensures
        loads(
            *final(gpu),
            *old(gpu),
            result,
            mixer_trace(
                *store,
                *config,
                layer_idx,
                norms,
                ffn,
                state,
                old(gpu).id(),
                old(gpu)@.len(),
            ),
        ),
{
    match config.layer_type(layer_idx) {
        LayerType::LinearAttention => load_kda_layer(
            store,
            prefix,
            config,
            layer_idx,
            norms,
            ffn,
            state,
            gpu,
        ),
        LayerType::FullAttention => match load_dsa_layer(
            store,
            config,
            layer_idx,
            attn_layer_idx,
            ffn,
            gpu,
        ) {
            Ok(layer) => Ok(TransformerLayer::Dsa(layer)),
            Err(error) => Err(LoadErrorOf::Weights(error)),
        },
    }
}

fn load_layer(
    store: &WeightStore,
    config: &ModelConfig,
    layer_idx: usize,
    attn_layer_idx: usize,
    quantizer: Quantizer,
    state: StateBytes,
    gpu: &mut CommandBuffer,
) -> (result: Result<TransformerLayer, LoadError>)
    requires
        layer_idx < config.layer_types@.len(),
        attn_layer_idx == cached_before(*config, layer_idx as int),
        hc_fits(*config),
        config.layer_types@[layer_idx as int] == LayerType::FullAttention ==> index_fits(*config),
    ensures
        loads(
            *final(gpu),
            *old(gpu),
            result,
            layer_trace(
                *store,
                *config,
                layer_idx,
                quantizer,
                state,
                old(gpu).id(),
                old(gpu)@.len(),
            ),
        ),
{
    let ghost start = *gpu;
    let prefix = layer_prefix_text(layer_idx);
    let input_norm = load_dense(&prefix, ".input_layernorm.weight", gpu);
    let post_norm = load_dense(&prefix, ".post_attention_layernorm.weight", gpu);
    let ghost normed = *gpu;
    assert(gpu@ =~= start@ + norm_steps(layer_idx));
    let ffn = load_ffn(&prefix, config, layer_idx, quantizer, gpu);
    let ghost middle = *gpu;
    let ghost ffn_part = ffn_steps(*config, layer_idx, quantizer, start.id(), start@.len() + 2);
    let ghost first = norm_steps(layer_idx) + ffn_part;
    proof {
        lemma_extends_twice(start, normed, middle, norm_steps(layer_idx), ffn_part);
    }
    let result = load_mixer(
        store,
        &prefix,
        config,
        layer_idx,
        attn_layer_idx,
        (input_norm, post_norm),
        ffn,
        state,
        gpu,
    );
    proof {
        let mixer = mixer_trace(
            *store,
            *config,
            layer_idx,
            (input_norm, post_norm),
            ffn,
            state,
            start.id(),
            start@.len() + first.len(),
        );
        lemma_extends_twice(start, middle, *gpu, first, mixer.steps);
    }
    result
}

/// A failed layer ends the load.
proof fn lemma_failure_stays(
    store: WeightStore,
    config: ModelConfig,
    failed: nat,
    count: nat,
    quantizer: Quantizer,
    state: StateBytes,
    id: u64,
    at: nat,
)
    requires
        failed <= count,
        layers_trace(store, config, failed, quantizer, state, id, at).outcome is Err,
    ensures
        layers_trace(store, config, count, quantizer, state, id, at) == layers_trace(
            store,
            config,
            failed,
            quantizer,
            state,
            id,
            at,
        ),
    decreases count,
{
    if failed < count {
        lemma_failure_stays(
            store,
            config,
            failed,
            (count - 1) as nat,
            quantizer,
            state,
            id,
            at,
        );
    }
}

fn load_all_layers(
    store: &WeightStore,
    config: &ModelConfig,
    quantizer: Quantizer,
    state: StateBytes,
    gpu: &mut CommandBuffer,
) -> (result: Result<Vec<TransformerLayer>, LoadError>)
    requires
        config.is_glm(),
        model_fits(*config),
    ensures
        loads_all(
            *final(gpu),
            *old(gpu),
            result,
            layers_trace(
                *store,
                *config,
                config.num_hidden_layers as nat,
                quantizer,
                state,
                old(gpu).id(),
                old(gpu)@.len(),
            ),
        ),
{
    let ghost start = *gpu;
    let ghost id = start.id();
    let ghost at = start@.len();
    let mut layers: Vec<TransformerLayer> = Vec::new();
    let mut attn_layer_idx: usize = 0;
    let mut layer_idx: usize = 0;
    assert(gpu@ =~= start@ + layers_trace(*store, *config, 0, quantizer, state, id, at).steps);
    assert(layers@ =~= Seq::<TransformerLayer>::empty());
    while layer_idx < config.num_hidden_layers
        invariant
            start == *old(gpu),
            id == start.id(),
            at == start@.len(),
            layer_idx <= config.num_hidden_layers <= config.layer_types@.len(),
            config.num_hidden_layers > 0 ==> hc_fits(*config),
            cached_before(*config, config.num_hidden_layers as int) > 0 ==> index_fits(*config),
            attn_layer_idx == cached_before(*config, layer_idx as int),
            ({
                let trace = layers_trace(
                    *store,
                    *config,
                    layer_idx as nat,
                    quantizer,
                    state,
                    id,
                    at,
                );
                &&& gpu.extends(start, trace.steps)
                &&& trace.outcome == Ok::<Seq<TransformerLayer>, LoadErrorView>(layers@)
            }),
        decreases config.num_hidden_layers - layer_idx,
    {
        let ghost before = *gpu;
        let ghost trace = layers_trace(
            *store,
            *config,
            layer_idx as nat,
            quantizer,
            state,
            id,
            at,
        );
        let ghost last = layer_trace(
            *store,
            *config,
            layer_idx,
            quantizer,
            state,
            id,
            at + trace.steps.len(),
        );
        proof {
            lemma_cached_step(*config, layer_idx as int);
            lemma_cached_grows(*config, 0, layer_idx as int);
            lemma_cached_grows(*config, layer_idx + 1, config.num_hidden_layers as int);
        }
        let loaded = load_layer(store, config, layer_idx, attn_layer_idx, quantizer, state, gpu);
        proof {
            lemma_extends_twice(start, before, *gpu, trace.steps, last.steps);
        }
        match loaded {
            Ok(layer) => {
                layers.push(layer);
            },
            Err(error) => {
                proof {
                    lemma_failure_stays(
                        *store,
                        *config,
                        (layer_idx + 1) as nat,
                        config.num_hidden_layers as nat,
                        quantizer,
                        state,
                        id,
                        at,
                    );
                }
                return Err(error);
            },
        }
        match config.layer_type(layer_idx) {
            LayerType::FullAttention => {
                attn_layer_idx = attn_layer_idx + 1;
            },
            LayerType::LinearAttention => {},
        }
        layer_idx = layer_idx + 1;
    }
    Ok(layers)
}

/// Loads a GLM-5 model.
#[derive(Clone, Copy, PartialEq, Eq, Debug)]
pub struct Glm5NextWeightLoader;

/// One tensor of the model, loaded by name.
pub open spec fn single_load(
    end: CommandBuffer,
    start: CommandBuffer,
    weight: DenseWeight,
    name: Seq<char>,
) -> bool {
    &&& weight == dense_at(start.id(), start@.len())
    &&& end.extends(start, seq![load(name)])
}

fn load_single(name: &str, gpu: &mut CommandBuffer) -> (weight: DenseWeight)
    ensures
        single_load(*final(gpu), *old(gpu), weight, name@),
{
    let name = name.to_owned();
    DenseWeight { weight: gpu.record_for_ptr(CommandOf::LoadDense { name }) }
}

impl Glm5NextWeightLoader {
    /// Whether the weights can be split over several devices.
    pub fn supports_tp(&self) -> (supported: bool)
        ensures
            !supported,
    {
        false
    }

    /// Load every layer. `state` is what a linear-attention layer of this
    /// model keeps for one sequence.
    pub fn load_layers(
        &self,
        store: &WeightStore,
        config: &ModelConfig,
        state: StateBytes,
        gpu: &mut CommandBuffer,
    ) -> (result: Result<Vec<TransformerLayer>, LoadError>)
        requires
            model_fits(*config),
        ensures
            loads_all(
                *final(gpu),
                *old(gpu),
                result,
                model_trace(
                    *store,
                    *config,
                    state,
                    old(gpu).stream(),
                    old(gpu).id(),
                    old(gpu)@.len(),
                ),
            ),
    {
        let ghost start = *gpu;
        assert(gpu@ =~= start@ + Seq::<CommandView>::empty());
        if !same_text(&config.model_type, "glm5_next") {
            return Err(LoadErrorOf::AnotherModelType);
        }
        let absmax = gpu.kernel("quantize_nvfp4", "nvfp4_global_absmax");
        let quantize = gpu.kernel("quantize_nvfp4", "quantize_bf16_to_nvfp4");
        let stream = gpu.default_stream();
        let quantizer = Quantizer { absmax, quantize, stream };
        assert(gpu@ =~= start@ + quantizer_lookups());
        let ghost middle = *gpu;
        let result = load_all_layers(store, config, quantizer, state, gpu);
        proof {
            let layers = layers_trace(
                *store,
                *config,
                config.num_hidden_layers as nat,
                quantizer,
                state,
                start.id(),
                start@.len() + 2,
            );
            lemma_extends_twice(start, middle, *gpu, quantizer_lookups(), layers.steps);
        }
        result
    }

    pub fn load_embedding(&self, gpu: &mut CommandBuffer) -> (weight: DenseWeight)
        ensures
            single_load(
                *final(gpu),
                *old(gpu),
                weight,
                "model.language_model.embed_tokens.weight"@,
            ),
    {
        load_single("model.language_model.embed_tokens.weight", gpu)
    }

    pub fn load_final_norm(&self, gpu: &mut CommandBuffer) -> (weight: DenseWeight)
        ensures
            single_load(*final(gpu), *old(gpu), weight, "model.language_model.norm.weight"@),
    {
        load_single("model.language_model.norm.weight", gpu)
    }

    pub fn load_lm_head(&self, gpu: &mut CommandBuffer) -> (weight: DenseWeight)
        ensures
            single_load(*final(gpu), *old(gpu), weight, "lm_head.weight"@),
    {
        load_single("lm_head.weight", gpu)
    }

    /// The draft module to attach. The model's own has a layout that the
    /// runtime's draft path cannot represent, so none is.
    pub fn load_mtp_weights(&self) -> (attached: Option<DevicePtr>)
        ensures
            attached is None,
    {
        None
    }

    /// The vision tower to attach. The model's own needs a runtime of its own,
    /// so none is, and requests with images are refused elsewhere.
    pub fn load_vision_encoder(&self) -> (attached: Option<DevicePtr>)
        ensures
            attached is None,
    {
        None
    }

    /// What to tell the operator when a configured vision tower is left out.
    pub fn vision_warning(&self, config: &ModelConfig) -> (warning: Option<&'static str>)
        ensures
            warning is Some <==> config.vision is Some,
            warning is Some ==> warning->0 == VISION_NOT_ATTACHED,
    {
        match config.vision {
            Some(_) => Some(VISION_NOT_ATTACHED),
            None => None,
        }
    }
}

} // verus!
