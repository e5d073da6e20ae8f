//! What holds of every model that loads.
use vstd::prelude::*;

use crate::config::laws::supported;
use crate::config::{layers_of, LayerType, ModelConfig};
use crate::device::{call, result_kernel, CommandView, DenseWeight, DeviceCall, DevicePtr};
use crate::layers::mla_cache_laws::{attends, law_attends_to_what_it_stored, stores};
use crate::layers::mla_decode::{DecodeMlaArgs, PagedKvCache, Qwen3AttentionLayer};
use crate::layers::ForwardContext;
use crate::tensors::{
    lemma_all_sound, lemma_sound_prefix, load_trace, sound_prefix, tensor_fault, TensorView,
    WeightStore,
};
use crate::weight_loader::attention::hc_fits;
use crate::weight_loader::ffn::Quantizer;
use crate::weight_loader::{
    cached_before, layers_trace, lemma_cached_grows, lemma_cached_step, model_fits, model_trace,
    StateBytes, TransformerLayer,
};
use crate::weight_map::{
    conv_bytes, dsa_fault, dsa_tensors, dsa_trace, glm_fault, index_fits, kda_tensors, kda_trace,
    pack_trace, qkv_dim, Glm5KdaWeights,
};

verus! {

/// Layer `index` is of the kind that the configuration gives it, and numbered
/// as its place demands: a layer with a key/value cache among those layers.
pub open spec fn in_place(config: ModelConfig, layer: TransformerLayer, index: int) -> bool {
    match layer {
        TransformerLayer::Kda(layer) => {
            &&& config.layer_types@[index] == LayerType::LinearAttention
            &&& layer.layer_idx == index
        },
        TransformerLayer::Dsa(layer) => {
            &&& config.layer_types@[index] == LayerType::FullAttention
            &&& layer.physical_layer_idx == index
            &&& layer.attn_layer_idx == cached_before(config, index)
        },
    }
}

/// The first `count` layers are loaded one by one, in place.
pub proof fn law_layers_in_place(
    store: WeightStore,
    config: ModelConfig,
    count: nat,
    quantizer: Quantizer,
    state: StateBytes,
    id: u64,
    at: nat,
)
    requires
        count <= config.layer_types@.len() <= usize::MAX,
        layers_trace(store, config, count, quantizer, state, id, at).outcome is Ok,
    ensures
        ({
            let layers = layers_trace(
                store,
                config,
                count,
                quantizer,
                state,
                id,
                at,
            ).outcome->Ok_0;
            &&& layers.len() == count
            &&& forall|i: int| 0 <= i < count ==> in_place(config, #[trigger] layers[i], i)
        }),
    decreases count,
{
    if count > 0 {
        let before = (count - 1) as nat;
        law_layers_in_place(store, config, before, quantizer, state, id, at);
        lemma_cached_grows(config, 0, before as int);
        let earlier = layers_trace(store, config, before, quantizer, state, id, at).outcome->Ok_0;
        let layers = layers_trace(store, config, count, quantizer, state, id, at).outcome->Ok_0;
        assert(layers == earlier.push(layers[before as int]));
        assert forall|i: int| 0 <= i < count implies in_place(config, #[trigger] layers[i], i) by {
            if i < before {
                assert(layers[i] == earlier[i]);
            }
        }
    }
}

/// A model that loads has every layer of its configuration, in place.
pub proof fn law_model_complete(
    store: WeightStore,
    config: ModelConfig,
    state: StateBytes,
    stream: u64,
    id: u64,
    at: nat,
)
    requires
        config.num_hidden_layers <= config.layer_types@.len() <= usize::MAX,
        model_trace(store, config, state, stream, id, at).outcome is Ok,
    ensures
        ({
            let layers = model_trace(store, config, state, stream, id, at).outcome->Ok_0;
            &&& layers.len() == config.num_hidden_layers
            &&& forall|i: int|
                0 <= i < layers.len() ==> in_place(config, #[trigger] layers[i], i)
        }),
{
    let quantizer = Quantizer {
        absmax: result_kernel(id, at),
        quantize: result_kernel(id, at + 1),
        stream,
    };
    law_layers_in_place(
        store,
        config,
        config.num_hidden_layers as nat,
        quantizer,
        state,
        id,
        at + 2,
    );
}

/// Layers with a key/value cache are numbered from zero on without gaps: the
/// number of such a layer is below their count, and a later one has a larger
/// number.
pub proof fn law_cache_numbers(config: ModelConfig, layer: int, later: int)
    requires
        0 <= layer < later <= config.layer_types@.len(),
        config.layer_types@[layer] == LayerType::FullAttention,
    ensures
        cached_before(config, 0) == 0,
        cached_before(config, layer) < cached_before(config, later),
        cached_before(config, layer + 1) == cached_before(config, layer) + 1,
        cached_before(config, layer) < layers_of(config.layer_types@, LayerType::FullAttention),
{
    let types = config.layer_types@;
    lemma_cached_step(config, layer);
    lemma_cached_grows(config, layer + 1, later);
    lemma_cached_grows(config, layer + 1, types.len() as int);
    assert(types.take(types.len() as int) =~= types);
    assert(types.take(0).len() == 0);
}

/// Each layer of a loaded model decodes with a cache of its own. In a cache with
/// an entry for every attention layer of the configuration, the decoder of
/// layer `first` finds its entry, at its number among those layers. The decoder of
/// a later layer finds another one, and no write to the one is a write to the
/// other.
pub proof fn law_each_layer_its_own_cache(
    store: WeightStore,
    config: ModelConfig,
    state: StateBytes,
    stream: u64,
    id: u64,
    at: nat,
    first: int,
    second: int,
    runtime: Qwen3AttentionLayer,
    kv_cache: PagedKvCache,
)
    requires
        config.num_hidden_layers <= config.layer_types@.len() <= usize::MAX,
        model_trace(store, config, state, stream, id, at).outcome is Ok,
        0 <= first < second < config.num_hidden_layers,
        model_trace(store, config, state, stream, id, at).outcome->Ok_0[first] is Dsa,
        model_trace(store, config, state, stream, id, at).outcome->Ok_0[second] is Dsa,
        kv_cache.layers@.len() == layers_of(config.layer_types@, LayerType::FullAttention),
    ensures
        ({
            let layers = model_trace(store, config, state, stream, id, at).outcome->Ok_0;
            let one = layers[first]->Dsa_0.decoder(&runtime);
            let other = layers[second]->Dsa_0.decoder(&runtime);
            &&& one.attn_layer_idx == cached_before(config, first)
            &&& one.attn_layer_idx < other.attn_layer_idx < kv_cache.layers@.len()
            &&& one.pools(kv_cache) == kv_cache.layers@[cached_before(config, first) as int]
            &&& forall|step: CommandView|
                stores(step, one, one.pools(kv_cache)) ==> !stores(
                    step,
                    other,
                    other.pools(kv_cache),
                )
        }),
{
    let layers = model_trace(store, config, state, stream, id, at).outcome->Ok_0;
    law_model_complete(store, config, state, stream, id, at);
    assert(in_place(config, layers[first], first));
    assert(in_place(config, layers[second], second));
    law_cache_numbers(config, first, second);
    law_cache_numbers(config, second, second + 1);
}

/// What a layer of a loaded model stores, the same layer attends to: a decode
/// step that succeeds writes to the cache entry at the number that loading gave
/// the layer, and attends over that entry afterwards.
pub proof fn law_loaded_layer_reads_back(
    store: WeightStore,
    config: ModelConfig,
    state: StateBytes,
    stream: u64,
    id: u64,
    at: nat,
    index: int,
    runtime: Qwen3AttentionLayer,
    kv_cache: PagedKvCache,
    ctx: ForwardContext,
    args: DecodeMlaArgs,
    sparse_attention: bool,
)
    requires
        config.num_hidden_layers <= config.layer_types@.len() <= usize::MAX,
        model_trace(store, config, state, stream, id, at).outcome is Ok,
        0 <= index < config.num_hidden_layers,
        model_trace(store, config, state, stream, id, at).outcome->Ok_0[index] is Dsa,
        ({
            let layers = model_trace(store, config, state, stream, id, at).outcome->Ok_0;
            let layer = layers[index]->Dsa_0.decoder(&runtime);
            let pools = layer.pools(kv_cache);
            layer.decode_trace(ctx, args, pools, sparse_attention).outcome is Ok
        }),
    ensures
        ({
            let layers = model_trace(store, config, state, stream, id, at).outcome->Ok_0;
            let layer = layers[index]->Dsa_0.decoder(&runtime);
            let pools = kv_cache.layers@[cached_before(config, index) as int];
            let steps = layer.decode_trace(ctx, args, pools, sparse_attention).steps;
            exists|i: int, j: int|
                0 <= i < j < steps.len() && stores(#[trigger] steps[i], layer, pools) && attends(
                    #[trigger] steps[j],
                    layer,
                    pools,
                )
        }),
{
    let layers = model_trace(store, config, state, stream, id, at).outcome->Ok_0;
    let layer = layers[index]->Dsa_0.decoder(&runtime);
    law_model_complete(store, config, state, stream, id, at);
    assert(in_place(config, layers[index], index));
    law_attends_to_what_it_stored(layer, ctx, args, layer.pools(kv_cache), sparse_attention);
}

/// A configuration that parses, and whose sizes are sizes, can be loaded.
pub proof fn law_supported_can_load(config: ModelConfig)
    requires
        supported(config),
        hc_fits(config),
        index_fits(config),
    ensures
        model_fits(config),
{
}

/// A configuration that parses can be loaded wherever the hidden state and the index
/// heads are at most some thousands wide.
pub proof fn law_ordinary_model_fits(config: ModelConfig)
    requires
        supported(config),
        config.hc_mult <= 0x10,
        config.hidden_size <= 0x4000,
        config.index_n_heads <= 0x400,
        config.index_head_dim <= 0x400,
    ensures
        model_fits(config),
{
    let streams = config.hc_mult as int;
    let width = config.hidden_size as int;
    assert(0 <= streams * width <= 0x4_0000) by (nonlinear_arith)
        requires
            0 <= streams <= 0x10,
            0 <= width <= 0x4000,
    ;
    assert(0 <= (2 + streams) * streams <= 0x120) by (nonlinear_arith)
        requires
            0 <= streams <= 0x10,
    ;
    let mix = (2 + streams) * streams;
    let all = streams * width;
    assert(0 <= mix * all <= 0x480_0000) by (nonlinear_arith)
        requires
            0 <= mix <= 0x120,
            0 <= all <= 0x4_0000,
    ;
    let heads = config.index_n_heads as int;
    let dim = config.index_head_dim as int;
    assert(0 <= heads * dim <= 0x10_0000) by (nonlinear_arith)
        requires
            0 <= heads <= 0x400,
            0 <= dim <= 0x400,
    ;
}

/// Weights are refused for a configuration of another kind, and nothing is
/// recorded for them.
pub proof fn law_refusal_records_nothing(
    store: WeightStore,
    prefix: Seq<char>,
    weights: Glm5KdaWeights,
    config: ModelConfig,
    id: u64,
    at: nat,
)
    requires
        glm_fault(config) is Some,
    ensures
        kda_trace(store, prefix, config, id, at).outcome == Err::<Glm5KdaWeights, _>(
            glm_fault(config)->0,
        ),
        kda_trace(store, prefix, config, id, at).steps.len() == 0,
        dsa_trace(store, prefix, config, id, at).outcome is Err,
        dsa_trace(store, prefix, config, id, at).steps.len() == 0,
        pack_trace(weights, config, id, at).outcome is Err,
        pack_trace(weights, config, id, at).steps.len() == 0,
{
}

/// All of `tensors` are stored with the shapes they must have.
pub open spec fn all_sound(store: WeightStore, tensors: Seq<TensorView>) -> bool {
    forall|i: int| 0 <= i < tensors.len() ==> tensor_fault(store, #[trigger] tensors[i]) is None
}

proof fn lemma_loads_iff_sound(store: WeightStore, tensors: Seq<TensorView>, id: u64, at: nat)
    ensures
        load_trace(store, tensors, id, at).outcome is Ok <==> all_sound(store, tensors),
{
    if all_sound(store, tensors) {
        lemma_sound_prefix(store, tensors, tensors.len());
    }
    if sound_prefix(store, tensors) >= tensors.len() {
        assert forall|i: int| 0 <= i < tensors.len() implies tensor_fault(
            store,
            #[trigger] tensors[i],
        ) is None by {
            lemma_all_sound(store, tensors, i);
        }
    }
}

/// Linear-attention weights load exactly where every tensor of the block is
/// stored with the shape that the configuration gives it.
pub proof fn law_kda_loads_iff_sound(
    store: WeightStore,
    prefix: Seq<char>,
    config: ModelConfig,
    id: u64,
    at: nat,
)
    requires
        glm_fault(config) is None,
        qkv_dim(config) <= usize::MAX,
    ensures
        kda_trace(store, prefix, config, id, at).outcome is Ok <==> all_sound(
            store,
            kda_tensors(prefix, config),
        ),
{
    lemma_loads_iff_sound(store, kda_tensors(prefix, config), id, at);
}

/// Sparse-attention weights load exactly where every tensor of the block is
/// stored with the shape that the configuration gives it.
pub proof fn law_dsa_loads_iff_sound(
    store: WeightStore,
    prefix: Seq<char>,
    config: ModelConfig,
    id: u64,
    at: nat,
)
    requires
        dsa_fault(config) is None,
    ensures
        dsa_trace(store, prefix, config, id, at).outcome is Ok <==> all_sound(
            store,
            dsa_tensors(prefix, config),
        ),
{
    lemma_loads_iff_sound(store, dsa_tensors(prefix, config), id, at);
}

/// The packed convolution kernels fill their allocation: query, key and value
/// kernels, each right behind the one before it, and nothing else.
pub proof fn law_packed_conv(weights: Glm5KdaWeights, config: ModelConfig, id: u64, at: nat)
    requires
        pack_trace(weights, config, id, at).outcome is Ok,
    ensures
        ({
            let trace = pack_trace(weights, config, id, at);
            let packed = trace.outcome->Ok_0.weight;
            let bytes = conv_bytes(config) as usize;
            let end = packed.plus(bytes + bytes + bytes);
            &&& trace.steps.len() == 4
            &&& trace.steps[0] == call(
                DeviceCall::Alloc { bytes: (end.bytes - packed.bytes) as usize },
            )
            &&& trace.steps[1] == copied(weights.q_conv1d, packed, bytes)
            &&& trace.steps[2] == copied(weights.k_conv1d, packed.plus(bytes as int), bytes)
            &&& trace.steps[3] == copied(weights.v_conv1d, packed.plus(bytes + bytes), bytes)
        }),
{
}

/// `bytes` of `weight` copied to `dst`.
pub open spec fn copied(weight: DenseWeight, dst: DevicePtr, bytes: usize) -> CommandView {
    call(DeviceCall::CopyD2d { src: weight.weight, dst, bytes })
}

} // verus!
