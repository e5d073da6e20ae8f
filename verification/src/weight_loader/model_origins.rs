//! Where the layers of a loaded model come from.
use vstd::prelude::*;

use crate::config::{LayerType, ModelConfig};
use crate::device::{
    call, null_ptr, result_kernel, result_ptr, AttentionWeights, CommandOf, CommandView,
    DenseWeight, DeviceCall, FfnComponent, Float32, KernelHandle, KvCacheDtype,
};
use crate::layers::kda::{layer_lookups, new_layer_trace, Glm5KdaLayer};
use crate::layers::{HcWeights, MlaWeights};
use crate::tensors::WeightStore;
use crate::text::decimal;
use crate::weight_loader::attention::{
    attention_steps, dsa_layer_at, dsa_layer_trace, hc_at, hc_steps, DsaLayer,
};
use crate::weight_loader::ffn::{lemma_expert_count, Quantizer};
use crate::weight_loader::origins::{
    dense_ffn_by_name, dsa_by_name, finder, hc_by_name, kda_by_name, law_dense_ffn_by_name,
    law_dsa_weights_by_name, law_hc_by_name, law_kda_weights_by_name, law_moe_by_name,
    lemma_made_at, lemma_within, made_by, maker, moe_by_name, recorded,
};
use crate::weight_loader::{
    cached_before, ffn_at, ffn_steps, kda_layer_trace, layer_trace, layers_trace, model_trace,
    norm_steps, quantizer_lookups, StateBytes, TransformerLayer,
};
use crate::weight_map::{dsa_trace, kda_trace, pack_trace, Glm5DsaWeights, Glm5KdaWeights};

verus! {

/// The tensors of layer `index` are stored under this name.
pub open spec fn stored_under(index: nat) -> Seq<char> {
    "model.language_model.layers."@ + decimal(index)
}

/// `weight` is the stored tensor `name`.
pub open spec fn is_norm(
    steps: Seq<CommandView>,
    id: u64,
    at: nat,
    weight: DenseWeight,
    name: Seq<char>,
) -> bool {
    made_by(steps, id, at, weight.weight, 0, CommandOf::LoadDense { name })
}

/// `kernel` is kernel `name` of `module`.
pub open spec fn is_kernel(
    steps: Seq<CommandView>,
    id: u64,
    at: nat,
    kernel: KernelHandle,
    module: &'static str,
    name: &'static str,
) -> bool {
    finder(steps, id, at, kernel) == Some(call(DeviceCall::LookupKernel { module, name }))
}

/// The feed-forward block of layer `index`: dense where the configuration says so,
/// and a mixture of experts elsewhere.
pub open spec fn ffn_by_name(
    steps: Seq<CommandView>,
    id: u64,
    at: nat,
    ffn: FfnComponent,
    config: ModelConfig,
    index: usize,
    quantizer: Quantizer,
) -> bool {
    let prefix = stored_under(index as nat) + ".mlp"@;
    if config.mlp_only_layers@.contains(index) {
        dense_ffn_by_name(
            steps,
            id,
            at,
            ffn,
            prefix,
            config.intermediate_size,
            config.hidden_size,
            quantizer,
        )
    } else {
        moe_by_name(steps, id, at, ffn, prefix, config, quantizer)
    }
}

/// `packed` is a fresh allocation that holds the query, key and value kernels of
/// the convolution one behind the other.
pub open spec fn is_packed(
    steps: Seq<CommandView>,
    id: u64,
    at: nat,
    packed: DenseWeight,
    weights: Glm5KdaWeights,
    config: ModelConfig,
) -> bool {
    let bytes = config.linear_num_key_heads * config.linear_key_head_dim
        * config.linear_conv_kernel_dim * 2;
    let copied = |source: DenseWeight, place: int|
        recorded(
            steps,
            CommandOf::Call(
                DeviceCall::CopyD2d {
                    src: source.weight,
                    dst: packed.weight.plus(place * bytes),
                    bytes: bytes as usize,
                },
            ),
        );
    &&& made_by(
        steps,
        id,
        at,
        packed.weight,
        0,
        CommandOf::Call(DeviceCall::Alloc { bytes: (bytes * 3) as usize }),
    )
    &&& copied(weights.q_conv1d, 0)
    &&& copied(weights.k_conv1d, 1)
    &&& copied(weights.v_conv1d, 2)
}

/// The kernels of a linear-attention layer are those that they are named after.
pub open spec fn kernels_by_name(
    steps: Seq<CommandView>,
    id: u64,
    at: nat,
    layer: Glm5KdaLayer,
) -> bool {
    let kernel = |kernel: KernelHandle, module: &'static str, name: &'static str|
        is_kernel(steps, id, at, kernel, module, name);
    &&& kernel(layer.rms_norm_k, "rms_norm_vanilla", "rms_norm_vanilla")
    &&& kernel(layer.dense_gemv_k, "gemv", "dense_gemv_bf16")
    &&& kernel(layer.conv1d_k, "causal_conv1d", "causal_conv1d_update")
    &&& kernel(layer.kda_recurrent_k, "kda", "kda_recurrent_decode")
    &&& kernel(layer.kda_gated_norm_k, "kda", "kda_gated_rms_norm")
    &&& kernel(layer.hc_expand_k, "hyper_connection", "hc_expand")
    &&& kernel(layer.hc_pre_k, "hyper_connection", "hc_pre")
    &&& kernel(layer.hc_post_k, "hyper_connection", "hc_post")
    &&& kernel(layer.hc_mean_k, "hyper_connection", "hc_mean")
}

/// Linear-attention layer `index`, part for part from the tensors and kernels that
/// the parts are named after.
pub open spec fn kda_layer_by_name(
    store: WeightStore,
    steps: Seq<CommandView>,
    id: u64,
    at: nat,
    layer: Glm5KdaLayer,
    config: ModelConfig,
    index: usize,
    quantizer: Quantizer,
    state: StateBytes,
) -> bool {
    let prefix = stored_under(index as nat);
    &&& is_norm(steps, id, at, layer.input_norm, prefix + ".input_layernorm.weight"@)
    &&& is_norm(steps, id, at, layer.post_attn_norm, prefix + ".post_attention_layernorm.weight"@)
    &&& kda_by_name(store, steps, id, at, layer.kda, prefix, config)
    &&& is_packed(steps, id, at, layer.conv_weight, layer.kda, config)
    &&& ffn_by_name(steps, id, at, layer.ffn, config, index, quantizer)
    &&& hc_by_name(steps, id, at, layer.hc, prefix, config)
    &&& layer.layer_idx == index
    &&& layer.h_state_bytes == state.h_state
    &&& layer.conv_state_bytes == state.conv_state
    &&& kernels_by_name(steps, id, at, layer)
}

/// The weights of `mla` that are stored tensors.
pub open spec fn stored_part(mla: MlaWeights) -> Glm5DsaWeights {
    Glm5DsaWeights {
        q_a_proj: mla.wq_a,
        q_a_norm: mla.q_a_norm,
        q_b_proj: mla.wq_b,
        kv_a_proj_with_mqa: mla.wkv_a,
        kv_a_norm: mla.kv_a_norm,
        kv_b_proj: mla.wkv_b,
        o_proj: mla.wo,
        indexer: mla.glm_indexer->0,
    }
}

/// The per-head views are those of the up-projections of `mla`: of the
/// key/value one the transposed keys and the values, of the query one the rotary
/// part. The absorbed product and the block diagonals are made from these views.
pub open spec fn views_by_name(
    store: WeightStore,
    steps: Seq<CommandView>,
    id: u64,
    at: nat,
    mla: MlaWeights,
    prefix: Seq<char>,
) -> bool {
    let q_b_shape = store.shape(prefix + ".self_attn"@ + ".q_b_proj.weight"@)->0;
    let kv_b_shape = store.shape(prefix + ".self_attn"@ + ".kv_b_proj.weight"@)->0;
    let views: CommandView = CommandOf::PerHeadViews {
        kv_b: mla.wkv_b,
        kv_b_shape,
        q_b: mla.wq_b,
        q_b_shape,
    };
    let diagonals = maker(steps, id, at, mla.w_uk_block_diag.weight, 0);
    &&& made_by(steps, id, at, mla.w_uk_t.weight, 0, views)
    &&& made_by(steps, id, at, mla.w_uv.weight, 1, views)
    &&& made_by(steps, id, at, mla.wq_b_rope.weight, 2, views)
    &&& made_by(
        steps,
        id,
        at,
        mla.w_qk_absorbed.weight,
        0,
        CommandOf::QkAbsorbed { q_b: mla.wq_b, q_b_shape, w_uk_t: mla.w_uk_t },
    )
    &&& match diagonals {
        Some(CommandOf::Call(DeviceCall::BlockDiagonals { w_uk_host, w_uv })) => {
            &&& made_by(steps, id, at, w_uk_host, 3, views)
            &&& w_uv == mla.w_uv
        },
        _ => false,
    }
    &&& maker(steps, id, at, mla.w_uv_block_diag.weight, 1) == diagonals
}

/// There is no rotary part, no grouped output projection, no second quantised
/// form, and the ranks and widths are those of the configuration.
pub open spec fn plain_geometry(mla: MlaWeights, config: ModelConfig) -> bool {
    &&& mla.glm_indexer is Some
    &&& mla.wq_a_nvfp4 is None && mla.wq_a_fp8 is None
    &&& mla.wq_b_nvfp4 is None && mla.wq_b_fp8 is None
    &&& mla.wkv_a_nvfp4 is None && mla.wkv_a_fp8 is None
    &&& mla.wo_nvfp4 is None
    &&& mla.wo_a_nvfp4 is None && mla.wo_a_fp8 is None
    &&& mla.wo_b_nvfp4 is None && mla.wo_b_fp8 is None
    &&& mla.wkv_a_rope.weight == null_ptr()
    &&& mla.wkv_a_merged.weight == null_ptr()
    &&& mla.wo_a.weight == null_ptr()
    &&& mla.wo_b.weight == null_ptr()
    &&& mla.yarn_inv_freq == null_ptr()
    &&& mla.main_inv_freq == null_ptr()
    &&& mla.attn_sink == null_ptr()
    &&& mla.compressor is None
    &&& mla.q_lora_rank == config.q_lora_rank
    &&& mla.kv_lora_rank == config.kv_lora_rank
    &&& mla.nope == config.qk_nope_head_dim
    &&& mla.v_dim == config.v_head_dim
    &&& mla.o_lora_rank == 0
    &&& mla.rope == 0
}

/// No conventional projections, and unit cache scales.
pub open spec fn unprojected(attention: AttentionWeights) -> bool {
    let one = Float32::Bits(0x3f80_0000);
    &&& attention.q_proj.weight == null_ptr()
    &&& attention.k_proj.weight == null_ptr()
    &&& attention.v_proj.weight == null_ptr()
    &&& attention.o_proj.weight == null_ptr()
    &&& attention.q_norm.weight == null_ptr()
    &&& attention.k_norm.weight == null_ptr()
    &&& attention.q_norm_full is None
    &&& attention.k_norm_full is None
    &&& attention.k_scale == one
    &&& attention.v_scale == one
}

/// The attention layer of the runtime is built with the two norms of layer
/// `index`, with `ffn`, and with the number of the cache.
pub open spec fn attention_by_name(
    steps: Seq<CommandView>,
    id: u64,
    at: nat,
    layer: DsaLayer,
    index: usize,
    ffn: FfnComponent,
) -> bool {
    let prefix = stored_under(index as nat);
    match maker(steps, id, at, layer.attention, 0) {
        Some(CommandOf::Call(DeviceCall::NewUngatedAttention {
            input_norm,
            attention,
            post_norm,
            ffn: attached,
            attn_layer_idx,
            kv_dtype,
        })) => {
            &&& is_norm(steps, id, at, input_norm, prefix + ".input_layernorm.weight"@)
            &&& is_norm(steps, id, at, post_norm, prefix + ".post_attention_layernorm.weight"@)
            &&& unprojected(attention)
            &&& attached == ffn
            &&& attn_layer_idx == layer.attn_layer_idx
            &&& kv_dtype == KvCacheDtype::Bf16
        },
        _ => false,
    }
}

/// Sparse-attention layer `index`, part for part from the tensors that the parts
/// are named after.
pub open spec fn dsa_layer_by_name(
    store: WeightStore,
    steps: Seq<CommandView>,
    id: u64,
    at: nat,
    layer: DsaLayer,
    config: ModelConfig,
    index: usize,
    quantizer: Quantizer,
) -> bool {
    let prefix = stored_under(index as nat);
    &&& dsa_by_name(store, steps, id, at, stored_part(layer.mla), prefix, config)
    &&& views_by_name(store, steps, id, at, layer.mla, prefix)
    &&& plain_geometry(layer.mla, config)
    &&& hc_by_name(steps, id, at, layer.hc, prefix, config)
    &&& layer.physical_layer_idx == index
    &&& attention_by_name(steps, id, at, layer, index, attached_ffn(steps, id, at, layer))
    &&& ffn_by_name(
        steps,
        id,
        at,
        attached_ffn(steps, id, at, layer),
        config,
        index,
        quantizer,
    )
}

/// The feed-forward block that the attention layer was built with.
pub open spec fn attached_ffn(
    steps: Seq<CommandView>,
    id: u64,
    at: nat,
    layer: DsaLayer,
) -> FfnComponent {
    (maker(steps, id, at, layer.attention, 0)->0->Call_0)->NewUngatedAttention_ffn
}

/// Every one of `layers`, part for part from what its parts are named after.
pub open spec fn all_by_name(
    store: WeightStore,
    steps: Seq<CommandView>,
    id: u64,
    at: nat,
    layers: Seq<TransformerLayer>,
    config: ModelConfig,
    quantizer: Quantizer,
    state: StateBytes,
) -> bool {
    forall|i: int|
        0 <= i < layers.len() ==> layer_by_name(
            store,
            steps,
            id,
            at,
            #[trigger] layers[i],
            config,
            i as usize,
            quantizer,
            state,
        )
}

/// Layer `index`, part for part from what the parts are named after.
pub open spec fn layer_by_name(
    store: WeightStore,
    steps: Seq<CommandView>,
    id: u64,
    at: nat,
    layer: TransformerLayer,
    config: ModelConfig,
    index: usize,
    quantizer: Quantizer,
    state: StateBytes,
) -> bool {
    match layer {
        TransformerLayer::Kda(layer) => {
            kda_layer_by_name(store, steps, id, at, layer, config, index, quantizer, state)
        },
        TransformerLayer::Dsa(layer) => {
            dsa_layer_by_name(store, steps, id, at, layer, config, index, quantizer)
        },
    }
}

proof fn lemma_ffn_by_name(
    config: ModelConfig,
    index: usize,
    quantizer: Quantizer,
    id: u64,
    at: nat,
)
    requires
        at + ffn_steps(config, index, quantizer, id, at).len() <= usize::MAX,
    ensures
        ffn_by_name(
            ffn_steps(config, index, quantizer, id, at),
            id,
            at,
            ffn_at(config, index, id, at),
            config,
            index,
            quantizer,
        ),
{
    let prefix = stored_under(index as nat) + ".mlp"@;
    if config.mlp_only_layers@.contains(index) {
        law_dense_ffn_by_name(
            prefix,
            config.intermediate_size,
            config.hidden_size,
            quantizer,
            id,
            at,
        );
    } else {
        lemma_expert_count(prefix, config, quantizer, config.num_experts as nat, id, at + 1);
        law_moe_by_name(prefix, config, quantizer, id, at);
    }
}

proof fn lemma_ffn_within(
    before: Seq<CommandView>,
    steps: Seq<CommandView>,
    after: Seq<CommandView>,
    id: u64,
    at: nat,
    ffn: FfnComponent,
    config: ModelConfig,
    index: usize,
    quantizer: Quantizer,
)
    requires
        ffn_by_name(steps, id, at + before.len(), ffn, config, index, quantizer),
    ensures
        ffn_by_name(before + steps + after, id, at, ffn, config, index, quantizer),
{
    lemma_within(before, steps, after, id, at);
}

proof fn lemma_kda_within(
    before: Seq<CommandView>,
    steps: Seq<CommandView>,
    after: Seq<CommandView>,
    id: u64,
    at: nat,
    store: WeightStore,
    weights: Glm5KdaWeights,
    prefix: Seq<char>,
    config: ModelConfig,
)
    requires
        kda_by_name(store, steps, id, at + before.len(), weights, prefix, config),
    ensures
        kda_by_name(store, before + steps + after, id, at, weights, prefix, config),
{
    lemma_within(before, steps, after, id, at);
}

proof fn lemma_dsa_within(
    before: Seq<CommandView>,
    steps: Seq<CommandView>,
    after: Seq<CommandView>,
    id: u64,
    at: nat,
    store: WeightStore,
    weights: Glm5DsaWeights,
    prefix: Seq<char>,
    config: ModelConfig,
)
    requires
        dsa_by_name(store, steps, id, at + before.len(), weights, prefix, config),
    ensures
        dsa_by_name(store, before + steps + after, id, at, weights, prefix, config),
{
    lemma_within(before, steps, after, id, at);
}

proof fn lemma_hc_within(
    before: Seq<CommandView>,
    steps: Seq<CommandView>,
    after: Seq<CommandView>,
    id: u64,
    at: nat,
    hc: HcWeights,
    prefix: Seq<char>,
    config: ModelConfig,
)
    requires
        hc_by_name(steps, id, at + before.len(), hc, prefix, config),
    ensures
        hc_by_name(before + steps + after, id, at, hc, prefix, config),
{
    lemma_within(before, steps, after, id, at);
}

proof fn lemma_packed_within(
    before: Seq<CommandView>,
    steps: Seq<CommandView>,
    after: Seq<CommandView>,
    id: u64,
    at: nat,
    packed: DenseWeight,
    weights: Glm5KdaWeights,
    config: ModelConfig,
)
    requires
        is_packed(steps, id, at + before.len(), packed, weights, config),
    ensures
        is_packed(before + steps + after, id, at, packed, weights, config),
{
    lemma_within(before, steps, after, id, at);
}

proof fn lemma_views_within(
    before: Seq<CommandView>,
    steps: Seq<CommandView>,
    after: Seq<CommandView>,
    id: u64,
    at: nat,
    store: WeightStore,
    mla: MlaWeights,
    prefix: Seq<char>,
)
    requires
        views_by_name(store, steps, id, at + before.len(), mla, prefix),
    ensures
        views_by_name(store, before + steps + after, id, at, mla, prefix),
{
    lemma_within(before, steps, after, id, at);
}

proof fn lemma_kernels_within(
    before: Seq<CommandView>,
    steps: Seq<CommandView>,
    after: Seq<CommandView>,
    id: u64,
    at: nat,
    layer: Glm5KdaLayer,
)
    requires
        kernels_by_name(steps, id, at + before.len(), layer),
    ensures
        kernels_by_name(before + steps + after, id, at, layer),
{
    lemma_within(before, steps, after, id, at);
}

proof fn lemma_packed(weights: Glm5KdaWeights, config: ModelConfig, id: u64, at: nat)
    requires
        pack_trace(weights, config, id, at).outcome is Ok,
        at + 4 <= usize::MAX,
    ensures
        is_packed(
            pack_trace(weights, config, id, at).steps,
            id,
            at,
            pack_trace(weights, config, id, at).outcome->Ok_0,
            weights,
            config,
        ),
{
    let steps = pack_trace(weights, config, id, at).steps;
    let packed = pack_trace(weights, config, id, at).outcome->Ok_0;
    let bytes = config.linear_num_key_heads * config.linear_key_head_dim
        * config.linear_conv_kernel_dim * 2;
    assert(0 * bytes == 0 && 1 * bytes == bytes && 2 * bytes == bytes * 2);
    assert(packed.weight.plus(0) == packed.weight);
    lemma_made_at(steps, id, at, 0, 0);
    lemma_made_at(steps, id, at, 1, 0);
    lemma_made_at(steps, id, at, 2, 0);
    lemma_made_at(steps, id, at, 3, 0);
}

proof fn lemma_kernels(
    input_norm: DenseWeight,
    kda: Glm5KdaWeights,
    conv: DenseWeight,
    post_norm: DenseWeight,
    ffn: FfnComponent,
    hc: HcWeights,
    index: usize,
    config: ModelConfig,
    state: StateBytes,
    id: u64,
    at: nat,
)
    requires
        at + 9 <= usize::MAX,
        new_layer_trace(
            input_norm,
            kda,
            conv,
            post_norm,
            ffn,
            hc,
            index,
            config,
            state.h_state,
            state.conv_state,
            id,
            at,
        ).outcome is Ok,
    ensures
        ({
            let block = new_layer_trace(
                input_norm,
                kda,
                conv,
                post_norm,
                ffn,
                hc,
                index,
                config,
                state.h_state,
                state.conv_state,
                id,
                at,
            );
            kernels_by_name(block.steps, id, at, block.outcome->Ok_0)
        }),
{
    let steps = layer_lookups();
    lemma_made_at(steps, id, at, 0, 0);
    lemma_made_at(steps, id, at, 1, 0);
    lemma_made_at(steps, id, at, 2, 0);
    lemma_made_at(steps, id, at, 3, 0);
    lemma_made_at(steps, id, at, 4, 0);
    lemma_made_at(steps, id, at, 5, 0);
    lemma_made_at(steps, id, at, 6, 0);
    lemma_made_at(steps, id, at, 7, 0);
    lemma_made_at(steps, id, at, 8, 0);
}

/// What the mixer of a linear-attention layer loads.
proof fn lemma_kda_mixer(
    store: WeightStore,
    config: ModelConfig,
    index: usize,
    norms: (DenseWeight, DenseWeight),
    ffn: FfnComponent,
    state: StateBytes,
    id: u64,
    at: nat,
)
    requires
        kda_layer_trace(store, config, index, norms, ffn, state, id, at).outcome is Ok,
        at + kda_layer_trace(store, config, index, norms, ffn, state, id, at).steps.len()
            <= usize::MAX,
    ensures
        ({
            let trace = kda_layer_trace(store, config, index, norms, ffn, state, id, at);
            let prefix = stored_under(index as nat);
            let layer = trace.outcome->Ok_0->Kda_0;
            &&& trace.outcome->Ok_0 is Kda
            &&& layer.input_norm == norms.0
            &&& layer.post_attn_norm == norms.1
            &&& layer.ffn == ffn
            &&& layer.layer_idx == index
            &&& layer.h_state_bytes == state.h_state
            &&& layer.conv_state_bytes == state.conv_state
            &&& kda_by_name(store, trace.steps, id, at, layer.kda, prefix, config)
            &&& is_packed(trace.steps, id, at, layer.conv_weight, layer.kda, config)
            &&& hc_by_name(trace.steps, id, at, layer.hc, prefix, config)
            &&& kernels_by_name(trace.steps, id, at, layer)
        }),
{
    let prefix = stored_under(index as nat);
    let trace = kda_layer_trace(store, config, index, norms, ffn, state, id, at);
    let weights = kda_trace(store, prefix, config, id, at);
    let kda = weights.outcome->Ok_0;
    let packing = pack_trace(kda, config, id, at + weights.steps.len());
    let conv = packing.outcome->Ok_0;
    let loaded = weights.steps + packing.steps;
    let hc = hc_steps(prefix, config);
    let hc_weights = hc_at(config, id, at + loaded.len());
    let block = new_layer_trace(
        norms.0,
        kda,
        conv,
        norms.1,
        ffn,
        hc_weights,
        index,
        config,
        state.h_state,
        state.conv_state,
        id,
        at + loaded.len() + hc.len(),
    );
    let layer = block.outcome->Ok_0;
    let nothing = Seq::<CommandView>::empty();
    let steps = trace.steps;
    assert(steps =~= loaded + (hc + block.steps));
    assert(steps =~= nothing + weights.steps + (packing.steps + hc + block.steps));
    assert(steps =~= weights.steps + packing.steps + (hc + block.steps));
    assert(steps =~= loaded + hc + block.steps);
    assert(steps =~= (loaded + hc) + block.steps + nothing);
    law_kda_weights_by_name(store, prefix, config, id, at);
    lemma_kda_within(
        nothing,
        weights.steps,
        packing.steps + hc + block.steps,
        id,
        at,
        store,
        kda,
        prefix,
        config,
    );
    lemma_packed(kda, config, id, at + weights.steps.len());
    lemma_packed_within(
        weights.steps,
        packing.steps,
        hc + block.steps,
        id,
        at,
        conv,
        kda,
        config,
    );
    law_hc_by_name(prefix, config, id, at + loaded.len());
    lemma_hc_within(loaded, hc, block.steps, id, at, hc_weights, prefix, config);
    lemma_kernels(
        norms.0,
        kda,
        conv,
        norms.1,
        ffn,
        hc_weights,
        index,
        config,
        state,
        id,
        at + loaded.len() + hc.len(),
    );
    lemma_kernels_within(loaded + hc, block.steps, nothing, id, at, layer);
}

proof fn lemma_norms(index: usize, id: u64, at: nat, after: Seq<CommandView>)
    requires
        at + 2 <= usize::MAX,
    ensures
        ({
            let steps = norm_steps(index) + after;
            let prefix = stored_under(index as nat);
            let input = DenseWeight { weight: result_ptr(id, at) };
            let post = DenseWeight { weight: result_ptr(id, at + 1) };
            &&& is_norm(steps, id, at, input, prefix + ".input_layernorm.weight"@)
            &&& is_norm(steps, id, at, post, prefix + ".post_attention_layernorm.weight"@)
        }),
{
    let steps = norm_steps(index) + after;
    lemma_made_at(steps, id, at, 0, 0);
    lemma_made_at(steps, id, at, 1, 0);
}

/// What follows the tensors of a sparse-attention layer.
proof fn lemma_attention_parts(
    store: WeightStore,
    dsa: Glm5DsaWeights,
    config: ModelConfig,
    index: usize,
    attn_layer_idx: usize,
    ffn: FfnComponent,
    id: u64,
    at: nat,
)
    requires
        at + 12 <= usize::MAX,
    ensures
        ({
            let prefix = stored_under(index as nat);
            let steps = attention_steps(
                store,
                prefix,
                dsa,
                config,
                attn_layer_idx,
                ffn,
                id,
                at,
            );
            let layer = dsa_layer_at(dsa, config, index, attn_layer_idx, id, at);
            &&& views_by_name(store, steps, id, at, layer.mla, prefix)
            &&& hc_by_name(steps, id, at, layer.hc, prefix, config)
            &&& attention_by_name(steps, id, at, layer, index, ffn)
        }),
{
    let prefix = stored_under(index as nat);
    let steps = attention_steps(store, prefix, dsa, config, attn_layer_idx, ffn, id, at);
    let hc = hc_steps(prefix, config);
    let first = steps.take(6);
    let nothing = Seq::<CommandView>::empty();
    assert(steps =~= first + hc + nothing);
    law_hc_by_name(prefix, config, id, at + 6);
    lemma_hc_within(first, hc, nothing, id, at, hc_at(config, id, at + 6), prefix, config);
    lemma_made_at(steps, id, at, 0, 0);
    lemma_made_at(steps, id, at, 0, 1);
    lemma_made_at(steps, id, at, 0, 2);
    lemma_made_at(steps, id, at, 0, 3);
    lemma_made_at(steps, id, at, 1, 0);
    lemma_made_at(steps, id, at, 2, 0);
    lemma_made_at(steps, id, at, 2, 1);
    lemma_made_at(steps, id, at, 3, 0);
    lemma_made_at(steps, id, at, 4, 0);
    lemma_made_at(steps, id, at, 5, 0);
}

proof fn lemma_attention_within(
    before: Seq<CommandView>,
    steps: Seq<CommandView>,
    after: Seq<CommandView>,
    id: u64,
    at: nat,
    layer: DsaLayer,
    index: usize,
    ffn: FfnComponent,
)
    requires
        attention_by_name(steps, id, at + before.len(), layer, index, ffn),
    ensures
        attention_by_name(before + steps + after, id, at, layer, index, ffn),
{
    lemma_within(before, steps, after, id, at);
}

/// What the mixer of a sparse-attention layer loads.
proof fn lemma_dsa_mixer(
    store: WeightStore,
    config: ModelConfig,
    index: usize,
    attn_layer_idx: usize,
    ffn: FfnComponent,
    id: u64,
    at: nat,
)
    requires
        ({
            let trace = dsa_layer_trace(
                store,
                stored_under(index as nat),
                config,
                index,
                attn_layer_idx,
                ffn,
                id,
                at,
            );
            &&& trace.outcome is Ok
            &&& at + trace.steps.len() <= usize::MAX
        }),
    ensures
        ({
            let prefix = stored_under(index as nat);
            let trace = dsa_layer_trace(
                store,
                prefix,
                config,
                index,
                attn_layer_idx,
                ffn,
                id,
                at,
            );
            let layer = trace.outcome->Ok_0;
            let steps = trace.steps;
            &&& dsa_by_name(store, steps, id, at, stored_part(layer.mla), prefix, config)
            &&& views_by_name(store, steps, id, at, layer.mla, prefix)
            &&& plain_geometry(layer.mla, config)
            &&& hc_by_name(steps, id, at, layer.hc, prefix, config)
            &&& attention_by_name(steps, id, at, layer, index, ffn)
            &&& layer.physical_layer_idx == index
        }),
{
    let prefix = stored_under(index as nat);
    let trace = dsa_layer_trace(store, prefix, config, index, attn_layer_idx, ffn, id, at);
    let layer = trace.outcome->Ok_0;
    let weights = dsa_trace(store, prefix, config, id, at);
    let dsa = weights.outcome->Ok_0;
    let next = at + weights.steps.len();
    let rest = attention_steps(store, prefix, dsa, config, attn_layer_idx, ffn, id, next);
    let nothing = Seq::<CommandView>::empty();
    assert(trace.steps =~= nothing + weights.steps + rest);
    assert(trace.steps =~= weights.steps + rest + nothing);
    assert(stored_part(layer.mla) == dsa);
    law_dsa_weights_by_name(store, prefix, config, id, at);
    lemma_dsa_within(nothing, weights.steps, rest, id, at, store, dsa, prefix, config);
    lemma_attention_parts(store, dsa, config, index, attn_layer_idx, ffn, id, next);
    lemma_views_within(weights.steps, rest, nothing, id, at, store, layer.mla, prefix);
    lemma_hc_within(weights.steps, rest, nothing, id, at, layer.hc, prefix, config);
    lemma_attention_within(weights.steps, rest, nothing, id, at, layer, index, ffn);
}

/// A layer that loads is made part for part from the tensors that its parts are
/// named after.
pub proof fn law_layer_by_name(
    store: WeightStore,
    config: ModelConfig,
    index: usize,
    quantizer: Quantizer,
    state: StateBytes,
    id: u64,
    at: nat,
)
    requires
        layer_trace(store, config, index, quantizer, state, id, at).outcome is Ok,
        at + layer_trace(store, config, index, quantizer, state, id, at).steps.len() <= usize::MAX,
    ensures
        layer_by_name(
            store,
            layer_trace(store, config, index, quantizer, state, id, at).steps,
            id,
            at,
            layer_trace(store, config, index, quantizer, state, id, at).outcome->Ok_0,
            config,
            index,
            quantizer,
            state,
        ),
{
    let prefix = stored_under(index as nat);
    let trace = layer_trace(store, config, index, quantizer, state, id, at);
    let steps = trace.steps;
    let norms = norm_steps(index);
    let block = ffn_steps(config, index, quantizer, id, at + 2);
    let ffn = ffn_at(config, index, id, at + 2);
    let first = norms + block;
    let mixer = steps.skip(first.len() as int);
    let nothing = Seq::<CommandView>::empty();
    let input_norm = DenseWeight { weight: result_ptr(id, at) };
    let post_norm = DenseWeight { weight: result_ptr(id, at + 1) };
    assert(steps =~= norms + (block + mixer));
    assert(steps =~= norms + block + mixer);
    assert(steps =~= first + mixer + nothing);
    lemma_norms(index, id, at, block + mixer);
    lemma_ffn_by_name(config, index, quantizer, id, at + 2);
    lemma_ffn_within(norms, block, mixer, id, at, ffn, config, index, quantizer);
    match config.layer_types@[index as int] {
        LayerType::LinearAttention => {
            let next = at + first.len();
            let loaded = kda_layer_trace(
                store,
                config,
                index,
                (input_norm, post_norm),
                ffn,
                state,
                id,
                next,
            );
            assert(mixer =~= loaded.steps);
            lemma_kda_mixer(store, config, index, (input_norm, post_norm), ffn, state, id, next);
            let layer = loaded.outcome->Ok_0->Kda_0;
            lemma_kda_within(
                first,
                mixer,
                nothing,
                id,
                at,
                store,
                layer.kda,
                prefix,
                config,
            );
            lemma_packed_within(
                first,
                mixer,
                nothing,
                id,
                at,
                layer.conv_weight,
                layer.kda,
                config,
            );
            lemma_hc_within(first, mixer, nothing, id, at, layer.hc, prefix, config);
            lemma_kernels_within(first, mixer, nothing, id, at, layer);
        },
        LayerType::FullAttention => {
            let next = at + first.len();
            let number = cached_before(config, index as int) as usize;
            let loaded = dsa_layer_trace(store, prefix, config, index, number, ffn, id, next);
            assert(mixer =~= loaded.steps);
            lemma_dsa_mixer(store, config, index, number, ffn, id, next);
            let layer = loaded.outcome->Ok_0;
            lemma_dsa_within(
                first,
                mixer,
                nothing,
                id,
                at,
                store,
                stored_part(layer.mla),
                prefix,
                config,
            );
            lemma_views_within(first, mixer, nothing, id, at, store, layer.mla, prefix);
            lemma_hc_within(first, mixer, nothing, id, at, layer.hc, prefix, config);
            lemma_attention_within(first, mixer, nothing, id, at, layer, index, ffn);
        },
    }
}

proof fn lemma_layer_within(
    before: Seq<CommandView>,
    steps: Seq<CommandView>,
    after: Seq<CommandView>,
    id: u64,
    at: nat,
    store: WeightStore,
    layer: TransformerLayer,
    config: ModelConfig,
    index: usize,
    quantizer: Quantizer,
    state: StateBytes,
)
    requires
        layer_by_name(
            store,
            steps,
            id,
            at + before.len(),
            layer,
            config,
            index,
            quantizer,
            state,
        ),
    ensures
        layer_by_name(
            store,
            before + steps + after,
            id,
            at,
            layer,
            config,
            index,
            quantizer,
            state,
        ),
{
    let prefix = stored_under(index as nat);
    match layer {
        TransformerLayer::Kda(layer) => {
            lemma_kda_within(before, steps, after, id, at, store, layer.kda, prefix, config);
            lemma_packed_within(
                before,
                steps,
                after,
                id,
                at,
                layer.conv_weight,
                layer.kda,
                config,
            );
            lemma_hc_within(before, steps, after, id, at, layer.hc, prefix, config);
            lemma_kernels_within(before, steps, after, id, at, layer);
            lemma_ffn_within(
                before,
                steps,
                after,
                id,
                at,
                layer.ffn,
                config,
                index,
                quantizer,
            );
            lemma_within(before, steps, after, id, at);
        },
        TransformerLayer::Dsa(layer) => {
            let ffn = attached_ffn(steps, id, at + before.len(), layer);
            let mla = stored_part(layer.mla);
            lemma_dsa_within(before, steps, after, id, at, store, mla, prefix, config);
            lemma_views_within(before, steps, after, id, at, store, layer.mla, prefix);
            lemma_hc_within(before, steps, after, id, at, layer.hc, prefix, config);
            lemma_attention_within(before, steps, after, id, at, layer, index, ffn);
            lemma_ffn_within(before, steps, after, id, at, ffn, config, index, quantizer);
            lemma_within(before, steps, after, id, at);
        },
    }
}

/// Every layer of the first `count` that load is made from its own tensors.
pub proof fn law_layers_by_name(
    store: WeightStore,
    config: ModelConfig,
    count: nat,
    quantizer: Quantizer,
    state: StateBytes,
    id: u64,
    at: nat,
)
    requires
        count <= usize::MAX,
        layers_trace(store, config, count, quantizer, state, id, at).outcome is Ok,
        at + layers_trace(store, config, count, quantizer, state, id, at).steps.len()
            <= usize::MAX,
    ensures
        ({
            let trace = layers_trace(store, config, count, quantizer, state, id, at);
            let layers = trace.outcome->Ok_0;
            &&& layers.len() == count
            &&& forall|i: int|
                0 <= i < count ==> layer_by_name(
                    store,
                    trace.steps,
                    id,
                    at,
                    #[trigger] layers[i],
                    config,
                    i as usize,
                    quantizer,
                    state,
                )
        }),
    decreases count,
{
    if count > 0 {
        let last = (count - 1) as nat;
        let trace = layers_trace(store, config, count, quantizer, state, id, at);
        let before = layers_trace(store, config, last, quantizer, state, id, at);
        let next = at + before.steps.len();
        let own = layer_trace(store, config, last as usize, quantizer, state, id, next);
        let nothing = Seq::<CommandView>::empty();
        law_layers_by_name(store, config, last, quantizer, state, id, at);
        law_layer_by_name(store, config, last as usize, quantizer, state, id, next);
        assert(trace.steps =~= nothing + before.steps + own.steps);
        assert(trace.steps =~= before.steps + own.steps + nothing);
        let layers = trace.outcome->Ok_0;
        let earlier = before.outcome->Ok_0;
        assert(layers == earlier.push(own.outcome->Ok_0));
        assert forall|i: int| 0 <= i < count implies layer_by_name(
            store,
            trace.steps,
            id,
            at,
            #[trigger] layers[i],
            config,
            i as usize,
            quantizer,
            state,
        ) by {
            if i < last {
                assert(layers[i] == earlier[i]);
                lemma_layer_within(
                    nothing,
                    before.steps,
                    own.steps,
                    id,
                    at,
                    store,
                    layers[i],
                    config,
                    i as usize,
                    quantizer,
                    state,
                );
            } else {
                lemma_layer_within(
                    before.steps,
                    own.steps,
                    nothing,
                    id,
                    at,
                    store,
                    layers[i],
                    config,
                    i as usize,
                    quantizer,
                    state,
                );
            }
        }
    }
}

/// Every layer of a model that loads is made from the tensors stored under its
/// own number, each part from the tensor or kernel that it is named after, with
/// weights quantised by the two kernels that quantise.
pub proof fn law_model_by_name(
    store: WeightStore,
    config: ModelConfig,
    state: StateBytes,
    stream: u64,
    id: u64,
    at: nat,
)
    requires
        model_trace(store, config, state, stream, id, at).outcome is Ok,
        at + model_trace(store, config, state, stream, id, at).steps.len() <= usize::MAX,
    ensures
        ({
            let trace = model_trace(store, config, state, stream, id, at);
            let layers = trace.outcome->Ok_0;
            &&& layers.len() == config.num_hidden_layers
            &&& exists|quantizer: Quantizer|
                {
                    &&& quantizer.stream == stream
                    &&& is_kernel(
                        trace.steps,
                        id,
                        at,
                        quantizer.absmax,
                        "quantize_nvfp4",
                        "nvfp4_global_absmax",
                    )
                    &&& is_kernel(
                        trace.steps,
                        id,
                        at,
                        quantizer.quantize,
                        "quantize_nvfp4",
                        "quantize_bf16_to_nvfp4",
                    )
                    &&& #[trigger] all_by_name(
                        store,
                        trace.steps,
                        id,
                        at,
                        layers,
                        config,
                        quantizer,
                        state,
                    )
                }
        }),
{
    let trace = model_trace(store, config, state, stream, id, at);
    let quantizer = Quantizer {
        absmax: result_kernel(id, at),
        quantize: result_kernel(id, at + 1),
        stream,
    };
    let count = config.num_hidden_layers as nat;
    let loaded = layers_trace(store, config, count, quantizer, state, id, at + 2);
    let lookups = quantizer_lookups();
    let nothing = Seq::<CommandView>::empty();
    let layers = trace.outcome->Ok_0;
    assert(trace.steps =~= lookups + loaded.steps + nothing);
    lemma_made_at(trace.steps, id, at, 0, 0);
    lemma_made_at(trace.steps, id, at, 1, 0);
    law_layers_by_name(store, config, count, quantizer, state, id, at + 2);
    assert forall|i: int| 0 <= i < layers.len() implies layer_by_name(
        store,
        trace.steps,
        id,
        at,
        #[trigger] layers[i],
        config,
        i as usize,
        quantizer,
        state,
    ) by {
        lemma_layer_within(
            lookups,
            loaded.steps,
            nothing,
            id,
            at,
            store,
            layers[i],
            config,
            i as usize,
            quantizer,
            state,
        );
    }
    assert(all_by_name(store, trace.steps, id, at, layers, config, quantizer, state));
}

} // verus!
