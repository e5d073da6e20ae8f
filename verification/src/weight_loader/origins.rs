//! Where the parts of a loaded model come from.
//!
//! A weight is named by the command that produces it, so what it is can be read
//! off the recorded commands: which tensor was loaded, what was quantised, which
//! views were built.
use vstd::prelude::*;

use crate::config::ModelConfig;
use crate::device::{
    null_ptr, result_part, result_ptr, CommandOf, CommandView, DenseWeight, DeviceCall, DevicePtr,
    ExpertWeight, FfnComponent, KernelHandle, Origin, QuantizedWeight,
};
use crate::layers::{HcSiteWeights, HcWeights};
use crate::tensors::{
    lemma_all_sound, load_step, load_trace, sound_prefix, tensor_fault, TensorView, WeightErrorOf,
    WeightStore,
};
use crate::text::{decimal, law_decimal_reads_back};
use crate::weight_loader::attention::{hc_at, hc_site_at, hc_site_steps, hc_steps};
use crate::weight_loader::ffn::{
    dense_ffn_steps, expert_prefix, expert_steps, lemma_expert_count, moe_steps, projection_steps,
    projections_at, Quantizer,
};
use crate::weight_map::{
    dsa_tensors, dsa_trace, kda_tensors, kda_trace, Glm5DsaWeights, Glm5KdaWeights,
};

verus! {

/// The command that part `part` of its results stands at `ptr`, if it is one of
/// `steps`, which were recorded after `at` commands of buffer `id`.
#[verifier::opaque]
pub open spec fn maker(
    steps: Seq<CommandView>,
    id: u64,
    at: nat,
    ptr: DevicePtr,
    part: u8,
) -> Option<CommandView> {
    match ptr.origin {
        Origin::Result { buffer, command, part: found } => {
            if buffer == id && found == part && ptr.bytes == 0 && at <= command < at
                + steps.len() {
                Some(steps[command - at])
            } else {
                None
            }
        },
        Origin::Absolute => None,
    }
}

/// Part `part` of what `command`, one of `steps`, produces stands at `ptr`.
pub open spec fn made_by(
    steps: Seq<CommandView>,
    id: u64,
    at: nat,
    ptr: DevicePtr,
    part: u8,
    command: CommandView,
) -> bool {
    maker(steps, id, at, ptr, part) == Some(command)
}

/// The command that looks up `kernel`, if it is one of `steps`.
#[verifier::opaque]
pub open spec fn finder(
    steps: Seq<CommandView>,
    id: u64,
    at: nat,
    kernel: KernelHandle,
) -> Option<CommandView> {
    match kernel {
        KernelHandle::Result { buffer, command } => {
            if buffer == id && at <= command < at + steps.len() {
                Some(steps[command - at])
            } else {
                None
            }
        },
        KernelHandle::Raw(_) => None,
    }
}

/// `command` is one of `steps`.
#[verifier::opaque]
pub open spec fn recorded(steps: Seq<CommandView>, command: CommandView) -> bool {
    exists|i: int| 0 <= i < steps.len() && #[trigger] steps[i] == command
}

/// What is made or recorded in the middle of a list is made or recorded in the
/// whole of it.
pub proof fn lemma_within(
    before: Seq<CommandView>,
    steps: Seq<CommandView>,
    after: Seq<CommandView>,
    id: u64,
    at: nat,
)
    ensures
        forall|ptr: DevicePtr, part: u8|
            (#[trigger] maker(steps, id, at + before.len(), ptr, part)) is Some ==> maker(
                before + steps + after,
                id,
                at,
                ptr,
                part,
            ) == maker(steps, id, at + before.len(), ptr, part),
        forall|kernel: KernelHandle|
            (#[trigger] finder(steps, id, at + before.len(), kernel)) is Some ==> finder(
                before + steps + after,
                id,
                at,
                kernel,
            ) == finder(steps, id, at + before.len(), kernel),
        forall|command: CommandView|
            #[trigger] recorded(steps, command) ==> recorded(before + steps + after, command),
{
    reveal(maker);
    reveal(finder);
    reveal(recorded);
    let all = before + steps + after;
    assert forall|command: CommandView| #[trigger] recorded(steps, command) implies recorded(
        all,
        command,
    ) by {
        let i = choose|i: int| 0 <= i < steps.len() && #[trigger] steps[i] == command;
        assert(all[before.len() + i] == command);
    }
}

/// The command at place `i` makes what is named after that place.
pub proof fn lemma_made_at(steps: Seq<CommandView>, id: u64, at: nat, i: int, part: u8)
    requires
        0 <= i < steps.len(),
        at + i <= usize::MAX,
    ensures
        maker(steps, id, at, result_part(id, (at + i) as nat, part), part) == Some(steps[i]),
        finder(
            steps,
            id,
            at,
            KernelHandle::Result { buffer: id, command: (at + i) as usize },
        ) == Some(steps[i]),
        recorded(steps, steps[i]),
{
    reveal(maker);
    reveal(finder);
    reveal(recorded);
}

/// `weight` is the stored tensor `name`, which has `shape`, in the precision that
/// the runtime computes in.
pub open spec fn is_tensor(
    store: WeightStore,
    steps: Seq<CommandView>,
    id: u64,
    at: nat,
    weight: DenseWeight,
    name: Seq<char>,
    shape: Seq<usize>,
) -> bool {
    &&& made_by(steps, id, at, weight.weight, 0, CommandOf::LoadDense { name })
    &&& store.shape(name) == Some(shape)
}

/// `weight` is the stored tensor `name`, which has `shape`, kept in single
/// precision.
pub open spec fn is_f32_tensor(
    store: WeightStore,
    steps: Seq<CommandView>,
    id: u64,
    at: nat,
    weight: DenseWeight,
    name: Seq<char>,
    shape: Seq<usize>,
) -> bool {
    &&& made_by(steps, id, at, weight.weight, 0, CommandOf::LoadF32 { name })
    &&& store.shape(name) == Some(shape)
}

proof fn lemma_loaded_tensor(
    store: WeightStore,
    tensors: Seq<TensorView>,
    id: u64,
    at: nat,
    i: int,
)
    requires
        load_trace(store, tensors, id, at).outcome is Ok,
        0 <= i < tensors.len(),
        at + tensors.len() <= usize::MAX,
    ensures
        maker(
            load_trace(store, tensors, id, at).steps,
            id,
            at,
            load_trace(store, tensors, id, at).outcome->Ok_0[i].weight,
            0,
        ) == Some(load_step(tensors[i])),
        store.shape(tensors[i].name) == Some(tensors[i].shape),
{
    let steps = load_trace(store, tensors, id, at).steps;
    lemma_all_sound(store, tensors, i);
    lemma_made_at(steps, id, at, i, 0);
}

/// Every field of `weights` is the tensor that it is named after.
pub open spec fn kda_by_name(
    store: WeightStore,
    steps: Seq<CommandView>,
    id: u64,
    at: nat,
    weights: Glm5KdaWeights,
    prefix: Seq<char>,
    config: ModelConfig,
) -> bool {
    let block = prefix + ".self_attn"@;
    let heads = config.linear_num_key_heads;
    let dim = config.linear_key_head_dim;
    let width = (heads * dim) as usize;
    let hidden = config.hidden_size;
    let taps = config.linear_conv_kernel_dim;
    let loaded = |weight: DenseWeight, suffix: Seq<char>, shape: Seq<usize>|
        is_tensor(store, steps, id, at, weight, block + suffix, shape);
    &&& loaded(weights.q_proj, ".q_proj.weight"@, seq![width, hidden])
    &&& loaded(weights.k_proj, ".k_proj.weight"@, seq![width, hidden])
    &&& loaded(weights.v_proj, ".v_proj.weight"@, seq![width, hidden])
    &&& loaded(weights.q_conv1d, ".q_conv1d.weight"@, seq![width, 1, taps])
    &&& loaded(weights.k_conv1d, ".k_conv1d.weight"@, seq![width, 1, taps])
    &&& loaded(weights.v_conv1d, ".v_conv1d.weight"@, seq![width, 1, taps])
    &&& loaded(weights.f_a_proj, ".f_a_proj.weight"@, seq![dim, hidden])
    &&& loaded(weights.f_b_proj, ".f_b_proj.weight"@, seq![width, dim])
    &&& loaded(weights.g_a_proj, ".g_a_proj.weight"@, seq![dim, hidden])
    &&& loaded(weights.g_b_proj, ".g_b_proj.weight"@, seq![width, dim])
    &&& loaded(weights.b_proj, ".b_proj.weight"@, seq![heads, hidden])
    &&& is_f32_tensor(store, steps, id, at, weights.a_log, block + ".A_log"@, seq![heads])
    &&& is_f32_tensor(store, steps, id, at, weights.dt_bias, block + ".dt_bias"@, seq![width])
    &&& loaded(weights.o_norm, ".o_norm.weight"@, seq![dim])
    &&& loaded(weights.o_proj, ".o_proj.weight"@, seq![hidden, width])
}

/// Where the weights of a linear-attention block load, each is the stored tensor
/// that it is named after, and that tensor has the shape of its place.
pub proof fn law_kda_weights_by_name(
    store: WeightStore,
    prefix: Seq<char>,
    config: ModelConfig,
    id: u64,
    at: nat,
)
    requires
        kda_trace(store, prefix, config, id, at).outcome is Ok,
        at + kda_trace(store, prefix, config, id, at).steps.len() <= usize::MAX,
    ensures
        kda_by_name(
            store,
            kda_trace(store, prefix, config, id, at).steps,
            id,
            at,
            kda_trace(store, prefix, config, id, at).outcome->Ok_0,
            prefix,
            config,
        ),
{
    let tensors = kda_tensors(prefix, config);
    assert forall|i: int| 0 <= i < tensors.len() implies {
        &&& maker(
            load_trace(store, tensors, id, at).steps,
            id,
            at,
            #[trigger] load_trace(store, tensors, id, at).outcome->Ok_0[i].weight,
            0,
        ) == Some(load_step(tensors[i]))
        &&& store.shape(tensors[i].name) == Some(tensors[i].shape)
    } by {
        lemma_loaded_tensor(store, tensors, id, at, i);
    }
}

/// Every field of `weights` is the tensor that it is named after.
pub open spec fn dsa_by_name(
    store: WeightStore,
    steps: Seq<CommandView>,
    id: u64,
    at: nat,
    weights: Glm5DsaWeights,
    prefix: Seq<char>,
    config: ModelConfig,
) -> bool {
    let block = prefix + ".self_attn"@;
    let hidden = config.hidden_size;
    let q_lora = config.q_lora_rank;
    let kv_lora = config.kv_lora_rank;
    let q_rows = (config.num_attention_heads * config.head_dim) as usize;
    let kv_rows = (config.num_key_value_heads * (config.qk_nope_head_dim
        + config.v_head_dim)) as usize;
    let index_rows = (config.index_n_heads * config.index_head_dim) as usize;
    let index_dim = config.index_head_dim;
    let indexer = weights.indexer;
    let loaded = |weight: DenseWeight, suffix: Seq<char>, shape: Seq<usize>|
        is_tensor(store, steps, id, at, weight, block + suffix, shape);
    let indexed = |weight: DenseWeight, suffix: Seq<char>, shape: Seq<usize>|
        is_tensor(store, steps, id, at, weight, block + ".indexer"@ + suffix, shape);
    &&& loaded(weights.q_a_proj, ".q_a_proj.weight"@, seq![q_lora, hidden])
    &&& loaded(weights.q_a_norm, ".q_a_layernorm.weight"@, seq![q_lora])
    &&& loaded(weights.q_b_proj, ".q_b_proj.weight"@, seq![q_rows, q_lora])
    &&& loaded(weights.kv_a_proj_with_mqa, ".kv_a_proj_with_mqa.weight"@, seq![kv_lora, hidden])
    &&& loaded(weights.kv_a_norm, ".kv_a_layernorm.weight"@, seq![kv_lora])
    &&& loaded(weights.kv_b_proj, ".kv_b_proj.weight"@, seq![kv_rows, kv_lora])
    &&& loaded(weights.o_proj, ".o_proj.weight"@, seq![hidden, q_rows])
    &&& indexed(indexer.wq_b, ".wq_b.weight"@, seq![index_rows, q_lora])
    &&& indexed(indexer.wk, ".wk.weight"@, seq![index_dim, hidden])
    &&& indexed(indexer.weights_proj, ".weights_proj.weight"@, seq![config.index_n_heads, hidden])
    &&& indexed(indexer.k_norm_weight, ".k_norm.weight"@, seq![index_dim])
    &&& indexed(indexer.k_norm_bias, ".k_norm.bias"@, seq![index_dim])
    &&& indexed(
        indexer.kpool_compress_ape,
        ".index_kpool_compress_ape.weight"@,
        seq![config.index_kpool, index_dim],
    )
    &&& indexed(
        indexer.kpool_compress_gate,
        ".index_kpool_compress_gate.weight"@,
        seq![index_dim, hidden],
    )
}

/// Where the weights of a sparse-attention block load, each is the stored tensor
/// that it is named after, and that tensor has the shape of its place.
pub proof fn law_dsa_weights_by_name(
    store: WeightStore,
    prefix: Seq<char>,
    config: ModelConfig,
    id: u64,
    at: nat,
)
    requires
        dsa_trace(store, prefix, config, id, at).outcome is Ok,
        at + dsa_trace(store, prefix, config, id, at).steps.len() <= usize::MAX,
    ensures
        dsa_by_name(
            store,
            dsa_trace(store, prefix, config, id, at).steps,
            id,
            at,
            dsa_trace(store, prefix, config, id, at).outcome->Ok_0,
            prefix,
            config,
        ),
{
    let tensors = dsa_tensors(prefix, config);
    assert forall|i: int| 0 <= i < tensors.len() implies {
        &&& maker(
            load_trace(store, tensors, id, at).steps,
            id,
            at,
            #[trigger] load_trace(store, tensors, id, at).outcome->Ok_0[i].weight,
            0,
        ) == Some(load_step(tensors[i]))
        &&& store.shape(tensors[i].name) == Some(tensors[i].shape)
    } by {
        lemma_loaded_tensor(store, tensors, id, at, i);
    }
}

/// The three tensors of a hyper-connection site: a mix has `2 + m` outputs for
/// each of the `m` streams, over the width of all streams.
pub open spec fn site_by_name(
    steps: Seq<CommandView>,
    id: u64,
    at: nat,
    site: HcSiteWeights,
    prefix: Seq<char>,
    config: ModelConfig,
) -> bool {
    let m = config.hc_mult;
    let outputs = (2 + m) * m;
    &&& made_by(
        steps,
        id,
        at,
        site.hc_fn,
        0,
        CommandOf::LoadHcF32 {
            name: prefix + "_fn"@,
            elements: (outputs * (m * config.hidden_size)) as usize,
        },
    )
    &&& made_by(
        steps,
        id,
        at,
        site.hc_base,
        0,
        CommandOf::LoadHcF32 { name: prefix + "_base"@, elements: outputs as usize },
    )
    &&& made_by(
        steps,
        id,
        at,
        site.hc_scale,
        0,
        CommandOf::LoadHcF32 { name: prefix + "_scale"@, elements: 3 },
    )
}

/// Both sites of a hyper-connection are the tensors that they are named after,
/// and its numbers are those of the configuration.
pub open spec fn hc_by_name(
    steps: Seq<CommandView>,
    id: u64,
    at: nat,
    hc: HcWeights,
    prefix: Seq<char>,
    config: ModelConfig,
) -> bool {
    &&& site_by_name(steps, id, at, hc.attn, prefix + ".hc_"@ + "attn"@, config)
    &&& site_by_name(steps, id, at, hc.ffn, prefix + ".hc_"@ + "ffn"@, config)
    &&& hc.head is None
    &&& hc.hc_mult == config.hc_mult
    &&& hc.sinkhorn_iters == config.hc_sinkhorn_iters
    &&& hc.hc_eps == config.hc_eps
    &&& hc.final_mean
}

proof fn lemma_site_by_name(
    prefix: Seq<char>,
    site: Seq<char>,
    config: ModelConfig,
    id: u64,
    at: nat,
)
    requires
        at + 3 <= usize::MAX,
    ensures
        site_by_name(
            hc_site_steps(prefix, site, config),
            id,
            at,
            hc_site_at(id, at),
            prefix + ".hc_"@ + site,
            config,
        ),
{
    let steps = hc_site_steps(prefix, site, config);
    lemma_made_at(steps, id, at, 0, 0);
    lemma_made_at(steps, id, at, 1, 0);
    lemma_made_at(steps, id, at, 2, 0);
}

/// A hyper-connection that loads is the stored tensors that it is named after.
pub proof fn law_hc_by_name(prefix: Seq<char>, config: ModelConfig, id: u64, at: nat)
    requires
        at + 6 <= usize::MAX,
    ensures
        hc_by_name(hc_steps(prefix, config), id, at, hc_at(config, id, at), prefix, config),
{
    let attn = hc_site_steps(prefix, "attn"@, config);
    let ffn = hc_site_steps(prefix, "ffn"@, config);
    let nothing = Seq::<CommandView>::empty();
    let steps = hc_steps(prefix, config);
    assert(steps =~= nothing + attn + ffn);
    assert(steps =~= attn + ffn + nothing);
    lemma_site_by_name(prefix, "attn"@, config, id, at);
    lemma_site_by_name(prefix, "ffn"@, config, id, at + 3);
    lemma_within(nothing, attn, ffn, id, at);
    lemma_within(attn, ffn, nothing, id, at);
}

/// `weight` is the stored tensor `name`, quantised as a `rows` by `cols` matrix.
pub open spec fn is_quantized(
    steps: Seq<CommandView>,
    id: u64,
    at: nat,
    weight: QuantizedWeight,
    name: Seq<char>,
    rows: usize,
    cols: usize,
    quantizer: Quantizer,
) -> bool {
    match maker(steps, id, at, weight.weight, 0) {
        Some(CommandOf::Call(DeviceCall::QuantizeNvfp4 {
            source,
            rows: r,
            cols: c,
            absmax,
            quantize,
            stream,
        })) => {
            &&& made_by(steps, id, at, source.weight, 0, CommandOf::LoadDense { name })
            &&& r == rows && c == cols
            &&& absmax == quantizer.absmax
            &&& quantize == quantizer.quantize
            &&& stream == quantizer.stream
        },
        _ => false,
    }
}

/// The three projections under `prefix`: gate and up to `inter`, down from it.
pub open spec fn expert_by_name(
    steps: Seq<CommandView>,
    id: u64,
    at: nat,
    expert: ExpertWeight,
    prefix: Seq<char>,
    inter: usize,
    hidden: usize,
    quantizer: Quantizer,
) -> bool {
    let stored = |weight: QuantizedWeight, suffix: Seq<char>, rows: usize, cols: usize|
        is_quantized(steps, id, at, weight, prefix + suffix, rows, cols, quantizer);
    &&& stored(expert.gate_proj, ".gate_proj.weight"@, inter, hidden)
    &&& stored(expert.up_proj, ".up_proj.weight"@, inter, hidden)
    &&& stored(expert.down_proj, ".down_proj.weight"@, hidden, inter)
}

proof fn lemma_projections_by_name(
    prefix: Seq<char>,
    inter: usize,
    hidden: usize,
    quantizer: Quantizer,
    id: u64,
    at: nat,
)
    requires
        at + 6 <= usize::MAX,
    ensures
        expert_by_name(
            projection_steps(prefix, inter, hidden, quantizer, id, at),
            id,
            at,
            projections_at(id, at),
            prefix,
            inter,
            hidden,
            quantizer,
        ),
{
    let steps = projection_steps(prefix, inter, hidden, quantizer, id, at);
    lemma_made_at(steps, id, at, 0, 0);
    lemma_made_at(steps, id, at, 1, 0);
    lemma_made_at(steps, id, at, 2, 0);
    lemma_made_at(steps, id, at, 3, 0);
    lemma_made_at(steps, id, at, 4, 0);
    lemma_made_at(steps, id, at, 5, 0);
}

/// `turned` is `weight`, a `rows` by `cols` matrix, transposed.
pub open spec fn is_transpose(
    steps: Seq<CommandView>,
    id: u64,
    at: nat,
    turned: Option<QuantizedWeight>,
    weight: QuantizedWeight,
    rows: usize,
    cols: usize,
) -> bool {
    &&& turned is Some
    &&& made_by(
        steps,
        id,
        at,
        turned->0.weight,
        0,
        CommandOf::Call(DeviceCall::TransposeForGemm { source: weight, rows, cols }),
    )
}

/// `ffn` is a dense block of the three projections under `prefix`, each also
/// transposed.
pub open spec fn dense_ffn_by_name(
    steps: Seq<CommandView>,
    id: u64,
    at: nat,
    ffn: FfnComponent,
    prefix: Seq<char>,
    inter: usize,
    hidden: usize,
    quantizer: Quantizer,
) -> bool {
    &&& ffn is Dense
    &&& match maker(steps, id, at, ffn->Dense_0, 0) {
        Some(CommandOf::Call(DeviceCall::NewDenseFfn { weights })) => {
            &&& expert_by_name(
                steps,
                id,
                at,
                ExpertWeight {
                    gate_proj: weights.gate_proj,
                    up_proj: weights.up_proj,
                    down_proj: weights.down_proj,
                },
                prefix,
                inter,
                hidden,
                quantizer,
            )
            &&& is_transpose(steps, id, at, weights.gate_proj_t, weights.gate_proj, inter, hidden)
            &&& is_transpose(steps, id, at, weights.up_proj_t, weights.up_proj, inter, hidden)
            &&& is_transpose(steps, id, at, weights.down_proj_t, weights.down_proj, hidden, inter)
        },
        _ => false,
    }
}

/// A dense feed-forward block is built from the projections under its prefix.
pub proof fn law_dense_ffn_by_name(
    prefix: Seq<char>,
    inter: usize,
    hidden: usize,
    quantizer: Quantizer,
    id: u64,
    at: nat,
)
    requires
        at + 10 <= usize::MAX,
    ensures
        dense_ffn_by_name(
            dense_ffn_steps(prefix, inter, hidden, quantizer, id, at),
            id,
            at,
            FfnComponent::Dense(result_ptr(id, at + 9)),
            prefix,
            inter,
            hidden,
            quantizer,
        ),
{
    let steps = dense_ffn_steps(prefix, inter, hidden, quantizer, id, at);
    let first = projection_steps(prefix, inter, hidden, quantizer, id, at);
    let rest = steps.skip(6);
    let nothing = Seq::<CommandView>::empty();
    assert(steps =~= nothing + first + rest);
    lemma_projections_by_name(prefix, inter, hidden, quantizer, id, at);
    lemma_within(nothing, first, rest, id, at);
    lemma_made_at(steps, id, at, 6, 0);
    lemma_made_at(steps, id, at, 7, 0);
    lemma_made_at(steps, id, at, 8, 0);
    lemma_made_at(steps, id, at, 9, 0);
}

/// `ffn` is a mixture of experts under `prefix`: a router, routed experts by
/// number, a shared expert without a gate, and a routing bias.
pub open spec fn moe_by_name(
    steps: Seq<CommandView>,
    id: u64,
    at: nat,
    ffn: FfnComponent,
    prefix: Seq<char>,
    config: ModelConfig,
    quantizer: Quantizer,
) -> bool {
    let inter = config.moe_intermediate_size;
    let hidden = config.hidden_size;
    &&& ffn is Moe
    &&& match maker(steps, id, at, ffn->Moe_0, 0) {
        Some(CommandOf::NewMoe { weights, num_experts }) => {
            &&& num_experts == config.num_experts
            &&& weights.experts.len() == config.num_experts
            &&& forall|i: int|
                0 <= i < weights.experts.len() ==> expert_by_name(
                    steps,
                    id,
                    at,
                    #[trigger] weights.experts[i],
                    prefix + ".experts."@ + decimal(i as nat),
                    inter,
                    hidden,
                    quantizer,
                )
            &&& expert_by_name(
                steps,
                id,
                at,
                weights.shared_expert,
                prefix + ".shared_experts"@,
                inter,
                hidden,
                quantizer,
            )
            &&& made_by(
                steps,
                id,
                at,
                weights.gate.weight,
                0,
                CommandOf::LoadDense { name: prefix + ".gate.weight"@ },
            )
            &&& weights.shared_expert_gate.weight == null_ptr()
            &&& weights.router_pre_norm is None
            &&& weights.correction_bias is Some
            &&& made_by(
                steps,
                id,
                at,
                weights.correction_bias->0.weight,
                0,
                CommandOf::LoadF32 { name: prefix + ".gate.e_score_correction_bias"@ },
            )
        },
        _ => false,
    }
    &&& recorded(
        steps,
        CommandOf::Call(
            DeviceCall::PredequantForPrefill { ffn: ffn->Moe_0, stream: quantizer.stream },
        ),
    )
}

proof fn lemma_expert_by_name(
    prefix: Seq<char>,
    config: ModelConfig,
    quantizer: Quantizer,
    count: nat,
    id: u64,
    at: nat,
    expert: nat,
)
    requires
        expert < count,
        at + 6 * count <= usize::MAX,
    ensures
        expert_by_name(
            expert_steps(prefix, config, quantizer, count, id, at),
            id,
            at,
            projections_at(id, at + 6 * expert),
            prefix + ".experts."@ + decimal(expert),
            config.moe_intermediate_size,
            config.hidden_size,
            quantizer,
        ),
    decreases count,
{
    let last = (count - 1) as nat;
    let inter = config.moe_intermediate_size;
    let hidden = config.hidden_size;
    let before = expert_steps(prefix, config, quantizer, last, id, at);
    let own = projection_steps(
        expert_prefix(prefix, last),
        inter,
        hidden,
        quantizer,
        id,
        at + 6 * last,
    );
    let steps = expert_steps(prefix, config, quantizer, count, id, at);
    let nothing = Seq::<CommandView>::empty();
    lemma_expert_count(prefix, config, quantizer, last, id, at);
    if expert == last {
        lemma_projections_by_name(
            expert_prefix(prefix, last),
            inter,
            hidden,
            quantizer,
            id,
            at + 6 * last,
        );
        lemma_within(before, own, nothing, id, at);
        assert(before + own + nothing =~= steps);
    } else {
        lemma_expert_by_name(prefix, config, quantizer, last, id, at, expert);
        lemma_within(nothing, before, own, id, at);
        assert(nothing + before + own =~= steps);
    }
}

/// A mixture of experts is built from the tensors under its prefix: the shared
/// expert from the shared ones, and routed expert `i` from those of number `i`.
pub proof fn law_moe_by_name(
    prefix: Seq<char>,
    config: ModelConfig,
    quantizer: Quantizer,
    id: u64,
    at: nat,
)
    requires
        at + 10 + 6 * config.num_experts <= usize::MAX,
    ensures
        moe_by_name(
            moe_steps(prefix, config, quantizer, id, at),
            id,
            at,
            FfnComponent::Moe(result_ptr(id, at + 8 + 6 * config.num_experts as nat)),
            prefix,
            config,
            quantizer,
        ),
{
    let count = config.num_experts as nat;
    let inter = config.moe_intermediate_size;
    let hidden = config.hidden_size;
    let steps = moe_steps(prefix, config, quantizer, id, at);
    let experts = expert_steps(prefix, config, quantizer, count, id, at + 1);
    let shared_prefix = prefix + ".shared_experts"@;
    let shared = projection_steps(
        shared_prefix,
        inter,
        hidden,
        quantizer,
        id,
        at + 1 + 6 * count,
    );
    lemma_expert_count(prefix, config, quantizer, count, id, at + 1);
    let first = steps.take(1);
    let upto = steps.take((1 + 6 * count) as int);
    let rest = steps.skip((1 + 6 * count) as int);
    let end = steps.skip((7 + 6 * count) as int);
    assert(steps =~= first + experts + rest);
    assert(steps =~= upto + shared + end);
    lemma_made_at(steps, id, at, 0, 0);
    lemma_made_at(steps, id, at, (7 + 6 * count) as int, 0);
    lemma_made_at(steps, id, at, (8 + 6 * count) as int, 0);
    lemma_made_at(steps, id, at, (9 + 6 * count) as int, 0);
    lemma_within(first, experts, rest, id, at);
    lemma_within(upto, shared, end, id, at);
    lemma_projections_by_name(
        shared_prefix,
        inter,
        hidden,
        quantizer,
        id,
        at + 1 + 6 * count,
    );
    assert forall|i: int| 0 <= i < count implies expert_by_name(
        steps,
        id,
        at,
        #[trigger] projections_at(id, (at + 1 + 6 * i) as nat),
        prefix + ".experts."@ + decimal(i as nat),
        inter,
        hidden,
        quantizer,
    ) by {
        lemma_expert_by_name(prefix, config, quantizer, count, id, at + 1, i as nat);
    }
}

/// A load that fails tells the first tensor that is not as it must be, and has loaded
/// those before it: a missing one is not stored, and one of another shape is stored
/// with the shape that is told and must have the other.
pub proof fn law_first_bad_tensor_told(
    store: WeightStore,
    tensors: Seq<TensorView>,
    id: u64,
    at: nat,
)
    requires
        load_trace(store, tensors, id, at).outcome is Err,
    ensures
        ({
            let trace = load_trace(store, tensors, id, at);
            let bad = trace.steps.len() as int;
            &&& bad < tensors.len()
            &&& forall|i: int|
                0 <= i < bad ==> store.shape((#[trigger] tensors[i]).name) == Some(tensors[i].shape)
            &&& match trace.outcome->Err_0 {
                WeightErrorOf::MissingTensor { name } => {
                    &&& name == tensors[bad].name
                    &&& store.shape(name) is None
                },
                WeightErrorOf::ShapeMismatch { context, name, actual, expected } => {
                    &&& name == tensors[bad].name
                    &&& context == tensors[bad].context
                    &&& store.shape(name) == Some(actual)
                    &&& expected == tensors[bad].shape
                    &&& actual != expected
                },
                _ => false,
            }
        }),
{
    lemma_sound_so_far(store, tensors);
}

proof fn lemma_sound_so_far(store: WeightStore, tensors: Seq<TensorView>)
    ensures
        sound_prefix(store, tensors) <= tensors.len(),
        forall|i: int|
            0 <= i < sound_prefix(store, tensors) ==> tensor_fault(store, #[trigger] tensors[i])
                is None,
        sound_prefix(store, tensors) < tensors.len() ==> tensor_fault(
            store,
            tensors[sound_prefix(store, tensors) as int],
        ) is Some,
    decreases tensors.len(),
{
    if tensors.len() > 0 && tensor_fault(store, tensors[0]) is None {
        let rest = tensors.drop_first();
        lemma_sound_so_far(store, rest);
        assert forall|i: int| 0 <= i < sound_prefix(store, tensors) implies tensor_fault(
            store,
            #[trigger] tensors[i],
        ) is None by {
            if i > 0 {
                assert(rest[i - 1] == tensors[i]);
            }
        }
    }
}

/// No two experts of a block share a tensor: the names of different routed experts
/// differ, and so do those of the shared one, whatever follows them.
pub proof fn law_experts_apart(
    prefix: Seq<char>,
    first: nat,
    second: nat,
    suffix: Seq<char>,
    other: Seq<char>,
)
    requires
        first != second,
        suffix.len() > 0 && suffix[0] == '.',
        other.len() > 0 && other[0] == '.',
    ensures
        prefix + ".experts."@ + decimal(first) + suffix != prefix + ".experts."@ + decimal(second)
            + other,
        prefix + ".experts."@ + decimal(first) + suffix != prefix + ".shared_experts"@ + other,
{
    reveal_strlit(".experts.");
    reveal_strlit(".shared_experts");
    law_decimal_reads_back(first);
    law_decimal_reads_back(second);
    let a = decimal(first);
    let b = decimal(second);
    let start = prefix + ".experts."@;
    let one = start + a + suffix;
    let two = start + b + other;
    let shared = prefix + ".shared_experts"@ + other;
    assert(one[prefix.len() as int + 1] == 'e');
    assert(shared[prefix.len() as int + 1] == 's');
    if one == two {
        let n = start.len() as int;
        if a.len() < b.len() {
            assert(one[n + a.len()] == '.');
            assert(two[n + a.len()] == b[a.len() as int]);
        } else if b.len() < a.len() {
            assert(two[n + b.len()] == '.');
            assert(one[n + b.len()] == a[b.len() as int]);
        } else {
            assert forall|i: int| 0 <= i < a.len() implies a[i] == b[i] by {
                assert(one[n + i] == a[i] && two[n + i] == b[i]);
            }
            assert(a =~= b);
        }
    }
}

} // verus!
