//! Feed-forward blocks: quantised projections, dense and mixture-of-experts.
use vstd::prelude::*;

use crate::config::ModelConfig;
use crate::device::{
    call, lemma_extends_twice, null_ptr, result_ptr, CommandBuffer, CommandOf, CommandView,
    DenseFfnWeights, DenseWeight, DeviceCall, DevicePtr, ExpertWeight, FfnComponent, KernelHandle,
    MoeView, MoeWeightsOf, QuantizedWeight,
};
use crate::text::{decimal, decimal_text, joined};
use vstd::string::StringExecFns;

verus! {

/// The kernels that quantise a weight, and the stream they run on.
#[derive(Clone, Copy, PartialEq, Eq, Debug)]
pub struct Quantizer {
    pub absmax: KernelHandle,
    pub quantize: KernelHandle,
    pub stream: u64,
}

/// The weight that command `command` of buffer `id` produces.
pub open spec fn dense_at(id: u64, command: nat) -> DenseWeight {
    DenseWeight { weight: result_ptr(id, command) }
}

pub open spec fn quantized_at(id: u64, command: nat) -> QuantizedWeight {
    QuantizedWeight { weight: result_ptr(id, command) }
}

pub open spec fn load(name: Seq<char>) -> CommandView {
    CommandOf::LoadDense { name }
}

pub open spec fn quantize_step(
    quantizer: Quantizer,
    source: DenseWeight,
    rows: usize,
    cols: usize,
) -> CommandView {
    call(
        DeviceCall::QuantizeNvfp4 {
            source,
            rows,
            cols,
            absmax: quantizer.absmax,
            quantize: quantizer.quantize,
            stream: quantizer.stream,
        },
    )
}

pub open spec fn null_weight() -> DenseWeight {
    DenseWeight { weight: null_ptr() }
}

pub fn null_dense() -> (weight: DenseWeight)
    ensures
        weight == null_weight(),
{
    DenseWeight { weight: DevicePtr::null() }
}

/// Load the tensor `prefix` followed by `suffix`.
pub fn load_dense(prefix: &String, suffix: &str, gpu: &mut CommandBuffer) -> (weight: DenseWeight)
    ensures
        weight == dense_at(old(gpu).id(), old(gpu)@.len()),
        final(gpu).extends(*old(gpu), seq![load(prefix@ + suffix@)]),
{
    let name = joined(prefix.as_str(), suffix);
    DenseWeight { weight: gpu.record_for_ptr(CommandOf::LoadDense { name }) }
}

fn quantize_to_nvfp4(
    source: DenseWeight,
    rows: usize,
    cols: usize,
    quantizer: Quantizer,
    gpu: &mut CommandBuffer,
) -> (weight: QuantizedWeight)
    ensures
        weight == quantized_at(old(gpu).id(), old(gpu)@.len()),
        final(gpu).extends(*old(gpu), seq![quantize_step(quantizer, source, rows, cols)]),
{
    QuantizedWeight {
        weight: gpu.call_for_ptr(
            DeviceCall::QuantizeNvfp4 {
                source,
                rows,
                cols,
                absmax: quantizer.absmax,
                quantize: quantizer.quantize,
                stream: quantizer.stream,
            },
        ),
    }
}

fn transpose_for_gemm(
    source: QuantizedWeight,
    rows: usize,
    cols: usize,
    gpu: &mut CommandBuffer,
) -> (weight: QuantizedWeight)
    ensures
        weight == quantized_at(old(gpu).id(), old(gpu)@.len()),
        final(gpu).extends(
            *old(gpu),
            seq![call(DeviceCall::TransposeForGemm { source, rows, cols })],
        ),
{
    QuantizedWeight {
        weight: gpu.call_for_ptr(DeviceCall::TransposeForGemm { source, rows, cols }),
    }
}

/// Three projections, loaded and then quantised.
pub open spec fn projection_steps(
    prefix: Seq<char>,
    inter: usize,
    hidden: usize,
    quantizer: Quantizer,
    id: u64,
    at: nat,
) -> Seq<CommandView> {
    seq![
        load(prefix + ".gate_proj.weight"@),
        load(prefix + ".up_proj.weight"@),
        load(prefix + ".down_proj.weight"@),
        quantize_step(quantizer, dense_at(id, at), inter, hidden),
        quantize_step(quantizer, dense_at(id, at + 1), inter, hidden),
        quantize_step(quantizer, dense_at(id, at + 2), hidden, inter),
    ]
}

/// The projections that `projection_steps` produces.
pub open spec fn projections_at(id: u64, at: nat) -> ExpertWeight {
    ExpertWeight {
        gate_proj: quantized_at(id, at + 3),
        up_proj: quantized_at(id, at + 4),
        down_proj: quantized_at(id, at + 5),
    }
}

fn load_projections(
    prefix: &String,
    inter: usize,
    hidden: usize,
    quantizer: Quantizer,
    gpu: &mut CommandBuffer,
) -> (expert: ExpertWeight)
    ensures
        expert == projections_at(old(gpu).id(), old(gpu)@.len()),
        final(gpu).extends(
            *old(gpu),
            projection_steps(prefix@, inter, hidden, quantizer, old(gpu).id(), old(gpu)@.len()),
        ),
{
    let ghost start = *gpu;
    let gate = load_dense(prefix, ".gate_proj.weight", gpu);
    let up = load_dense(prefix, ".up_proj.weight", gpu);
    let down = load_dense(prefix, ".down_proj.weight", gpu);
    let gate_proj = quantize_to_nvfp4(gate, inter, hidden, quantizer, gpu);
    let up_proj = quantize_to_nvfp4(up, inter, hidden, quantizer, gpu);
    let down_proj = quantize_to_nvfp4(down, hidden, inter, quantizer, gpu);
    assert(gpu@ =~= start@ + projection_steps(
        prefix@,
        inter,
        hidden,
        quantizer,
        start.id(),
        start@.len(),
    ));
    ExpertWeight { gate_proj, up_proj, down_proj }
}

/// The weights of a dense block built after `at` commands of buffer `id`.
pub open spec fn dense_ffn_at(id: u64, at: nat) -> DenseFfnWeights {
    let plain = projections_at(id, at);
    DenseFfnWeights {
        gate_proj: plain.gate_proj,
        up_proj: plain.up_proj,
        down_proj: plain.down_proj,
        gate_proj_t: Some(quantized_at(id, at + 6)),
        up_proj_t: Some(quantized_at(id, at + 7)),
        down_proj_t: Some(quantized_at(id, at + 8)),
    }
}

/// A dense block: three projections, their transposes, and the block.
pub open spec fn dense_ffn_steps(
    prefix: Seq<char>,
    inter: usize,
    hidden: usize,
    quantizer: Quantizer,
    id: u64,
    at: nat,
) -> Seq<CommandView> {
    let plain = projections_at(id, at);
    projection_steps(prefix, inter, hidden, quantizer, id, at) + seq![
        call(DeviceCall::TransposeForGemm { source: plain.gate_proj, rows: inter, cols: hidden }),
        call(DeviceCall::TransposeForGemm { source: plain.up_proj, rows: inter, cols: hidden }),
        call(DeviceCall::TransposeForGemm { source: plain.down_proj, rows: hidden, cols: inter }),
        call(DeviceCall::NewDenseFfn { weights: dense_ffn_at(id, at) }),
    ]
}

/// Load a dense feed-forward block.
pub fn load_dense_ffn(
    prefix: &String,
    intermediate: usize,
    hidden: usize,
    quantizer: Quantizer,
    gpu: &mut CommandBuffer,
) -> (ffn: FfnComponent)
    ensures
        ffn == FfnComponent::Dense(result_ptr(old(gpu).id(), old(gpu)@.len() + 9)),
        final(gpu).extends(
            *old(gpu),
            dense_ffn_steps(
                prefix@,
                intermediate,
                hidden,
                quantizer,
                old(gpu).id(),
                old(gpu)@.len(),
            ),
        ),
{
    let ghost start = *gpu;
    let plain = load_projections(prefix, intermediate, hidden, quantizer, gpu);
    let gate_proj_t = transpose_for_gemm(plain.gate_proj, intermediate, hidden, gpu);
    let up_proj_t = transpose_for_gemm(plain.up_proj, intermediate, hidden, gpu);
    let down_proj_t = transpose_for_gemm(plain.down_proj, hidden, intermediate, gpu);
    let weights = DenseFfnWeights {
        gate_proj: plain.gate_proj,
        up_proj: plain.up_proj,
        down_proj: plain.down_proj,
        gate_proj_t: Some(gate_proj_t),
        up_proj_t: Some(up_proj_t),
        down_proj_t: Some(down_proj_t),
    };
    let ffn = gpu.call_for_ptr(DeviceCall::NewDenseFfn { weights });
    assert(gpu@ =~= start@ + dense_ffn_steps(
        prefix@,
        intermediate,
        hidden,
        quantizer,
        start.id(),
        start@.len(),
    ));
    FfnComponent::Dense(ffn)
}

/// The prefix of the tensors of routed expert `expert`.
pub open spec fn expert_prefix(prefix: Seq<char>, expert: nat) -> Seq<char> {
    prefix + ".experts."@ + decimal(expert)
}

/// The first `count` routed experts, in order.
pub open spec fn expert_steps(
    prefix: Seq<char>,
    config: ModelConfig,
    quantizer: Quantizer,
    count: nat,
    id: u64,
    at: nat,
) -> Seq<CommandView>
    decreases count,
{
    if count == 0 {
        Seq::empty()
    } else {
        let before = (count - 1) as nat;
        expert_steps(prefix, config, quantizer, before, id, at) + projection_steps(
            expert_prefix(prefix, before),
            config.moe_intermediate_size,
            config.hidden_size,
            quantizer,
            id,
            at + 6 * before,
        )
    }
}

/// The experts that `expert_steps` produces.
pub open spec fn experts_at(count: nat, id: u64, at: nat) -> Seq<ExpertWeight> {
    Seq::new(count, |i: int| projections_at(id, (at + 6 * i) as nat))
}

/// The weights of a mixture of experts built after `at` commands of buffer
/// `id`. The shared expert has no gate of its own: it always contributes.
pub open spec fn moe_weights_at(config: ModelConfig, id: u64, at: nat) -> MoeView {
    let shared = at + 1 + 6 * config.num_experts as nat;
    MoeWeightsOf {
        gate: dense_at(id, at),
        shared_expert: projections_at(id, shared),
        shared_expert_gate: null_weight(),
        experts: experts_at(config.num_experts as nat, id, at + 1),
        router_pre_norm: None,
        correction_bias: Some(dense_at(id, shared + 6)),
    }
}

/// A mixture of experts: router, routed experts, shared expert, routing bias,
/// and the block.
pub open spec fn moe_steps(
    prefix: Seq<char>,
    config: ModelConfig,
    quantizer: Quantizer,
    id: u64,
    at: nat,
) -> Seq<CommandView> {
    let shared = at + 1 + 6 * config.num_experts as nat;
    seq![load(prefix + ".gate.weight"@)] + expert_steps(
        prefix,
        config,
        quantizer,
        config.num_experts as nat,
        id,
        at + 1,
    ) + projection_steps(
        prefix + ".shared_experts"@,
        config.moe_intermediate_size,
        config.hidden_size,
        quantizer,
        id,
        shared,
    ) + seq![
        CommandOf::LoadF32 { name: prefix + ".gate.e_score_correction_bias"@ },
        CommandOf::NewMoe {
            weights: moe_weights_at(config, id, at),
            num_experts: config.num_experts,
        },
        call(
            DeviceCall::PredequantForPrefill {
                ffn: result_ptr(id, shared + 7),
                stream: quantizer.stream,
            },
        ),
    ]
}

pub proof fn lemma_expert_count(
    prefix: Seq<char>,
    config: ModelConfig,
    quantizer: Quantizer,
    count: nat,
    id: u64,
    at: nat,
)
    ensures
        expert_steps(prefix, config, quantizer, count, id, at).len() == 6 * count,
    decreases count,
{
    if count > 0 {
        lemma_expert_count(prefix, config, quantizer, (count - 1) as nat, id, at);
    }
}

fn load_experts(
    prefix: &String,
    config: &ModelConfig,
    quantizer: Quantizer,
    gpu: &mut CommandBuffer,
) -> (experts: Vec<ExpertWeight>)
    ensures
        experts@ == experts_at(config.num_experts as nat, old(gpu).id(), old(gpu)@.len()),
        final(gpu).extends(
            *old(gpu),
            expert_steps(
                prefix@,
                *config,
                quantizer,
                config.num_experts as nat,
                old(gpu).id(),
                old(gpu)@.len(),
            ),
        ),
{
    let ghost start = *gpu;
    let mut experts: Vec<ExpertWeight> = Vec::new();
    let mut expert: usize = 0;
    assert(gpu@ =~= start@ + expert_steps(
        prefix@,
        *config,
        quantizer,
        0,
        start.id(),
        start@.len(),
    ));
    assert(experts@ =~= experts_at(0, start.id(), start@.len()));
    while expert < config.num_experts
        invariant
            expert <= config.num_experts,
            experts@ == experts_at(expert as nat, start.id(), start@.len()),
            gpu.extends(
                start,
                expert_steps(
                    prefix@,
                    *config,
                    quantizer,
                    expert as nat,
                    start.id(),
                    start@.len(),
                ),
            ),
        decreases config.num_experts - expert,
    {
        let mut name = joined(prefix.as_str(), ".experts.");
        let number = decimal_text(expert);
        name.append(number.as_str());
        let ghost before = *gpu;
        proof {
            lemma_expert_count(
                prefix@,
                *config,
                quantizer,
                expert as nat,
                start.id(),
                start@.len(),
            );
        }
        let weight = load_projections(
            &name,
            config.moe_intermediate_size,
            config.hidden_size,
            quantizer,
            gpu,
        );
        experts.push(weight);
        expert = expert + 1;
        proof {
            let last = (expert - 1) as nat;
            lemma_extends_twice(
                start,
                before,
                *gpu,
                expert_steps(prefix@, *config, quantizer, last, start.id(), start@.len()),
                projection_steps(
                    expert_prefix(prefix@, last),
                    config.moe_intermediate_size,
                    config.hidden_size,
                    quantizer,
                    start.id(),
                    start@.len() + 6 * last,
                ),
            );
            assert(experts@ =~= experts_at(expert as nat, start.id(), start@.len()));
        }
    }
    experts
}

/// Load a mixture of experts.
pub fn load_moe(
    prefix: &String,
    config: &ModelConfig,
    quantizer: Quantizer,
    gpu: &mut CommandBuffer,
) -> (ffn: FfnComponent)
    ensures
        ffn == FfnComponent::Moe(
            result_ptr(old(gpu).id(), old(gpu)@.len() + 8 + 6 * config.num_experts as nat),
        ),
        final(gpu).extends(
            *old(gpu),
            moe_steps(prefix@, *config, quantizer, old(gpu).id(), old(gpu)@.len()),
        ),
{
    let ghost start = *gpu;
    let gate = load_dense(prefix, ".gate.weight", gpu);
    let experts = load_experts(prefix, config, quantizer, gpu);
    proof {
        lemma_expert_count(
            prefix@,
            *config,
            quantizer,
            config.num_experts as nat,
            start.id(),
            start@.len() + 1,
        );
    }
    let shared = joined(prefix.as_str(), ".shared_experts");
    let shared_expert = load_projections(
        &shared,
        config.moe_intermediate_size,
        config.hidden_size,
        quantizer,
        gpu,
    );
    let bias = joined(prefix.as_str(), ".gate.e_score_correction_bias");
    let correction_bias = gpu.record_for_ptr(CommandOf::LoadF32 { name: bias });
    let weights = MoeWeightsOf {
        gate,
        shared_expert,
        shared_expert_gate: null_dense(),
        experts,
        router_pre_norm: None,
        correction_bias: Some(DenseWeight { weight: correction_bias }),
    };
    assert(weights@ == moe_weights_at(*config, start.id(), start@.len()));
    let ffn = gpu.record_for_ptr(
        CommandOf::NewMoe { weights, num_experts: config.num_experts },
    );
    gpu.call(DeviceCall::PredequantForPrefill { ffn, stream: quantizer.stream });
    assert(gpu@ =~= start@ + moe_steps(prefix@, *config, quantizer, start.id(), start@.len()));
    FfnComponent::Moe(ffn)
}

} // verus!
