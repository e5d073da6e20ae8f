//! Kimi Delta Attention dispatch.
use vstd::prelude::*;

use crate::device::{
    dim3, launched, CommandBuffer, CommandView, DevicePtr, Float32, KernelArg, KernelHandle,
};

verus! {

/// The bound and the flag that tells whether there is one.
pub open spec fn bound_args(lower_bound: Option<Float32>) -> (Float32, u32) {
    match lower_bound {
        Some(value) => (value, 1),
        None => (Float32::Bits(0), 0),
    }
}

pub open spec fn kda_recurrent_decode_step(
    kernel: KernelHandle,
    state: DevicePtr,
    qkv: DevicePtr,
    forget: DevicePtr,
    beta_input: DevicePtr,
    a_log: DevicePtr,
    dt_bias: DevicePtr,
    output: DevicePtr,
    num_rows: u32,
    num_heads: u32,
    head_dim: u32,
    lower_bound: Option<Float32>,
    stream: u64,
) -> CommandView {
    launched(
        kernel,
        dim3(num_heads, num_rows, 1),
        dim3(head_dim, 1, 1),
        0,
        seq![
            KernelArg::Ptr(state),
            KernelArg::Ptr(qkv),
            KernelArg::Ptr(forget),
            KernelArg::Ptr(beta_input),
            KernelArg::Ptr(a_log),
            KernelArg::Ptr(dt_bias),
            KernelArg::Ptr(output),
            KernelArg::U32(num_heads),
            KernelArg::U32(head_dim),
            KernelArg::F32(bound_args(lower_bound).0),
            KernelArg::U32(bound_args(lower_bound).1),
        ],
        stream,
    )
}

/// One step of the recurrence, a block per head and row. An absent lower bound
/// is passed as zero with its flag cleared.
pub fn kda_recurrent_decode(
    gpu: &mut CommandBuffer,
    kernel: KernelHandle,
    state: DevicePtr,
    qkv: DevicePtr,
    forget: DevicePtr,
    beta_input: DevicePtr,
    a_log: DevicePtr,
    dt_bias: DevicePtr,
    output: DevicePtr,
    num_rows: u32,
    num_heads: u32,
    head_dim: u32,
    lower_bound: Option<Float32>,
    stream: u64,
)
    ensures
        final(gpu).extends(
            *old(gpu),
            seq![
                kda_recurrent_decode_step(
                    kernel,
                    state,
                    qkv,
                    forget,
                    beta_input,
                    a_log,
                    dt_bias,
                    output,
                    num_rows,
                    num_heads,
                    head_dim,
                    lower_bound,
                    stream,
                ),
            ],
        ),
{
    let (bound, has_bound): (Float32, u32) = match lower_bound {
        Some(value) => (value, 1),
        None => (Float32::Bits(0), 0),
    };
    let args = vec![
        KernelArg::Ptr(state),
        KernelArg::Ptr(qkv),
        KernelArg::Ptr(forget),
        KernelArg::Ptr(beta_input),
        KernelArg::Ptr(a_log),
        KernelArg::Ptr(dt_bias),
        KernelArg::Ptr(output),
        KernelArg::U32(num_heads),
        KernelArg::U32(head_dim),
        KernelArg::F32(bound),
        KernelArg::U32(has_bound),
    ];
    gpu.launch(kernel, dim3(num_heads, num_rows, 1), dim3(head_dim, 1, 1), 0, args, stream);
}

pub open spec fn kda_gated_rms_norm_step(
    kernel: KernelHandle,
    input: DevicePtr,
    gate: DevicePtr,
    weight: DevicePtr,
    output: DevicePtr,
    num_rows: u32,
    num_heads: u32,
    head_dim: u32,
    eps: Float32,
    stream: u64,
) -> CommandView {
    launched(
        kernel,
        dim3(num_heads, num_rows, 1),
        dim3(head_dim, 1, 1),
        0,
        seq![
            KernelArg::Ptr(input),
            KernelArg::Ptr(gate),
            KernelArg::Ptr(weight),
            KernelArg::Ptr(output),
            KernelArg::U32(num_heads),
            KernelArg::U32(head_dim),
            KernelArg::F32(eps),
        ],
        stream,
    )
}

/// Normalise each head and apply the output gate.
pub fn kda_gated_rms_norm(
    gpu: &mut CommandBuffer,
    kernel: KernelHandle,
    input: DevicePtr,
    gate: DevicePtr,
    weight: DevicePtr,
    output: DevicePtr,
    num_rows: u32,
    num_heads: u32,
    head_dim: u32,
    eps: Float32,
    stream: u64,
)
    ensures
        final(gpu).extends(
            *old(gpu),
            seq![
                kda_gated_rms_norm_step(
                    kernel,
                    input,
                    gate,
                    weight,
                    output,
                    num_rows,
                    num_heads,
                    head_dim,
                    eps,
                    stream,
                ),
            ],
        ),
{
    let args = vec![
        KernelArg::Ptr(input),
        KernelArg::Ptr(gate),
        KernelArg::Ptr(weight),
        KernelArg::Ptr(output),
        KernelArg::U32(num_heads),
        KernelArg::U32(head_dim),
        KernelArg::F32(eps),
    ];
    gpu.launch(kernel, dim3(num_heads, num_rows, 1), dim3(head_dim, 1, 1), 0, args, stream);
}

} // verus!
