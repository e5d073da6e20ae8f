//! Selected-token latent attention dispatch.
use vstd::prelude::*;

use crate::device::{
    dim3, follows, launched, CommandBuffer, CommandView, DevicePtr, Float32, KernelArg,
    KernelHandle, Trace,
};
use crate::ops::OpsError;

verus! {

pub open spec fn selected_mla_bf16_step(
    kernel: KernelHandle,
    q: DevicePtr,
    k_pool: DevicePtr,
    v_pool: DevicePtr,
    block_table: DevicePtr,
    token_indices: DevicePtr,
    output: DevicePtr,
    selected_count: u32,
    block_size: u32,
    kv_lora: u32,
    num_heads: u32,
    inv_sqrt_d: Float32,
    stream: u64,
) -> CommandView {
    launched(
        kernel,
        dim3(num_heads, 1, 1),
        dim3(256, 1, 1),
        0,
        seq![
            KernelArg::Ptr(q),
            KernelArg::Ptr(k_pool),
            KernelArg::Ptr(v_pool),
            KernelArg::Ptr(block_table),
            KernelArg::Ptr(token_indices),
            KernelArg::Ptr(output),
            KernelArg::U32(selected_count),
            KernelArg::U32(block_size),
            KernelArg::U32(kv_lora),
            KernelArg::U32(num_heads),
            KernelArg::F32(inv_sqrt_d),
        ],
        stream,
    )
}

pub open spec fn selected_mla_bf16_trace(
    kernel: KernelHandle,
    q: DevicePtr,
    k_pool: DevicePtr,
    v_pool: DevicePtr,
    block_table: DevicePtr,
    token_indices: DevicePtr,
    output: DevicePtr,
    selected_count: u32,
    block_size: u32,
    kv_lora: u32,
    num_heads: u32,
    inv_sqrt_d: Float32,
    stream: u64,
) -> Trace<(), OpsError> {
    if kv_lora <= 512 {
        Trace {
            steps: seq![
                selected_mla_bf16_step(
                    kernel,
                    q,
                    k_pool,
                    v_pool,
                    block_table,
                    token_indices,
                    output,
                    selected_count,
                    block_size,
                    kv_lora,
                    num_heads,
                    inv_sqrt_d,
                    stream,
                ),
            ],
            outcome: Ok(()),
        }
    } else {
        Trace { steps: Seq::empty(), outcome: Err(OpsError::SelectedMlaRank) }
    }
}

/// Latent attention over the selected tokens, a block per head.
pub fn selected_mla_bf16(
    gpu: &mut CommandBuffer,
    kernel: KernelHandle,
    q: DevicePtr,
    k_pool: DevicePtr,
    v_pool: DevicePtr,
    block_table: DevicePtr,
    token_indices: DevicePtr,
    output: DevicePtr,
    selected_count: u32,
    block_size: u32,
    kv_lora: u32,
    num_heads: u32,
    inv_sqrt_d: Float32,
    stream: u64,
) -> (result: Result<(), OpsError>)
    ensures
        follows(
            *final(gpu),
            *old(gpu),
            result,
            selected_mla_bf16_trace(
                kernel,
                q,
                k_pool,
                v_pool,
                block_table,
                token_indices,
                output,
                selected_count,
                block_size,
                kv_lora,
                num_heads,
                inv_sqrt_d,
                stream,
            ),
        ),
{
    if !(kv_lora <= 512) {
        return Err(OpsError::SelectedMlaRank);
    }
    let args = vec![
        KernelArg::Ptr(q),
        KernelArg::Ptr(k_pool),
        KernelArg::Ptr(v_pool),
        KernelArg::Ptr(block_table),
        KernelArg::Ptr(token_indices),
        KernelArg::Ptr(output),
        KernelArg::U32(selected_count),
        KernelArg::U32(block_size),
        KernelArg::U32(kv_lora),
        KernelArg::U32(num_heads),
        KernelArg::F32(inv_sqrt_d),
    ];
    gpu.launch(kernel, dim3(num_heads, 1, 1), dim3(256, 1, 1), 0, args, stream);
    Ok(())
}

} // verus!
