//! Device-side IndexPool raw-entry writes.
use vstd::prelude::*;

use crate::device::{
    dim3, follows, launched, CommandBuffer, CommandView, DevicePtr, Float32, KernelArg,
    KernelHandle, Trace,
};
use crate::ops::{group_count, groups, law_groups_cover, OpsError};

verus! {

pub open spec fn index_pool_write_raw_step(
    kernel: KernelHandle,
    key: DevicePtr,
    gate: DevicePtr,
    slot_mapping: DevicePtr,
    index_pool: DevicePtr,
    tokens: u32,
    dim: u32,
    block_size: u32,
    raw_block_stride_bytes: u32,
    stream: u64,
) -> CommandView {
    launched(
        kernel,
        dim3(groups(2 * dim, 256) as u32, tokens, 1),
        dim3(256, 1, 1),
        0,
        seq![
            KernelArg::Ptr(key),
            KernelArg::Ptr(gate),
            KernelArg::Ptr(slot_mapping),
            KernelArg::Ptr(index_pool),
            KernelArg::U32(tokens),
            KernelArg::U32(dim),
            KernelArg::U32(block_size),
            KernelArg::U32(raw_block_stride_bytes),
        ],
        stream,
    )
}

pub open spec fn index_pool_write_raw_trace(
    kernel: KernelHandle,
    key: DevicePtr,
    gate: DevicePtr,
    slot_mapping: DevicePtr,
    index_pool: DevicePtr,
    tokens: u32,
    dim: u32,
    block_size: u32,
    raw_block_stride_bytes: u32,
    stream: u64,
) -> Trace<(), OpsError> {
    if tokens > 0 && dim > 0 && block_size > 0 {
        Trace {
            steps: seq![
                index_pool_write_raw_step(
                    kernel,
                    key,
                    gate,
                    slot_mapping,
                    index_pool,
                    tokens,
                    dim,
                    block_size,
                    raw_block_stride_bytes,
                    stream,
                ),
            ],
            outcome: Ok(()),
        }
    } else {
        Trace { steps: Seq::empty(), outcome: Err(OpsError::WriteRawShape) }
    }
}

/// Write raw keys and gates into the index pool.
pub fn index_pool_write_raw(
    gpu: &mut CommandBuffer,
    kernel: KernelHandle,
    key: DevicePtr,
    gate: DevicePtr,
    slot_mapping: DevicePtr,
    index_pool: DevicePtr,
    tokens: u32,
    dim: u32,
    block_size: u32,
    raw_block_stride_bytes: u32,
    stream: u64,
) -> (result: Result<(), OpsError>)
    requires
        tokens > 0 && dim > 0 && block_size > 0 ==> 2 * dim <= u32::MAX,
    ensures
        follows(
            *final(gpu),
            *old(gpu),
            result,
            index_pool_write_raw_trace(
                kernel,
                key,
                gate,
                slot_mapping,
                index_pool,
                tokens,
                dim,
                block_size,
                raw_block_stride_bytes,
                stream,
            ),
        ),
{
    if !(tokens > 0 && dim > 0 && block_size > 0) {
        return Err(OpsError::WriteRawShape);
    }
    let args = vec![
        KernelArg::Ptr(key),
        KernelArg::Ptr(gate),
        KernelArg::Ptr(slot_mapping),
        KernelArg::Ptr(index_pool),
        KernelArg::U32(tokens),
        KernelArg::U32(dim),
        KernelArg::U32(block_size),
        KernelArg::U32(raw_block_stride_bytes),
    ];
    gpu.launch(
        kernel,
        dim3(group_count(2 * dim, 256), tokens, 1),
        dim3(256, 1, 1),
        0,
        args,
        stream,
    );
    Ok(())
}

pub open spec fn index_key_layer_norm_step(
    kernel: KernelHandle,
    input: DevicePtr,
    weight: DevicePtr,
    bias: DevicePtr,
    output: DevicePtr,
    dim: u32,
    eps: Float32,
    stream: u64,
) -> CommandView {
    launched(
        kernel,
        dim3(1, 1, 1),
        dim3(256, 1, 1),
        0,
        seq![
            KernelArg::Ptr(input),
            KernelArg::Ptr(weight),
            KernelArg::Ptr(bias),
            KernelArg::Ptr(output),
            KernelArg::U32(dim),
            KernelArg::F32(eps),
        ],
        stream,
    )
}

pub open spec fn index_key_layer_norm_trace(
    kernel: KernelHandle,
    input: DevicePtr,
    weight: DevicePtr,
    bias: DevicePtr,
    output: DevicePtr,
    dim: u32,
    eps: Float32,
    stream: u64,
) -> Trace<(), OpsError> {
    if 0 < dim <= 1024 {
        Trace {
            steps: seq![
                index_key_layer_norm_step(kernel, input, weight, bias, output, dim, eps, stream),
            ],
            outcome: Ok(()),
        }
    } else {
        Trace { steps: Seq::empty(), outcome: Err(OpsError::LayerNormDim) }
    }
}

/// Normalise one index key.
pub fn index_key_layer_norm(
    gpu: &mut CommandBuffer,
    kernel: KernelHandle,
    input: DevicePtr,
    weight: DevicePtr,
    bias: DevicePtr,
    output: DevicePtr,
    dim: u32,
    eps: Float32,
    stream: u64,
) -> (result: Result<(), OpsError>)
    ensures
        follows(
            *final(gpu),
            *old(gpu),
            result,
            index_key_layer_norm_trace(kernel, input, weight, bias, output, dim, eps, stream),
        ),
{
    if !(dim > 0 && dim <= 1024) {
        return Err(OpsError::LayerNormDim);
    }
    let args = vec![
        KernelArg::Ptr(input),
        KernelArg::Ptr(weight),
        KernelArg::Ptr(bias),
        KernelArg::Ptr(output),
        KernelArg::U32(dim),
        KernelArg::F32(eps),
    ];
    gpu.launch(kernel, dim3(1, 1, 1), dim3(256, 1, 1), 0, args, stream);
    Ok(())
}

/// A written entry holds a key and a gate of `dim` lanes each: every lane of every
/// token has a thread, and no group of threads is idle.
pub proof fn law_entry_covered(
    kernel: KernelHandle,
    key: DevicePtr,
    gate: DevicePtr,
    slot_mapping: DevicePtr,
    index_pool: DevicePtr,
    tokens: u32,
    dim: u32,
    block_size: u32,
    raw_block_stride_bytes: u32,
    stream: u64,
)
    ensures
        ({
            let launch = index_pool_write_raw_step(
                kernel,
                key,
                gate,
                slot_mapping,
                index_pool,
                tokens,
                dim,
                block_size,
                raw_block_stride_bytes,
                stream,
            )->Launch_0;
            &&& launch.grid.y == tokens
            &&& launch.grid.x * launch.block.x >= dim + dim
            &&& dim > 0 ==> (launch.grid.x - 1) * launch.block.x < dim + dim
        }),
{
    law_groups_cover(2 * dim, 256);
}

} // verus!
