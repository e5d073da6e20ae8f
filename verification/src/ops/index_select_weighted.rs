//! Multi-head gated IndexPool selection dispatch.
use vstd::prelude::*;

use crate::device::{
    dim3, follows, launched, CommandBuffer, CommandView, DevicePtr, KernelArg, KernelHandle, Trace,
};
use crate::ops::OpsError;

verus! {

pub open spec fn index_pool_select_weighted_step(
    kernel: KernelHandle,
    query: DevicePtr,
    raw_pool: DevicePtr,
    weights: DevicePtr,
    ape: DevicePtr,
    block_table: DevicePtr,
    selected: DevicePtr,
    candidates: u32,
    block_size: u32,
    raw_block_stride_bytes: u32,
    heads: u32,
    dim: u32,
    kpool: u32,
    topk: u32,
    stream: u64,
) -> CommandView {
    launched(
        kernel,
        dim3(1, 1, 1),
        dim3(256, 1, 1),
        (topk * 8) as u32,
        seq![
            KernelArg::Ptr(query),
            KernelArg::Ptr(raw_pool),
            KernelArg::Ptr(weights),
            KernelArg::Ptr(ape),
            KernelArg::Ptr(block_table),
            KernelArg::Ptr(selected),
            KernelArg::U32(candidates),
            KernelArg::U32(block_size),
            KernelArg::U32(raw_block_stride_bytes),
            KernelArg::U32(heads),
            KernelArg::U32(dim),
            KernelArg::U32(kpool),
            KernelArg::U32(topk),
        ],
        stream,
    )
}

pub open spec fn index_pool_select_weighted_trace(
    kernel: KernelHandle,
    query: DevicePtr,
    raw_pool: DevicePtr,
    weights: DevicePtr,
    ape: DevicePtr,
    block_table: DevicePtr,
    selected: DevicePtr,
    candidates: u32,
    block_size: u32,
    raw_block_stride_bytes: u32,
    heads: u32,
    dim: u32,
    kpool: u32,
    topk: u32,
    stream: u64,
) -> Trace<(), OpsError> {
    if heads > 0 && dim > 0 && kpool > 0 && topk > 0 && topk <= 512 && block_size > 0 {
        Trace {
            steps: seq![
                index_pool_select_weighted_step(
                    kernel,
                    query,
                    raw_pool,
                    weights,
                    ape,
                    block_table,
                    selected,
                    candidates,
                    block_size,
                    raw_block_stride_bytes,
                    heads,
                    dim,
                    kpool,
                    topk,
                    stream,
                ),
            ],
            outcome: Ok(()),
        }
    } else {
        Trace { steps: Seq::empty(), outcome: Err(OpsError::SelectWeightedShape) }
    }
}

/// Select the `topk` best of the candidate pools by gated multi-head scores.
pub fn index_pool_select_weighted(
    gpu: &mut CommandBuffer,
    kernel: KernelHandle,
    query: DevicePtr,
    raw_pool: DevicePtr,
    weights: DevicePtr,
    ape: DevicePtr,
    block_table: DevicePtr,
    selected: DevicePtr,
    candidates: u32,
    block_size: u32,
    raw_block_stride_bytes: u32,
    heads: u32,
    dim: u32,
    kpool: u32,
    topk: u32,
    stream: u64,
) -> (result: Result<(), OpsError>)
    ensures
        follows(
            *final(gpu),
            *old(gpu),
            result,
            index_pool_select_weighted_trace(
                kernel,
                query,
                raw_pool,
                weights,
                ape,
                block_table,
                selected,
                candidates,
                block_size,
                raw_block_stride_bytes,
                heads,
                dim,
                kpool,
                topk,
                stream,
            ),
        ),
{
    if !(heads > 0 && dim > 0 && kpool > 0 && topk > 0 && topk <= 512 && block_size > 0) {
        return Err(OpsError::SelectWeightedShape);
    }
    let args = vec![
        KernelArg::Ptr(query),
        KernelArg::Ptr(raw_pool),
        KernelArg::Ptr(weights),
        KernelArg::Ptr(ape),
        KernelArg::Ptr(block_table),
        KernelArg::Ptr(selected),
        KernelArg::U32(candidates),
        KernelArg::U32(block_size),
        KernelArg::U32(raw_block_stride_bytes),
        KernelArg::U32(heads),
        KernelArg::U32(dim),
        KernelArg::U32(kpool),
        KernelArg::U32(topk),
    ];
    gpu.launch(kernel, dim3(1, 1, 1), dim3(256, 1, 1), topk * 8, args, stream);
    Ok(())
}

/// Shared memory holds a score and an index, four bytes each, for each of the `topk`
/// that are kept.
pub proof fn law_kept_weighted_pools_have_room(
    kernel: KernelHandle,
    query: DevicePtr,
    raw_pool: DevicePtr,
    weights: DevicePtr,
    ape: DevicePtr,
    block_table: DevicePtr,
    selected: DevicePtr,
    candidates: u32,
    block_size: u32,
    raw_block_stride_bytes: u32,
    heads: u32,
    dim: u32,
    kpool: u32,
    topk: u32,
    stream: u64,
)
    ensures
        ({
            let trace = index_pool_select_weighted_trace(
                kernel,
                query,
                raw_pool,
                weights,
                ape,
                block_table,
                selected,
                candidates,
                block_size,
                raw_block_stride_bytes,
                heads,
                dim,
                kpool,
                topk,
                stream,
            );
            trace.outcome is Ok ==> {
                &&& trace.steps.len() == 1
                &&& trace.steps[0]->Launch_0.shared_mem == topk * 4 + topk * 4
            }
        }),
{
}

} // verus!
