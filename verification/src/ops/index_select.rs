//! IndexPool candidate selection dispatch.
use vstd::prelude::*;

use crate::device::{
    dim3, follows, launched, CommandBuffer, CommandView, DevicePtr, KernelArg, KernelHandle, Trace,
};
use crate::ops::OpsError;

verus! {

pub open spec fn index_pool_select_step(
    kernel: KernelHandle,
    query: DevicePtr,
    pooled_k: DevicePtr,
    selected: DevicePtr,
    candidates: u32,
    dim: u32,
    topk: u32,
    stream: u64,
) -> CommandView {
    launched(
        kernel,
        dim3(1, 1, 1),
        dim3(256, 1, 1),
        (topk * 8) as u32,
        seq![
            KernelArg::Ptr(query),
            KernelArg::Ptr(pooled_k),
            KernelArg::Ptr(selected),
            KernelArg::U32(candidates),
            KernelArg::U32(dim),
            KernelArg::U32(topk),
        ],
        stream,
    )
}

pub open spec fn index_pool_select_trace(
    kernel: KernelHandle,
    query: DevicePtr,
    pooled_k: DevicePtr,
    selected: DevicePtr,
    candidates: u32,
    dim: u32,
    topk: u32,
    stream: u64,
) -> Trace<(), OpsError> {
    if 0 < topk <= 512 {
        Trace {
            steps: seq![
                index_pool_select_step(
                    kernel,
                    query,
                    pooled_k,
                    selected,
                    candidates,
                    dim,
                    topk,
                    stream,
                ),
            ],
            outcome: Ok(()),
        }
    } else {
        Trace { steps: Seq::empty(), outcome: Err(OpsError::SelectTopkRange) }
    }
}

/// Select the `topk` best of the candidate pools.
pub fn index_pool_select(
    gpu: &mut CommandBuffer,
    kernel: KernelHandle,
    query: DevicePtr,
    pooled_k: DevicePtr,
    selected: DevicePtr,
    candidates: u32,
    dim: u32,
    topk: u32,
    stream: u64,
) -> (result: Result<(), OpsError>)
    ensures
        follows(
            *final(gpu),
            *old(gpu),
            result,
            index_pool_select_trace(
                kernel,
                query,
                pooled_k,
                selected,
                candidates,
                dim,
                topk,
                stream,
            ),
        ),
{
    if !(topk > 0 && topk <= 512) {
        return Err(OpsError::SelectTopkRange);
    }
    let args = vec![
        KernelArg::Ptr(query),
        KernelArg::Ptr(pooled_k),
        KernelArg::Ptr(selected),
        KernelArg::U32(candidates),
        KernelArg::U32(dim),
        KernelArg::U32(topk),
    ];
    gpu.launch(kernel, dim3(1, 1, 1), dim3(256, 1, 1), topk * 8, args, stream);
    Ok(())
}

/// Shared memory holds a score and an index, four bytes each, for each of the `topk`
/// that are kept.
pub proof fn law_kept_pools_have_room(
    kernel: KernelHandle,
    query: DevicePtr,
    pooled_k: DevicePtr,
    selected: DevicePtr,
    candidates: u32,
    dim: u32,
    topk: u32,
    stream: u64,
)
    ensures
        ({
            let trace = index_pool_select_trace(
                kernel,
                query,
                pooled_k,
                selected,
                candidates,
                dim,
                topk,
                stream,
            );
            trace.outcome is Ok ==> {
                &&& trace.steps.len() == 1
                &&& trace.steps[0]->Launch_0.shared_mem == topk * 4 + topk * 4
            }
        }),
{
}

} // verus!
