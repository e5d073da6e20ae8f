//! Pool-to-token expansion dispatch.
use vstd::prelude::*;

use crate::device::{
    dim3, follows, launched, CommandBuffer, CommandView, DevicePtr, KernelArg, KernelHandle, Trace,
};
use crate::ops::{group_count, groups, law_groups_cover, OpsError};

verus! {

/// How many token indices an expansion writes.
pub open spec fn expanded_width(selected_count: u32, kpool: u32, tail_count: u32) -> int {
    selected_count * kpool + tail_count
}

pub open spec fn index_pool_expand_step(
    kernel: KernelHandle,
    selected_pools: DevicePtr,
    token_indices: DevicePtr,
    selected_count: u32,
    kpool: u32,
    seq_len: u32,
    tail_count: u32,
    stream: u64,
) -> CommandView {
    launched(
        kernel,
        dim3(groups(expanded_width(selected_count, kpool, tail_count), 256) as u32, 1, 1),
        dim3(256, 1, 1),
        0,
        seq![
            KernelArg::Ptr(selected_pools),
            KernelArg::Ptr(token_indices),
            KernelArg::U32(selected_count),
            KernelArg::U32(kpool),
            KernelArg::U32(seq_len),
            KernelArg::U32(tail_count),
        ],
        stream,
    )
}

pub open spec fn index_pool_expand_trace(
    kernel: KernelHandle,
    selected_pools: DevicePtr,
    token_indices: DevicePtr,
    selected_count: u32,
    kpool: u32,
    seq_len: u32,
    tail_count: u32,
    stream: u64,
) -> Trace<(), OpsError> {
    if kpool == 0 {
        Trace { steps: Seq::empty(), outcome: Err(OpsError::ExpandKpoolZero) }
    } else if expanded_width(selected_count, kpool, tail_count) > u32::MAX {
        Trace { steps: Seq::empty(), outcome: Err(OpsError::ExpandWidthOverflow) }
    } else {
        Trace {
            steps: seq![
                index_pool_expand_step(
                    kernel,
                    selected_pools,
                    token_indices,
                    selected_count,
                    kpool,
                    seq_len,
                    tail_count,
                    stream,
                ),
            ],
            outcome: Ok(()),
        }
    }
}

/// Expand the selected pools to the indices of their tokens, followed by the
/// tail of the sequence.
pub fn index_pool_expand(
    gpu: &mut CommandBuffer,
    kernel: KernelHandle,
    selected_pools: DevicePtr,
    token_indices: DevicePtr,
    selected_count: u32,
    kpool: u32,
    seq_len: u32,
    tail_count: u32,
    stream: u64,
) -> (result: Result<(), OpsError>)
    ensures
        follows(
            *final(gpu),
            *old(gpu),
            result,
            index_pool_expand_trace(
                kernel,
                selected_pools,
                token_indices,
                selected_count,
                kpool,
                seq_len,
                tail_count,
                stream,
            ),
        ),
{
    if !(kpool > 0) {
        return Err(OpsError::ExpandKpoolZero);
    }
    let pooled: u32 = match selected_count.checked_mul(kpool) {
        Some(pooled) => pooled,
        None => {
            return Err(OpsError::ExpandWidthOverflow);
        },
    };
    let width: u32 = match pooled.checked_add(tail_count) {
        Some(width) => width,
        None => {
            return Err(OpsError::ExpandWidthOverflow);
        },
    };
    let args = vec![
        KernelArg::Ptr(selected_pools),
        KernelArg::Ptr(token_indices),
        KernelArg::U32(selected_count),
        KernelArg::U32(kpool),
        KernelArg::U32(seq_len),
        KernelArg::U32(tail_count),
    ];
    gpu.launch(kernel, dim3(group_count(width, 256), 1, 1), dim3(256, 1, 1), 0, args, stream);
    Ok(())
}

/// Every token index of an expansion has a thread, and no group of threads is
/// idle.
pub proof fn law_expansion_covers(
    kernel: KernelHandle,
    selected_pools: DevicePtr,
    token_indices: DevicePtr,
    selected_count: u32,
    kpool: u32,
    seq_len: u32,
    tail_count: u32,
    stream: u64,
)
    requires
        expanded_width(selected_count, kpool, tail_count) <= u32::MAX,
    ensures
        ({
            let width = expanded_width(selected_count, kpool, tail_count);
            let launch = index_pool_expand_step(
                kernel,
                selected_pools,
                token_indices,
                selected_count,
                kpool,
                seq_len,
                tail_count,
                stream,
            )->Launch_0;
            &&& launch.grid.x * launch.block.x >= width
            &&& width > 0 ==> (launch.grid.x - 1) * launch.block.x < width
        }),
{
    let width = expanded_width(selected_count, kpool, tail_count);
    assert(selected_count * kpool >= 0) by (nonlinear_arith);
    law_groups_cover(width, 256);
    assert(groups(width, 256) <= u32::MAX);
}

} // verus!
