//! IndexPool compression dispatch.
use vstd::prelude::*;

use crate::device::{
    dim3, follows, launched, CommandBuffer, CommandView, DevicePtr, KernelArg, KernelHandle, Trace,
};
use crate::ops::{group_count, groups, law_groups_cover, lemma_groups_fit, OpsError};

verus! {

pub open spec fn index_pool_compress_step(
    kernel: KernelHandle,
    raw_k: DevicePtr,
    raw_gate: DevicePtr,
    pooled_k: DevicePtr,
    tokens: u32,
    dim: u32,
    kpool: u32,
    stream: u64,
) -> CommandView {
    launched(
        kernel,
        dim3(groups(tokens as int, kpool as int) as u32, groups(dim as int, 256) as u32, 1),
        dim3(256, 1, 1),
        0,
        seq![
            KernelArg::Ptr(raw_k),
            KernelArg::Ptr(raw_gate),
            KernelArg::Ptr(pooled_k),
            KernelArg::U32(tokens),
            KernelArg::U32(dim),
            KernelArg::U32(kpool),
        ],
        stream,
    )
}

/// Compress each group of `kpool` raw keys to one pooled key.
pub fn index_pool_compress(
    gpu: &mut CommandBuffer,
    kernel: KernelHandle,
    raw_k: DevicePtr,
    raw_gate: DevicePtr,
    pooled_k: DevicePtr,
    tokens: u32,
    dim: u32,
    kpool: u32,
    stream: u64,
)
    requires
        kpool > 0,
    ensures
        final(gpu).extends(
            *old(gpu),
            seq![
                index_pool_compress_step(
                    kernel,
                    raw_k,
                    raw_gate,
                    pooled_k,
                    tokens,
                    dim,
                    kpool,
                    stream,
                ),
            ],
        ),
{
    let args = vec![
        KernelArg::Ptr(raw_k),
        KernelArg::Ptr(raw_gate),
        KernelArg::Ptr(pooled_k),
        KernelArg::U32(tokens),
        KernelArg::U32(dim),
        KernelArg::U32(kpool),
    ];
    gpu.launch(
        kernel,
        dim3(group_count(tokens, kpool), group_count(dim, 256), 1),
        dim3(256, 1, 1),
        0,
        args,
        stream,
    );
}

pub open spec fn index_pool_compress_block_step(
    kernel: KernelHandle,
    raw_pool: DevicePtr,
    pooled_pool: DevicePtr,
    pooled_gate: DevicePtr,
    dim: u32,
    gate_dim: u32,
    kpool: u32,
    block_size: u32,
    stream: u64,
) -> CommandView {
    launched(
        kernel,
        dim3(block_size / kpool, groups(dim as int, 256) as u32, 1),
        dim3(256, 1, 1),
        0,
        seq![
            KernelArg::Ptr(raw_pool),
            KernelArg::Ptr(pooled_pool),
            KernelArg::Ptr(pooled_gate),
            KernelArg::U32(dim),
            KernelArg::U32(gate_dim),
            KernelArg::U32(kpool),
            KernelArg::U32(block_size),
        ],
        stream,
    )
}

pub open spec fn index_pool_compress_block_trace(
    kernel: KernelHandle,
    raw_pool: DevicePtr,
    pooled_pool: DevicePtr,
    pooled_gate: DevicePtr,
    dim: u32,
    gate_dim: u32,
    kpool: u32,
    block_size: u32,
    stream: u64,
) -> Trace<(), OpsError> {
    if dim > 0 && gate_dim > 0 && kpool > 0 && block_size > 0 && block_size % kpool == 0 {
        Trace {
            steps: seq![
                index_pool_compress_block_step(
                    kernel,
                    raw_pool,
                    pooled_pool,
                    pooled_gate,
                    dim,
                    gate_dim,
                    kpool,
                    block_size,
                    stream,
                ),
            ],
            outcome: Ok(()),
        }
    } else {
        Trace { steps: Seq::empty(), outcome: Err(OpsError::CompressBlockShape) }
    }
}

/// Compress one cache block of raw keys.
pub fn index_pool_compress_block(
    gpu: &mut CommandBuffer,
    kernel: KernelHandle,
    raw_pool: DevicePtr,
    pooled_pool: DevicePtr,
    pooled_gate: DevicePtr,
    dim: u32,
    gate_dim: u32,
    kpool: u32,
    block_size: u32,
    stream: u64,
) -> (result: Result<(), OpsError>)
    ensures
        follows(
            *final(gpu),
            *old(gpu),
            result,
            index_pool_compress_block_trace(
                kernel,
                raw_pool,
                pooled_pool,
                pooled_gate,
                dim,
                gate_dim,
                kpool,
                block_size,
                stream,
            ),
        ),
{
    if !(dim > 0 && gate_dim > 0 && kpool > 0 && block_size > 0 && block_size % kpool == 0) {
        return Err(OpsError::CompressBlockShape);
    }
    let args = vec![
        KernelArg::Ptr(raw_pool),
        KernelArg::Ptr(pooled_pool),
        KernelArg::Ptr(pooled_gate),
        KernelArg::U32(dim),
        KernelArg::U32(gate_dim),
        KernelArg::U32(kpool),
        KernelArg::U32(block_size),
    ];
    gpu.launch(
        kernel,
        dim3(block_size / kpool, group_count(dim, 256), 1),
        dim3(256, 1, 1),
        0,
        args,
        stream,
    );
    Ok(())
}

/// A compressed block is covered by its pools exactly: one group of threads per
/// pool, and no token of the block without one.
pub proof fn law_block_is_pools(
    kernel: KernelHandle,
    raw_pool: DevicePtr,
    pooled_pool: DevicePtr,
    pooled_gate: DevicePtr,
    dim: u32,
    gate_dim: u32,
    kpool: u32,
    block_size: u32,
    stream: u64,
)
    requires
        index_pool_compress_block_trace(
            kernel,
            raw_pool,
            pooled_pool,
            pooled_gate,
            dim,
            gate_dim,
            kpool,
            block_size,
            stream,
        ).outcome is Ok,
    ensures
        index_pool_compress_block_step(
            kernel,
            raw_pool,
            pooled_pool,
            pooled_gate,
            dim,
            gate_dim,
            kpool,
            block_size,
            stream,
        )->Launch_0.grid.x * kpool == block_size,
{
    vstd::arithmetic::div_mod::lemma_fundamental_div_mod(block_size as int, kpool as int);
    assert(kpool * (block_size / kpool) == (block_size / kpool) * kpool) by (nonlinear_arith);
}

/// Every pool of a compression has a row of threads, and every lane of the pooled
/// key a thread; no group of threads is idle.
pub proof fn law_compression_covers(
    kernel: KernelHandle,
    raw_k: DevicePtr,
    raw_gate: DevicePtr,
    pooled_k: DevicePtr,
    tokens: u32,
    dim: u32,
    kpool: u32,
    stream: u64,
)
    requires
        kpool > 0,
    ensures
        ({
            let launch = index_pool_compress_step(
                kernel,
                raw_k,
                raw_gate,
                pooled_k,
                tokens,
                dim,
                kpool,
                stream,
            )->Launch_0;
            &&& launch.grid.x * kpool >= tokens
            &&& tokens > 0 ==> (launch.grid.x - 1) * kpool < tokens
            &&& launch.grid.y * launch.block.x >= dim
            &&& dim > 0 ==> (launch.grid.y - 1) * launch.block.x < dim
        }),
{
    law_groups_cover(tokens as int, kpool as int);
    law_groups_cover(dim as int, 256);
    lemma_groups_fit(tokens, kpool);
    lemma_groups_fit(dim, 256);
}

/// Every lane of a compressed block's keys has a thread, and no group of threads is
/// idle.
pub proof fn law_block_lanes_covered(
    kernel: KernelHandle,
    raw_pool: DevicePtr,
    pooled_pool: DevicePtr,
    pooled_gate: DevicePtr,
    dim: u32,
    gate_dim: u32,
    kpool: u32,
    block_size: u32,
    stream: u64,
)
    ensures
        ({
            let launch = index_pool_compress_block_step(
                kernel,
                raw_pool,
                pooled_pool,
                pooled_gate,
                dim,
                gate_dim,
                kpool,
                block_size,
                stream,
            )->Launch_0;
            &&& launch.grid.y * launch.block.x >= dim
            &&& dim > 0 ==> (launch.grid.y - 1) * launch.block.x < dim
        }),
{
    law_groups_cover(dim as int, 256);
    lemma_groups_fit(dim, 256);
}

} // verus!
