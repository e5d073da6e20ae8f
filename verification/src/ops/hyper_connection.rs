//! Manifold-constrained hyper-connection dispatch.
//!
//! The hidden state is kept as `[tokens, hc_mult, hidden]`, stream-major per
//! token; every kernel runs one block per token.
use vstd::prelude::*;

use crate::device::{
    dim3, launched, CommandBuffer, CommandView, DevicePtr, Float32, KernelArg, KernelHandle,
};

verus! {

pub open spec fn hc_expand_step(
    kernel: KernelHandle,
    hidden: DevicePtr,
    streams: DevicePtr,
    num_tokens: u32,
    hidden_size: u32,
    hc_mult: u32,
    stream: u64,
) -> CommandView {
    launched(
        kernel,
        dim3(num_tokens, 1, 1),
        dim3(256, 1, 1),
        0,
        seq![
            KernelArg::Ptr(hidden),
            KernelArg::Ptr(streams),
            KernelArg::U32(hidden_size),
            KernelArg::U32(hc_mult),
        ],
        stream,
    )
}

/// Broadcast a single hidden state into `hc_mult` identical streams.
pub fn hc_expand(
    gpu: &mut CommandBuffer,
    kernel: KernelHandle,
    hidden: DevicePtr,
    streams: DevicePtr,
    num_tokens: u32,
    hidden_size: u32,
    hc_mult: u32,
    stream: u64,
)
    ensures
        final(gpu).extends(
            *old(gpu),
            seq![hc_expand_step(kernel, hidden, streams, num_tokens, hidden_size, hc_mult, stream)],
        ),
{
    let args = vec![
        KernelArg::Ptr(hidden),
        KernelArg::Ptr(streams),
        KernelArg::U32(hidden_size),
        KernelArg::U32(hc_mult),
    ];
    gpu.launch(kernel, dim3(num_tokens, 1, 1), dim3(256, 1, 1), 0, args, stream);
}

pub open spec fn hc_pre_step(
    kernel: KernelHandle,
    streams: DevicePtr,
    hc_fn: DevicePtr,
    hc_scale: DevicePtr,
    hc_base: DevicePtr,
    y_out: DevicePtr,
    post_out: DevicePtr,
    comb_out: DevicePtr,
    num_tokens: u32,
    hidden_size: u32,
    hc_mult: u32,
    sinkhorn_iters: u32,
    norm_eps: Float32,
    hc_eps: Float32,
    stream: u64,
) -> CommandView {
    launched(
        kernel,
        dim3(num_tokens, 1, 1),
        dim3(256, 1, 1),
        0,
        seq![
            KernelArg::Ptr(streams),
            KernelArg::Ptr(hc_fn),
            KernelArg::Ptr(hc_scale),
            KernelArg::Ptr(hc_base),
            KernelArg::Ptr(y_out),
            KernelArg::Ptr(post_out),
            KernelArg::Ptr(comb_out),
            KernelArg::U32(hidden_size),
            KernelArg::U32(hc_mult),
            KernelArg::U32(sinkhorn_iters),
            KernelArg::F32(norm_eps),
            KernelArg::F32(hc_eps),
        ],
        stream,
    )
}

/// Collapse `hc_mult` streams to one, and emit the `post` and `comb` mixes for
/// the matching [`hc_post`].
pub fn hc_pre(
    gpu: &mut CommandBuffer,
    kernel: KernelHandle,
    streams: DevicePtr,
    hc_fn: DevicePtr,
    hc_scale: DevicePtr,
    hc_base: DevicePtr,
    y_out: DevicePtr,
    post_out: DevicePtr,
    comb_out: DevicePtr,
    num_tokens: u32,
    hidden_size: u32,
    hc_mult: u32,
    sinkhorn_iters: u32,
    norm_eps: Float32,
    hc_eps: Float32,
    stream: u64,
)
    ensures
        final(gpu).extends(
            *old(gpu),
            seq![
                hc_pre_step(
                    kernel,
                    streams,
                    hc_fn,
                    hc_scale,
                    hc_base,
                    y_out,
                    post_out,
                    comb_out,
                    num_tokens,
                    hidden_size,
                    hc_mult,
                    sinkhorn_iters,
                    norm_eps,
                    hc_eps,
                    stream,
                ),
            ],
        ),
{
    let args = vec![
        KernelArg::Ptr(streams),
        KernelArg::Ptr(hc_fn),
        KernelArg::Ptr(hc_scale),
        KernelArg::Ptr(hc_base),
        KernelArg::Ptr(y_out),
        KernelArg::Ptr(post_out),
        KernelArg::Ptr(comb_out),
        KernelArg::U32(hidden_size),
        KernelArg::U32(hc_mult),
        KernelArg::U32(sinkhorn_iters),
        KernelArg::F32(norm_eps),
        KernelArg::F32(hc_eps),
    ];
    gpu.launch(kernel, dim3(num_tokens, 1, 1), dim3(256, 1, 1), 0, args, stream);
}

pub open spec fn hc_post_step(
    kernel: KernelHandle,
    block_out: DevicePtr,
    residual: DevicePtr,
    post: DevicePtr,
    comb: DevicePtr,
    out: DevicePtr,
    num_tokens: u32,
    hidden_size: u32,
    hc_mult: u32,
    stream: u64,
) -> CommandView {
    launched(
        kernel,
        dim3(num_tokens, 1, 1),
        dim3(256, 1, 1),
        0,
        seq![
            KernelArg::Ptr(block_out),
            KernelArg::Ptr(residual),
            KernelArg::Ptr(post),
            KernelArg::Ptr(comb),
            KernelArg::Ptr(out),
            KernelArg::U32(hidden_size),
            KernelArg::U32(hc_mult),
        ],
        stream,
    )
}

/// Expand a sublayer output back into `hc_mult` streams, mixing the saved
/// residual streams through `comb`. `out` may alias `residual`.
pub fn hc_post(
    gpu: &mut CommandBuffer,
    kernel: KernelHandle,
    block_out: DevicePtr,
    residual: DevicePtr,
    post: DevicePtr,
    comb: DevicePtr,
    out: DevicePtr,
    num_tokens: u32,
    hidden_size: u32,
    hc_mult: u32,
    stream: u64,
)
    ensures
        final(gpu).extends(
            *old(gpu),
            seq![
                hc_post_step(
                    kernel,
                    block_out,
                    residual,
                    post,
                    comb,
                    out,
                    num_tokens,
                    hidden_size,
                    hc_mult,
                    stream,
                ),
            ],
        ),
{
    let args = vec![
        KernelArg::Ptr(block_out),
        KernelArg::Ptr(residual),
        KernelArg::Ptr(post),
        KernelArg::Ptr(comb),
        KernelArg::Ptr(out),
        KernelArg::U32(hidden_size),
        KernelArg::U32(hc_mult),
    ];
    gpu.launch(kernel, dim3(num_tokens, 1, 1), dim3(256, 1, 1), 0, args, stream);
}

pub open spec fn hc_head_step(
    kernel: KernelHandle,
    streams: DevicePtr,
    head_fn: DevicePtr,
    head_scale: DevicePtr,
    head_base: DevicePtr,
    y_out: DevicePtr,
    num_tokens: u32,
    hidden_size: u32,
    hc_mult: u32,
    norm_eps: Float32,
    hc_eps: Float32,
    stream: u64,
) -> CommandView {
    launched(
        kernel,
        dim3(num_tokens, 1, 1),
        dim3(256, 1, 1),
        0,
        seq![
            KernelArg::Ptr(streams),
            KernelArg::Ptr(head_fn),
            KernelArg::Ptr(head_scale),
            KernelArg::Ptr(head_base),
            KernelArg::Ptr(y_out),
            KernelArg::U32(hidden_size),
            KernelArg::U32(hc_mult),
            KernelArg::F32(norm_eps),
            KernelArg::F32(hc_eps),
        ],
        stream,
    )
}

/// Final collapse before the output head: a learned weighted sum over the
/// streams.
pub fn hc_head(
    gpu: &mut CommandBuffer,
    kernel: KernelHandle,
    streams: DevicePtr,
    head_fn: DevicePtr,
    head_scale: DevicePtr,
    head_base: DevicePtr,
    y_out: DevicePtr,
    num_tokens: u32,
    hidden_size: u32,
    hc_mult: u32,
    norm_eps: Float32,
    hc_eps: Float32,
    stream: u64,
)
    ensures
        final(gpu).extends(
            *old(gpu),
            seq![
                hc_head_step(
                    kernel,
                    streams,
                    head_fn,
                    head_scale,
                    head_base,
                    y_out,
                    num_tokens,
                    hidden_size,
                    hc_mult,
                    norm_eps,
                    hc_eps,
                    stream,
                ),
            ],
        ),
{
    let args = vec![
        KernelArg::Ptr(streams),
        KernelArg::Ptr(head_fn),
        KernelArg::Ptr(head_scale),
        KernelArg::Ptr(head_base),
        KernelArg::Ptr(y_out),
        KernelArg::U32(hidden_size),
        KernelArg::U32(hc_mult),
        KernelArg::F32(norm_eps),
        KernelArg::F32(hc_eps),
    ];
    gpu.launch(kernel, dim3(num_tokens, 1, 1), dim3(256, 1, 1), 0, args, stream);
}

pub open spec fn hc_mean_step(
    kernel: KernelHandle,
    streams: DevicePtr,
    y_out: DevicePtr,
    num_tokens: u32,
    hidden_size: u32,
    hc_mult: u32,
    stream: u64,
) -> CommandView {
    launched(
        kernel,
        dim3(num_tokens, 1, 1),
        dim3(256, 1, 1),
        0,
        seq![
            KernelArg::Ptr(streams),
            KernelArg::Ptr(y_out),
            KernelArg::U32(hidden_size),
            KernelArg::U32(hc_mult),
        ],
        stream,
    )
}

/// Final collapse by an unweighted mean over the streams.
pub fn hc_mean(
    gpu: &mut CommandBuffer,
    kernel: KernelHandle,
    streams: DevicePtr,
    y_out: DevicePtr,
    num_tokens: u32,
    hidden_size: u32,
    hc_mult: u32,
    stream: u64,
)
    ensures
        final(gpu).extends(
            *old(gpu),
            seq![hc_mean_step(kernel, streams, y_out, num_tokens, hidden_size, hc_mult, stream)],
        ),
{
    let args = vec![
        KernelArg::Ptr(streams),
        KernelArg::Ptr(y_out),
        KernelArg::U32(hidden_size),
        KernelArg::U32(hc_mult),
    ];
    gpu.launch(kernel, dim3(num_tokens, 1, 1), dim3(256, 1, 1), 0, args, stream);
}

/// A launch on `stream` with one row of threads per token.
pub open spec fn one_block_each(step: CommandView, tokens: u32, stream: u64) -> bool {
    let launch = step->Launch_0;
    &&& step is Launch
    &&& launch.grid.x == tokens
    &&& launch.grid.y == 1
    &&& launch.grid.z == 1
    &&& launch.block.y == 1
    &&& launch.block.z == 1
    &&& launch.stream == stream
}

/// Broadcasting and collapsing run one block per token, and the one writes where the
/// other reads.
pub proof fn law_block_per_token(
    kernel: KernelHandle,
    hidden: DevicePtr,
    streams: DevicePtr,
    num_tokens: u32,
    hidden_size: u32,
    hc_mult: u32,
    stream: u64,
)
    ensures
        ({
            let expand = hc_expand_step(
                kernel,
                hidden,
                streams,
                num_tokens,
                hidden_size,
                hc_mult,
                stream,
            );
            let mean = hc_mean_step(
                kernel,
                streams,
                hidden,
                num_tokens,
                hidden_size,
                hc_mult,
                stream,
            );
            &&& one_block_each(expand, num_tokens, stream)
            &&& one_block_each(mean, num_tokens, stream)
            &&& expand->Launch_0.args[0] == mean->Launch_0.args[1]
            &&& expand->Launch_0.args[1] == mean->Launch_0.args[0]
            &&& expand->Launch_0.args[1] == KernelArg::Ptr(streams)
            &&& expand->Launch_0.args.skip(2) == mean->Launch_0.args.skip(2)
        }),
{
}

} // verus!
