use glm5_next::device::{
    dim3, CommandBuffer, CommandOf, DevicePtr, Dim3, Float32, KernelArg, KernelHandle, LaunchOf,
    Origin,
};
use glm5_next::ops::hyper_connection::{hc_expand, hc_head, hc_mean, hc_post, hc_pre};
use glm5_next::ops::index_expand::index_pool_expand;
use glm5_next::ops::index_pool::{index_pool_compress, index_pool_compress_block};
use glm5_next::ops::index_select::index_pool_select;
use glm5_next::ops::index_select_weighted::index_pool_select_weighted;
use glm5_next::ops::index_write::{index_key_layer_norm, index_pool_write_raw};
use glm5_next::ops::kda::{kda_gated_rms_norm, kda_recurrent_decode};
use glm5_next::ops::selected_mla::selected_mla_bf16;
use glm5_next::ops::{group_count, OpsError};

const KERNEL: KernelHandle = KernelHandle::Raw(7);

fn ptr(bytes: u64) -> DevicePtr {
    DevicePtr { origin: Origin::Absolute, bytes }
}

fn p(bytes: u64) -> KernelArg {
    KernelArg::Ptr(ptr(bytes))
}

fn u(value: u32) -> KernelArg {
    KernelArg::U32(value)
}

fn f(value: f32) -> KernelArg {
    KernelArg::F32(Float32::Bits(value.to_bits()))
}

fn float(value: f32) -> Float32 {
    Float32::Bits(value.to_bits())
}

fn buffer() -> CommandBuffer {
    CommandBuffer::new(1, 0)
}

/// The buffer holds this launch and nothing else.
fn assert_launch(
    gpu: &CommandBuffer,
    grid: Dim3,
    block: Dim3,
    shared_mem: u32,
    args: Vec<KernelArg>,
) {
    let launch = LaunchOf { kernel: KERNEL, grid, block, shared_mem, args, stream: 9 };
    assert_eq!(gpu.commands(), &vec![CommandOf::Launch(launch)]);
}

fn threads() -> Dim3 {
    dim3(256, 1, 1)
}

#[test]
fn hyper_connection_launches_one_block_per_token() {
    let mut gpu = buffer();
    hc_expand(&mut gpu, KERNEL, ptr(1), ptr(2), 3, 4096, 4, 9);
    assert_launch(&gpu, dim3(3, 1, 1), threads(), 0, vec![p(1), p(2), u(4096), u(4)]);

    let mut gpu = buffer();
    hc_mean(&mut gpu, KERNEL, ptr(1), ptr(2), 3, 4096, 4, 9);
    assert_launch(&gpu, dim3(3, 1, 1), threads(), 0, vec![p(1), p(2), u(4096), u(4)]);

    let mut gpu = buffer();
    hc_post(&mut gpu, KERNEL, ptr(1), ptr(2), ptr(3), ptr(4), ptr(5), 6, 4096, 4, 9);
    assert_launch(
        &gpu,
        dim3(6, 1, 1),
        threads(),
        0,
        vec![p(1), p(2), p(3), p(4), p(5), u(4096), u(4)],
    );
}

#[test]
fn hyper_connection_collapse_passes_its_parameters_in_order() {
    let mut gpu = buffer();
    hc_pre(
        &mut gpu,
        KERNEL,
        ptr(1),
        ptr(2),
        ptr(3),
        ptr(4),
        ptr(5),
        ptr(6),
        ptr(7),
        2,
        4096,
        4,
        20,
        float(1.0e-5),
        float(1.0e-6),
        9,
    );
    assert_launch(
        &gpu,
        dim3(2, 1, 1),
        threads(),
        0,
        vec![
            p(1),
            p(2),
            p(3),
            p(4),
            p(5),
            p(6),
            p(7),
            u(4096),
            u(4),
            u(20),
            f(1.0e-5),
            f(1.0e-6),
        ],
    );

    let mut gpu = buffer();
    hc_head(
        &mut gpu,
        KERNEL,
        ptr(1),
        ptr(2),
        ptr(3),
        ptr(4),
        ptr(5),
        2,
        4096,
        4,
        float(1.0e-5),
        float(1.0e-6),
        9,
    );
    assert_launch(
        &gpu,
        dim3(2, 1, 1),
        threads(),
        0,
        vec![p(1), p(2), p(3), p(4), p(5), u(4096), u(4), f(1.0e-5), f(1.0e-6)],
    );
}

#[test]
fn recurrent_decode_flags_its_lower_bound() {
    let mut gpu = buffer();
    kda_recurrent_decode(
        &mut gpu,
        KERNEL,
        ptr(1),
        ptr(2),
        ptr(3),
        ptr(4),
        ptr(5),
        ptr(6),
        ptr(7),
        2,
        64,
        128,
        Some(float(-5.0)),
        9,
    );
    assert_launch(
        &gpu,
        dim3(64, 2, 1),
        dim3(128, 1, 1),
        0,
        vec![p(1), p(2), p(3), p(4), p(5), p(6), p(7), u(64), u(128), f(-5.0), u(1)],
    );

    let mut gpu = buffer();
    kda_recurrent_decode(
        &mut gpu,
        KERNEL,
        ptr(1),
        ptr(2),
        ptr(3),
        ptr(4),
        ptr(5),
        ptr(6),
        ptr(7),
        1,
        64,
        128,
        None,
        9,
    );
    assert_launch(
        &gpu,
        dim3(64, 1, 1),
        dim3(128, 1, 1),
        0,
        vec![p(1), p(2), p(3), p(4), p(5), p(6), p(7), u(64), u(128), f(0.0), u(0)],
    );
}

#[test]
fn gated_norm_launches_one_block_per_head_and_row() {
    let mut gpu = buffer();
    kda_gated_rms_norm(
        &mut gpu,
        KERNEL,
        ptr(1),
        ptr(2),
        ptr(3),
        ptr(4),
        5,
        64,
        128,
        float(1.0e-5),
        9,
    );
    assert_launch(
        &gpu,
        dim3(64, 5, 1),
        dim3(128, 1, 1),
        0,
        vec![p(1), p(2), p(3), p(4), u(64), u(128), f(1.0e-5)],
    );
}

#[test]
fn compression_rounds_its_grid_up() {
    let mut gpu = buffer();
    index_pool_compress(&mut gpu, KERNEL, ptr(1), ptr(2), ptr(3), 10, 257, 4, 9);
    assert_launch(
        &gpu,
        dim3(3, 2, 1),
        threads(),
        0,
        vec![p(1), p(2), p(3), u(10), u(257), u(4)],
    );
}

#[test]
fn block_compression_takes_whole_pools_only() {
    let mut gpu = buffer();
    let done =
        index_pool_compress_block(&mut gpu, KERNEL, ptr(1), ptr(2), ptr(3), 128, 128, 4, 16, 9);
    assert_eq!(done, Ok(()));
    assert_launch(
        &gpu,
        dim3(4, 1, 1),
        threads(),
        0,
        vec![p(1), p(2), p(3), u(128), u(128), u(4), u(16)],
    );

    for (dim, gate_dim, kpool, block_size) in
        [(0, 128, 4, 16), (128, 0, 4, 16), (128, 128, 0, 16), (128, 128, 4, 0), (128, 128, 4, 18)]
    {
        let mut gpu = buffer();
        let refused = index_pool_compress_block(
            &mut gpu,
            KERNEL,
            ptr(1),
            ptr(2),
            ptr(3),
            dim,
            gate_dim,
            kpool,
            block_size,
            9,
        );
        assert_eq!(refused, Err(OpsError::CompressBlockShape));
        assert!(gpu.commands().is_empty());
    }
}

#[test]
fn expansion_covers_pools_and_tail() {
    let mut gpu = buffer();
    assert_eq!(index_pool_expand(&mut gpu, KERNEL, ptr(1), ptr(2), 64, 4, 1000, 1, 9), Ok(()));
    assert_launch(
        &gpu,
        dim3(2, 1, 1),
        threads(),
        0,
        vec![p(1), p(2), u(64), u(4), u(1000), u(1)],
    );

    let mut gpu = buffer();
    assert_eq!(
        index_pool_expand(&mut gpu, KERNEL, ptr(1), ptr(2), 1, 0, 10, 0, 9),
        Err(OpsError::ExpandKpoolZero)
    );
    assert_eq!(
        index_pool_expand(&mut gpu, KERNEL, ptr(1), ptr(2), u32::MAX, 2, 10, 0, 9),
        Err(OpsError::ExpandWidthOverflow)
    );
    assert_eq!(
        index_pool_expand(&mut gpu, KERNEL, ptr(1), ptr(2), u32::MAX, 1, 10, 1, 9),
        Err(OpsError::ExpandWidthOverflow)
    );
    assert!(gpu.commands().is_empty());
}

#[test]
fn selection_keeps_its_candidates_in_shared_memory() {
    let mut gpu = buffer();
    assert_eq!(index_pool_select(&mut gpu, KERNEL, ptr(1), ptr(2), ptr(3), 100, 128, 512, 9), Ok(
        (),
    ));
    assert_launch(
        &gpu,
        dim3(1, 1, 1),
        threads(),
        4096,
        vec![p(1), p(2), p(3), u(100), u(128), u(512)],
    );

    for topk in [0, 513] {
        let mut gpu = buffer();
        assert_eq!(
            index_pool_select(&mut gpu, KERNEL, ptr(1), ptr(2), ptr(3), 100, 128, topk, 9),
            Err(OpsError::SelectTopkRange)
        );
        assert!(gpu.commands().is_empty());
    }
}

fn select_weighted(
    block: u32,
    heads: u32,
    dim: u32,
    kpool: u32,
    topk: u32,
) -> (Result<(), OpsError>, CommandBuffer) {
    let mut gpu = buffer();
    let result = index_pool_select_weighted(
        &mut gpu,
        KERNEL,
        ptr(1),
        ptr(2),
        ptr(3),
        ptr(4),
        ptr(5),
        ptr(6),
        100,
        block,
        8192,
        heads,
        dim,
        kpool,
        topk,
        9,
    );
    (result, gpu)
}

#[test]
fn weighted_selection_checks_its_shape() {
    let (result, gpu) = select_weighted(16, 32, 128, 4, 12);
    assert_eq!(result, Ok(()));
    assert_launch(
        &gpu,
        dim3(1, 1, 1),
        threads(),
        96,
        vec![
            p(1),
            p(2),
            p(3),
            p(4),
            p(5),
            p(6),
            u(100),
            u(16),
            u(8192),
            u(32),
            u(128),
            u(4),
            u(12),
        ],
    );

    for (block, heads, dim, kpool, topk) in [
        (0, 32, 128, 4, 12),
        (16, 0, 128, 4, 12),
        (16, 32, 0, 4, 12),
        (16, 32, 128, 0, 12),
        (16, 32, 128, 4, 0),
        (16, 32, 128, 4, 513),
    ] {
        let (result, gpu) = select_weighted(block, heads, dim, kpool, topk);
        assert_eq!(result, Err(OpsError::SelectWeightedShape));
        assert!(gpu.commands().is_empty());
    }
}

#[test]
fn raw_entries_hold_key_and_gate() {
    let mut gpu = buffer();
    let done =
        index_pool_write_raw(&mut gpu, KERNEL, ptr(1), ptr(2), ptr(3), ptr(4), 2, 129, 16, 8192, 9);
    assert_eq!(done, Ok(()));
    assert_launch(
        &gpu,
        dim3(2, 2, 1),
        threads(),
        0,
        vec![p(1), p(2), p(3), p(4), u(2), u(129), u(16), u(8192)],
    );

    for (tokens, dim, block) in [(0, 128, 16), (1, 0, 16), (1, 128, 0)] {
        let mut gpu = buffer();
        let refused = index_pool_write_raw(
            &mut gpu,
            KERNEL,
            ptr(1),
            ptr(2),
            ptr(3),
            ptr(4),
            tokens,
            dim,
            block,
            8192,
            9,
        );
        assert_eq!(refused, Err(OpsError::WriteRawShape));
        assert!(gpu.commands().is_empty());
    }
}

#[test]
fn index_norm_has_a_width_limit() {
    let mut gpu = buffer();
    let done = index_key_layer_norm(
        &mut gpu,
        KERNEL,
        ptr(1),
        ptr(2),
        ptr(3),
        ptr(4),
        1024,
        float(1.0e-6),
        9,
    );
    assert_eq!(done, Ok(()));
    assert_launch(
        &gpu,
        dim3(1, 1, 1),
        threads(),
        0,
        vec![p(1), p(2), p(3), p(4), u(1024), f(1.0e-6)],
    );

    for dim in [0, 1025] {
        let mut gpu = buffer();
        let refused = index_key_layer_norm(
            &mut gpu,
            KERNEL,
            ptr(1),
            ptr(2),
            ptr(3),
            ptr(4),
            dim,
            float(1.0e-6),
            9,
        );
        assert_eq!(refused, Err(OpsError::LayerNormDim));
        assert!(gpu.commands().is_empty());
    }
}

#[test]
fn selected_attention_has_a_rank_limit() {
    for (kv_lora, accepted) in [(512, true), (513, false)] {
        let mut gpu = buffer();
        let result = selected_mla_bf16(
            &mut gpu,
            KERNEL,
            ptr(1),
            ptr(2),
            ptr(3),
            ptr(4),
            ptr(5),
            ptr(6),
            77,
            16,
            kv_lora,
            64,
            float(0.0625),
            9,
        );
        if accepted {
            assert_eq!(result, Ok(()));
            assert_launch(
                &gpu,
                dim3(64, 1, 1),
                threads(),
                0,
                vec![
                    p(1),
                    p(2),
                    p(3),
                    p(4),
                    p(5),
                    p(6),
                    u(77),
                    u(16),
                    u(512),
                    u(64),
                    f(0.0625),
                ],
            );
        } else {
            assert_eq!(result, Err(OpsError::SelectedMlaRank));
            assert!(gpu.commands().is_empty());
        }
    }
}

#[test]
fn groups_round_up() {
    assert_eq!(group_count(0, 256), 0);
    assert_eq!(group_count(1, 256), 1);
    assert_eq!(group_count(256, 256), 1);
    assert_eq!(group_count(257, 256), 2);
    assert_eq!(group_count(u32::MAX, 1), u32::MAX);
    assert_eq!(group_count(u32::MAX, u32::MAX), 1);
}

#[test]
fn refusals_say_why() {
    assert_eq!(
        OpsError::ExpandKpoolZero.message(),
        "GLM IndexPool expansion requires kpool > 0"
    );
    assert_eq!(
        OpsError::ExpandWidthOverflow.message(),
        "GLM IndexPool expansion width overflow"
    );
    assert_eq!(
        OpsError::SelectTopkRange.message(),
        "GLM IndexPool selector top-k must be 1..=512"
    );
    assert_eq!(
        OpsError::LayerNormDim.message(),
        "GLM IndexPool LayerNorm dim must be 1..=1024"
    );
    assert_eq!(
        OpsError::SelectedMlaRank.message(),
        "selected MLA reference kernel supports kv_lora <= 512"
    );
    assert_eq!(
        OpsError::WriteRawShape.message(),
        "Condition failed: `tokens > 0 && dim > 0 && block_size > 0`"
    );
    assert!(OpsError::CompressBlockShape.message().contains("block_size.is_multiple_of(kpool)"));
    assert!(OpsError::SelectWeightedShape.message().contains("topk <= 512"));
}
