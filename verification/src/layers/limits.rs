//! Whether a step can be recorded: its operands are there, and no size or
//! address that it forms overflows.
use vstd::prelude::*;

use crate::device::{AttnMetadata, CommandBuffer, DevicePtr};
use crate::layers::kda::{Glm5KdaLayer, LayerState};
use crate::layers::mla_decode::{
    DecodeMlaArgs, KvLayerPools, PagedKvCache, Qwen3AttentionLayer,
};
use crate::layers::{ForwardContext, MlaWeights};
use crate::weight_map::Glm5IndexerWeights;

verus! {

/// Whether `a * b * 2` is a size; if it is, the size.
fn doubled_product(a: usize, b: usize) -> (bytes: Option<usize>)
    ensures
        bytes is Some <==> a * b * 2 <= usize::MAX,
        bytes is Some ==> bytes->0 == a * b * 2,
{
    match a.checked_mul(b) {
        Some(product) => product.checked_mul(2),
        None => None,
    }
}

fn reachable(ptr: DevicePtr, bytes: usize) -> (ok: bool)
    ensures
        ok == ptr.reaches(bytes as int),
{
    ptr.bytes.checked_add(bytes as u64).is_some()
}

/// Whether `a * b * 2` is a size that `ptr` reaches.
fn product_reachable(ptr: DevicePtr, a: usize, b: usize) -> (ok: bool)
    ensures
        ok == (a * b * 2 <= usize::MAX && ptr.reaches(a * b * 2)),
{
    match doubled_product(a, b) {
        Some(bytes) => reachable(ptr, bytes),
        None => false,
    }
}

impl Glm5KdaLayer {
    /// Whether [`Glm5KdaLayer::attention_forward`] can be called.
    pub fn attention_in_range(ctx: &ForwardContext) -> (ok: bool)
        ensures
            ok == Self::attention_fits(*ctx),
    {
        let heads: u32 = ctx.config.linear_num_key_heads as u32;
        let head_dim: u32 = ctx.config.linear_key_head_dim as u32;
        let width: u32 = match heads.checked_mul(head_dim) {
            Some(width) => width,
            None => {
                return false;
            },
        };
        if (width as usize).checked_mul(3).is_none() {
            return false;
        }
        ctx.buffers.ssm_qkvz.bytes.checked_add(width as u64 * 6).is_some()
    }

    /// Whether [`Glm5KdaLayer::forward_one_hc_row`] can be called.
    pub fn row_in_range(&self, ctx: &ForwardContext, row: usize) -> (ok: bool)
        ensures
            ok == self.row_fits(*ctx, row as int),
    {
        let hidden_size: u32 = ctx.config.hidden_size as u32;
        let hc_mult: u32 = self.hc.hc_mult as u32;
        let row_bytes: usize = match doubled_product(hc_mult as usize, hidden_size as usize) {
            Some(row_bytes) => row_bytes,
            None => {
                return false;
            },
        };
        let offset: usize = match row.checked_mul(row_bytes) {
            Some(offset) => offset,
            None => {
                return false;
            },
        };
        reachable(ctx.buffers.hc_streams, offset) && reachable(ctx.buffers.hc_post, offset)
            && reachable(ctx.buffers.hc_comb, offset) && Self::attention_in_range(ctx)
            && self.layer_idx < usize::MAX
    }

    fn batch_row_in_range(
        &self,
        hidden: DevicePtr,
        ctx: &ForwardContext,
        row: usize,
        hidden_bytes: usize,
    ) -> (ok: bool)
        requires
            hidden_bytes == Self::hidden_bytes(*ctx),
        ensures
            ok == self.batch_row_fits(hidden, *ctx, row as int),
    {
        match row.checked_mul(hidden_bytes) {
            Some(offset) => reachable(hidden, offset) && self.row_in_range(ctx, row),
            None => false,
        }
    }

    /// Whether [`Glm5KdaLayer::prefill`] can be called with its own state.
    pub fn batch_in_range(&self, hidden: DevicePtr, ctx: &ForwardContext, rows: usize) -> (ok: bool)
        ensures
            ok == self.batch_fits(hidden, *ctx, rows as int),
    {
        let hidden_bytes: usize = match ctx.config.hidden_size.checked_mul(2) {
            Some(hidden_bytes) => hidden_bytes,
            None => {
                return false;
            },
        };
        let mut row: usize = 0;
        while row < rows
            invariant
                row <= rows,
                hidden_bytes == Self::hidden_bytes(*ctx),
                forall|j: int|
                    0 <= j < row ==> #[trigger] self.batch_row_fits(hidden, *ctx, j),
            decreases rows - row,
        {
            if !self.batch_row_in_range(hidden, ctx, row, hidden_bytes) {
                assert(!self.batch_row_fits(hidden, *ctx, row as int));
                return false;
            }
            row = row + 1;
        }
        true
    }

    /// Whether [`Glm5KdaLayer::decode_multi_seq`] can be called with as many
    /// states as sequences.
    pub fn states_in_range(
        &self,
        hidden: DevicePtr,
        states: &Vec<LayerState>,
        ctx: &ForwardContext,
        rows: usize,
    ) -> (ok: bool)
        requires
            rows <= states@.len(),
        ensures
            ok == self.states_fit(hidden, states@, *ctx, rows as int),
    {
        let hidden_bytes: usize = match ctx.config.hidden_size.checked_mul(2) {
            Some(hidden_bytes) => hidden_bytes,
            None => {
                return false;
            },
        };
        let mut row: usize = 0;
        while row < rows
            invariant
                row <= rows <= states@.len(),
                hidden_bytes == Self::hidden_bytes(*ctx),
                forall|j: int| 0 <= j < row ==> states@[j] is Ssm,
                forall|j: int|
                    0 <= j < row ==> #[trigger] self.batch_row_fits(hidden, *ctx, j),
            decreases rows - row,
        {
            match states[row] {
                LayerState::Ssm(_) => {},
                LayerState::Other => {
                    assert(!(states@[row as int] is Ssm));
                    return true;
                },
            }
            if !self.batch_row_in_range(hidden, ctx, row, hidden_bytes) {
                assert(!self.batch_row_fits(hidden, *ctx, row as int));
                return false;
            }
            row = row + 1;
        }
        true
    }
}

impl Qwen3AttentionLayer {
    fn absorb_head_in_range(
        &self,
        mla: &MlaWeights,
        cache_dim: u32,
        ctx: &ForwardContext,
        args: &DecodeMlaArgs,
        head: u32,
    ) -> (ok: bool)
        requires
            self.mla == Some(*mla),
            cache_dim == self.cache_dim(),
        ensures
            ok == self.absorb_head_fits(*ctx, *args, head as int),
    {
        let head: usize = head as usize;
        let rows: usize = match head.checked_mul(mla.nope) {
            Some(rows) => rows,
            None => {
                return false;
            },
        };
        product_reachable(ctx.buffers.ssm_deinterleaved, head, args.hd as usize)
            && product_reachable(ctx.buffers.expert_up_out, head, cache_dim as usize)
            && product_reachable(mla.w_uk_t.weight, rows, mla.kv_lora_rank)
    }

    fn absorb_in_range(
        &self,
        mla: &MlaWeights,
        cache_dim: u32,
        ctx: &ForwardContext,
        args: &DecodeMlaArgs,
    ) -> (ok: bool)
        requires
            self.mla == Some(*mla),
            cache_dim == self.cache_dim(),
        ensures
            ok == self.absorb_fits(*ctx, *args),
    {
        if self.mla_batched_gemv_k.is_present() {
            return true;
        }
        let mut head: u32 = 0;
        while head < args.nq
            invariant
                head <= args.nq,
                self.mla == Some(*mla),
                cache_dim == self.cache_dim(),
                !self.mla_batched_gemv_k.present(),
                forall|j: int|
                    0 <= j < head ==> #[trigger] self.absorb_head_fits(*ctx, *args, j),
            decreases args.nq - head,
        {
            if !self.absorb_head_in_range(mla, cache_dim, ctx, args, head) {
                assert(!self.absorb_head_fits(*ctx, *args, head as int));
                return false;
            }
            head = head + 1;
        }
        true
    }

    /// Whether the rotary part of a head in the absorbed query can be reached.
    fn rope_offset_in_range(
        &self,
        mla: &MlaWeights,
        cache_dim: u32,
        ctx: &ForwardContext,
        head: usize,
    ) -> (ok: bool)
        requires
            self.mla == Some(*mla),
            cache_dim == self.cache_dim(),
        ensures
            ok == (self.absorbed_rope_offset(head as int) <= usize::MAX
                && ctx.buffers.expert_up_out.reaches(self.absorbed_rope_offset(head as int))),
    {
        let start: usize = match head.checked_mul(cache_dim as usize) {
            Some(start) => start,
            None => {
                return false;
            },
        };
        match start.checked_add(mla.kv_lora_rank) {
            Some(elements) => match elements.checked_mul(2) {
                Some(bytes) => reachable(ctx.buffers.expert_up_out, bytes),
                None => false,
            },
            None => false,
        }
    }

    fn writeback_head_in_range(
        &self,
        mla: &MlaWeights,
        cache_dim: u32,
        ctx: &ForwardContext,
        head: u32,
    ) -> (ok: bool)
        requires
            self.mla == Some(*mla),
            cache_dim == self.cache_dim(),
        ensures
            ok == self.writeback_head_fits(*ctx, head as int),
    {
        let head: usize = head as usize;
        mla.rope.checked_mul(2).is_some() && product_reachable(
            ctx.buffers.ssm_conv_out_f32,
            head,
            mla.rope,
        ) && self.rope_offset_in_range(mla, cache_dim, ctx, head)
    }

    fn scatter_head_in_range(
        &self,
        mla: &MlaWeights,
        cache_dim: u32,
        ctx: &ForwardContext,
        args: &DecodeMlaArgs,
        head: u32,
    ) -> (ok: bool)
        requires
            self.mla == Some(*mla),
            cache_dim == self.cache_dim(),
        ensures
            ok == self.scatter_head_fits(*ctx, *args, head as int),
    {
        let start: usize = match (head as usize).checked_mul(args.hd as usize) {
            Some(start) => start,
            None => {
                return false;
            },
        };
        let bytes: usize = match start.checked_add(mla.nope) {
            Some(elements) => match elements.checked_mul(2) {
                Some(bytes) => bytes,
                None => {
                    return false;
                },
            },
            None => {
                return false;
            },
        };
        reachable(ctx.buffers.ssm_deinterleaved, bytes) && self.writeback_head_in_range(
            mla,
            cache_dim,
            ctx,
            head,
        )
    }

    fn scatter_in_range(
        &self,
        mla: &MlaWeights,
        cache_dim: u32,
        ctx: &ForwardContext,
        args: &DecodeMlaArgs,
    ) -> (ok: bool)
        requires
            self.mla == Some(*mla),
            cache_dim == self.cache_dim(),
        ensures
            ok == self.scatter_fits(*ctx, *args),
    {
        if self.mla_q_rope_scatter_k.is_present() {
            return true;
        }
        let mut head: u32 = 0;
        while head < args.nq
            invariant
                head <= args.nq,
                self.mla == Some(*mla),
                cache_dim == self.cache_dim(),
                !self.mla_q_rope_scatter_k.present(),
                forall|j: int|
                    0 <= j < head ==> #[trigger] self.scatter_head_fits(*ctx, *args, j),
            decreases args.nq - head,
        {
            if !self.scatter_head_in_range(mla, cache_dim, ctx, args, head) {
                assert(!self.scatter_head_fits(*ctx, *args, head as int));
                return false;
            }
            head = head + 1;
        }
        true
    }

    fn rope_in_range(
        &self,
        mla: &MlaWeights,
        cache_dim: u32,
        ctx: &ForwardContext,
        args: &DecodeMlaArgs,
    ) -> (ok: bool)
        requires
            self.mla == Some(*mla),
            cache_dim == self.cache_dim(),
        ensures
            ok == self.rope_fits(*ctx, *args),
    {
        if mla.rope as u32 == 0 || self.mla_q_rope_writeback_k.is_present() {
            return true;
        }
        let mut head: u32 = 0;
        while head < args.nq
            invariant
                head <= args.nq,
                self.mla == Some(*mla),
                cache_dim == self.cache_dim(),
                self.rope() > 0,
                !self.mla_q_rope_writeback_k.present(),
                forall|j: int| 0 <= j < head ==> #[trigger] self.writeback_head_fits(*ctx, j),
            decreases args.nq - head,
        {
            if !self.writeback_head_in_range(mla, cache_dim, ctx, head) {
                assert(!self.writeback_head_fits(*ctx, head as int));
                return false;
            }
            head = head + 1;
        }
        true
    }

    fn extract_head_in_range(
        &self,
        mla: &MlaWeights,
        cache_dim: u32,
        ctx: &ForwardContext,
        head: u32,
    ) -> (ok: bool)
        requires
            self.mla == Some(*mla),
            cache_dim == self.cache_dim(),
        ensures
            ok == self.extract_head_fits(*ctx, head as int),
    {
        let head: usize = head as usize;
        let rows: usize = match head.checked_mul(mla.v_dim) {
            Some(rows) => rows,
            None => {
                return false;
            },
        };
        product_reachable(ctx.buffers.attn_output, head, cache_dim as usize) && product_reachable(
            ctx.buffers.norm_output,
            head,
            mla.v_dim,
        ) && product_reachable(mla.w_uv.weight, rows, mla.kv_lora_rank)
    }

    fn output_in_range(
        &self,
        mla: &MlaWeights,
        cache_dim: u32,
        ctx: &ForwardContext,
        args: &DecodeMlaArgs,
    ) -> (ok: bool)
        requires
            self.mla == Some(*mla),
            cache_dim == self.cache_dim(),
        ensures
            ok == self.output_fits(*ctx, *args),
    {
        if args.nq.checked_mul(mla.v_dim as u32).is_none() {
            return false;
        }
        if self.mla_batched_gemv_k.is_present() {
            return true;
        }
        let mut head: u32 = 0;
        while head < args.nq
            invariant
                head <= args.nq,
                self.mla == Some(*mla),
                cache_dim == self.cache_dim(),
                args.nq * self.v_dim() <= u32::MAX,
                !self.mla_batched_gemv_k.present(),
                forall|j: int| 0 <= j < head ==> #[trigger] self.extract_head_fits(*ctx, j),
            decreases args.nq - head,
        {
            if !self.extract_head_in_range(mla, cache_dim, ctx, head) {
                assert(!self.extract_head_fits(*ctx, head as int));
                return false;
            }
            head = head + 1;
        }
        true
    }

    fn cache_in_range(&self, mla: &MlaWeights, args: &DecodeMlaArgs) -> (ok: bool)
        requires
            self.mla == Some(*mla),
        ensures
            ok == self.cache_fits(*args),
    {
        if self.mla_cache_assemble_k.is_present() {
            return true;
        }
        match mla.kv_lora_rank.checked_mul(2) {
            Some(bytes) => mla.rope.checked_mul(2).is_some() && reachable(args.k_out, bytes)
                && reachable(args.v_out, bytes),
            None => false,
        }
    }

    fn index_in_range(
        &self,
        ctx: &ForwardContext,
        args: &DecodeMlaArgs,
        kv: &KvLayerPools,
    ) -> (ok: bool)
        ensures
            ok == (self.index_query_fits(*ctx) && self.index_cache_fits(*ctx, *args, *kv)),
    {
        if !product_reachable(
            ctx.buffers.ssm_deinterleaved,
            ctx.config.index_n_heads,
            ctx.config.index_head_dim,
        ) {
            return false;
        }
        let dim: u32 = ctx.config.index_head_dim as u32;
        if kv.index_raw_pool.is_none() || kv.index_raw_block_stride.is_none() || dim == 0 || dim
            > 1024 {
            return true;
        }
        match ctx.config.index_head_dim.checked_mul(2) {
            Some(bytes) => reachable(args.q_out, bytes),
            None => false,
        }
    }

    /// Whether [`Qwen3AttentionLayer::attention_forward_mla`] can be called.
    pub fn decode_in_range(
        &self,
        kv_cache: &PagedKvCache,
        ctx: &ForwardContext,
        args: &DecodeMlaArgs,
        sparse_attention: bool,
    ) -> (ok: bool)
        ensures
            ok == self.step_fits(*ctx, *args, *kv_cache, sparse_attention),
    {
        if self.attn_layer_idx >= kv_cache.layers.len() {
            return false;
        }
        let kv = &kv_cache.layers[self.attn_layer_idx];
        let mla: MlaWeights = match self.mla {
            Some(mla) => mla,
            None => {
                return false;
            },
        };
        let meta: AttnMetadata = match ctx.attn_metadata {
            Some(meta) => meta,
            None => {
                return false;
            },
        };
        let cache_dim: u32 = match (mla.kv_lora_rank as u32).checked_add(mla.rope as u32) {
            Some(cache_dim) => cache_dim,
            None => {
                return false;
            },
        };
        if !(self.absorb_in_range(&mla, cache_dim, ctx, args) && self.scatter_in_range(
            &mla,
            cache_dim,
            ctx,
            args,
        ) && self.rope_in_range(&mla, cache_dim, ctx, args) && self.cache_in_range(&mla, args)) {
            return false;
        }
        let indexer: Option<Glm5IndexerWeights> = if sparse_attention {
            mla.glm_indexer
        } else {
            None
        };
        let attends: bool = match indexer {
            None => {
                if args.nq.checked_mul(cache_dim).is_none() {
                    return false;
                }
                true
            },
            Some(indexer) => {
                if !self.index_in_range(ctx, args, kv) {
                    return false;
                }
                // What the step refuses later, it refuses on a buffer of its
                // own as well.
                let mut scratch = CommandBuffer::new(0, 0);
                if self.index_cache(&mut scratch, ctx, args, &meta, kv, &indexer).is_err() {
                    false
                } else if args.pos.is_some() && ctx.config.index_kpool == 0 {
                    return false;
                } else {
                    self.sparse_attention(&mut scratch, ctx, args, &meta, kv, &indexer).is_ok()
                }
            },
        };
        !attends || self.output_in_range(&mla, cache_dim, ctx, args)
    }
}

} // verus!
