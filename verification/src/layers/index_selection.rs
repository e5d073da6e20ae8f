//! Which tokens sparse attention reads.
//!
//! The tokens of a sequence form consecutive pools of `index_kpool`; the
//! indexer keeps the best `index_topk / index_kpool` of the complete pools, and
//! the tokens after the last complete pool are read as well when the model
//! always selects its tail.
use vstd::prelude::*;

use crate::config::ModelConfig;

verus! {

/// The selection for one decode position.
#[derive(Clone, Copy, PartialEq, Eq, Debug)]
pub struct IndexSelection {
    /// Tokens up to and with the decode position.
    pub seq_len: u32,
    /// Tokens per pool.
    pub kpool: u32,
    /// Complete pools.
    pub candidates: u32,
    /// Pools that are kept.
    pub select_count: u32,
    /// Tokens after the last complete pool that are read.
    pub tail_count: u32,
}

/// Why there is no selection.
#[derive(Clone, Copy, PartialEq, Eq, Debug)]
pub enum SelectionError {
    PositionMissing,
    KpoolTooLarge,
    TopkTooLarge,
}

impl SelectionError {
    pub open spec fn text(self) -> Seq<char> {
        match self {
            SelectionError::PositionMissing => "GLM IndexPool requires a single-sequence decode position"@,
            SelectionError::KpoolTooLarge => "GLM IndexPool kpool exceeds u32"@,
            SelectionError::TopkTooLarge => "GLM IndexPool top-k exceeds u32"@,
        }
    }

    pub fn message(self) -> (message: String)
        ensures
            message@ == self.text(),
    {
        let text = match self {
            SelectionError::PositionMissing => "GLM IndexPool requires a single-sequence decode position",
            SelectionError::KpoolTooLarge => "GLM IndexPool kpool exceeds u32",
            SelectionError::TopkTooLarge => "GLM IndexPool top-k exceeds u32",
        };
        text.to_owned()
    }
}

pub open spec fn min_u32(a: u32, b: u32) -> u32 {
    if a <= b {
        a
    } else {
        b
    }
}

/// The selection at position `pos`.
pub open spec fn selection(config: ModelConfig, pos: Option<u32>) -> Result<
    IndexSelection,
    SelectionError,
> {
    if pos is None {
        Err(SelectionError::PositionMissing)
    } else if config.index_kpool > u32::MAX {
        Err(SelectionError::KpoolTooLarge)
    } else if config.index_topk / config.index_kpool > u32::MAX {
        Err(SelectionError::TopkTooLarge)
    } else {
        let seq_len = if pos->0 == u32::MAX {
            u32::MAX
        } else {
            (pos->0 + 1) as u32
        };
        let kpool = config.index_kpool as u32;
        Ok(
            IndexSelection {
                seq_len,
                kpool,
                candidates: seq_len / kpool,
                select_count: min_u32(
                    seq_len / kpool,
                    (config.index_topk / config.index_kpool) as u32,
                ),
                tail_count: if config.index_kpool_always_select_tail {
                    seq_len % kpool
                } else {
                    0
                },
            },
        )
    }
}

pub fn select(config: &ModelConfig, pos: Option<u32>) -> (result: Result<
    IndexSelection,
    SelectionError,
>)
    requires
        pos is Some ==> config.index_kpool > 0,
    ensures
        result == selection(*config, pos),
{
    let pos: u32 = match pos {
        Some(pos) => pos,
        None => {
            return Err(SelectionError::PositionMissing);
        },
    };
    let seq_len: u32 = pos.saturating_add(1);
    if config.index_kpool > u32::MAX as usize {
        return Err(SelectionError::KpoolTooLarge);
    }
    let kpool: u32 = config.index_kpool as u32;
    let candidates: u32 = seq_len / kpool;
    let pools: usize = config.index_topk / config.index_kpool;
    if pools > u32::MAX as usize {
        return Err(SelectionError::TopkTooLarge);
    }
    let limit: u32 = pools as u32;
    let select_count: u32 = if candidates <= limit {
        candidates
    } else {
        limit
    };
    let tail_count: u32 = if config.index_kpool_always_select_tail {
        seq_len % kpool
    } else {
        0
    };
    Ok(IndexSelection { seq_len, kpool, candidates, select_count, tail_count })
}

impl IndexSelection {
    /// How many tokens attention reads.
    pub open spec fn selected_tokens(self) -> int {
        self.select_count * self.kpool + self.tail_count
    }
}

/// A selection never reads more tokens than the sequence has, so its width
/// always fits.
pub proof fn law_selection_within_sequence(config: ModelConfig, pos: Option<u32>)
    requires
        config.index_kpool > 0,
        selection(config, pos) is Ok,
    ensures
        selection(config, pos)->Ok_0.selected_tokens() <= selection(config, pos)->Ok_0.seq_len,
{
    let s = selection(config, pos)->Ok_0;
    let seq_len = s.seq_len as int;
    let kpool = s.kpool as int;
    vstd::arithmetic::div_mod::lemma_fundamental_div_mod(seq_len, kpool);
    assert(s.select_count * kpool <= (seq_len / kpool) * kpool) by (nonlinear_arith)
        requires
            s.select_count <= seq_len / kpool,
            kpool > 0,
    ;
    assert(kpool * (seq_len / kpool) == (seq_len / kpool) * kpool) by (nonlinear_arith);
    vstd::arithmetic::div_mod::lemma_mod_bound(seq_len, kpool);
}

/// The kept pools hold at most `index_topk` tokens.
pub proof fn law_selection_within_topk(config: ModelConfig, pos: Option<u32>)
    requires
        config.index_kpool > 0,
        selection(config, pos) is Ok,
    ensures
        selection(config, pos)->Ok_0.select_count * config.index_kpool <= config.index_topk,
{
    let s = selection(config, pos)->Ok_0;
    let topk = config.index_topk as int;
    let kpool = config.index_kpool as int;
    vstd::arithmetic::div_mod::lemma_fundamental_div_mod(topk, kpool);
    assert(s.select_count * kpool <= (topk / kpool) * kpool) by (nonlinear_arith)
        requires
            s.select_count <= topk / kpool,
            kpool > 0,
    ;
    assert(kpool * (topk / kpool) == (topk / kpool) * kpool) by (nonlinear_arith);
    vstd::arithmetic::div_mod::lemma_mod_bound(topk, kpool);
}

/// Once there are enough complete pools, exactly `index_topk` tokens are kept
/// besides the tail, where the pool size divides it.
pub proof fn law_long_sequence_reads_topk(config: ModelConfig, pos: Option<u32>)
    requires
        config.index_kpool > 0,
        config.index_topk % config.index_kpool == 0,
        selection(config, pos) is Ok,
        selection(config, pos)->Ok_0.candidates >= config.index_topk / config.index_kpool,
    ensures
        selection(config, pos)->Ok_0.select_count * config.index_kpool == config.index_topk,
{
    let topk = config.index_topk as int;
    let kpool = config.index_kpool as int;
    vstd::arithmetic::div_mod::lemma_fundamental_div_mod(topk, kpool);
    assert(kpool * (topk / kpool) == (topk / kpool) * kpool) by (nonlinear_arith);
}

/// A sequence of at most `index_topk` tokens is read whole when the tail is
/// always selected.
pub proof fn law_short_sequence_read_whole(config: ModelConfig, pos: Option<u32>)
    requires
        config.index_kpool > 0,
        config.index_kpool_always_select_tail,
        selection(config, pos) is Ok,
        selection(config, pos)->Ok_0.seq_len <= config.index_topk,
    ensures
        selection(config, pos)->Ok_0.selected_tokens() == selection(config, pos)->Ok_0.seq_len,
{
    let s = selection(config, pos)->Ok_0;
    let seq_len = s.seq_len as int;
    let kpool = s.kpool as int;
    vstd::arithmetic::div_mod::lemma_div_is_ordered(seq_len, config.index_topk as int, kpool);
    vstd::arithmetic::div_mod::lemma_fundamental_div_mod(seq_len, kpool);
    assert(kpool * (seq_len / kpool) == (seq_len / kpool) * kpool) by (nonlinear_arith);
}

/// What is selected at a position: the sequence ends with the position, the pools
/// before its end are complete, as many of them are kept as `index_topk` tokens
/// hold, or all of them, and what is left over at the end is read where the tail
/// always is.
pub proof fn law_selection_counts(config: ModelConfig, pos: u32)
    requires
        config.index_kpool > 0,
        selection(config, Some(pos)) is Ok,
    ensures
        ({
            let s = selection(config, Some(pos))->Ok_0;
            let topk = config.index_topk as int;
            &&& pos < u32::MAX ==> s.seq_len == pos + 1
            &&& pos == u32::MAX ==> s.seq_len == u32::MAX
            &&& s.kpool == config.index_kpool
            &&& s.candidates * s.kpool <= s.seq_len < (s.candidates + 1) * s.kpool
            &&& s.select_count <= s.candidates
            &&& s.select_count * s.kpool <= topk
            &&& s.select_count < s.candidates ==> topk < (s.select_count + 1) * s.kpool
            &&& config.index_kpool_always_select_tail ==> s.tail_count == s.seq_len - s.candidates
                * s.kpool
            &&& !config.index_kpool_always_select_tail ==> s.tail_count == 0
        }),
{
    let s = selection(config, Some(pos))->Ok_0;
    let seq_len = s.seq_len as int;
    let kpool = s.kpool as int;
    let topk = config.index_topk as int;
    vstd::arithmetic::div_mod::lemma_fundamental_div_mod(seq_len, kpool);
    vstd::arithmetic::div_mod::lemma_mod_bound(seq_len, kpool);
    vstd::arithmetic::div_mod::lemma_fundamental_div_mod(topk, kpool);
    vstd::arithmetic::div_mod::lemma_mod_bound(topk, kpool);
    let q = seq_len / kpool;
    let t = topk / kpool;
    assert(kpool * q == q * kpool && (q + 1) * kpool == q * kpool + kpool) by (nonlinear_arith);
    assert(kpool * t == t * kpool && (t + 1) * kpool == t * kpool + kpool) by (nonlinear_arith);
    law_selection_within_topk(config, Some(pos));
}

/// There is a selection exactly where there is a position, and where a pool and the
/// number of kept pools can be told to a kernel.
pub proof fn law_selection_exists_iff(config: ModelConfig, pos: Option<u32>)
    requires
        config.index_kpool > 0,
    ensures
        selection(config, pos) is Ok <==> {
            &&& pos is Some
            &&& config.index_kpool <= u32::MAX
            &&& config.index_topk / config.index_kpool <= u32::MAX
        },
{
}

} // verus!
