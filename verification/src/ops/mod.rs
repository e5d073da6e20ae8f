//! Kernel dispatch.
use vstd::prelude::*;

pub mod hyper_connection;
pub mod index_expand;
pub mod index_pool;
pub mod index_select;
pub mod index_select_weighted;
pub mod index_write;
pub mod kda;
pub mod selected_mla;

verus! {

/// Why a dispatch was refused.
#[derive(Clone, Copy, PartialEq, Eq, Debug)]
pub enum OpsError {
    ExpandKpoolZero,
    ExpandWidthOverflow,
    CompressBlockShape,
    SelectTopkRange,
    SelectWeightedShape,
    WriteRawShape,
    LayerNormDim,
    SelectedMlaRank,
}

impl OpsError {
    pub open spec fn text(self) -> Seq<char> {
        match self {
            OpsError::ExpandKpoolZero => "GLM IndexPool expansion requires kpool > 0"@,
            OpsError::ExpandWidthOverflow => "GLM IndexPool expansion width overflow"@,
            OpsError::CompressBlockShape => "Condition failed: `dim > 0 && gate_dim > 0 && kpool > 0 && block_size > 0 && block_size.is_multiple_of(kpool)`"@,
            OpsError::SelectTopkRange => "GLM IndexPool selector top-k must be 1..=512"@,
            OpsError::SelectWeightedShape => "Condition failed: `heads > 0 && dim > 0 && kpool > 0 && topk > 0 && topk <= 512 && block_size > 0`"@,
            OpsError::WriteRawShape => "Condition failed: `tokens > 0 && dim > 0 && block_size > 0`"@,
            OpsError::LayerNormDim => "GLM IndexPool LayerNorm dim must be 1..=1024"@,
            OpsError::SelectedMlaRank => "selected MLA reference kernel supports kv_lora <= 512"@,
        }
    }

    pub fn message(self) -> (message: String)
        ensures
            message@ == self.text(),
    {
        let text = match self {
            OpsError::ExpandKpoolZero => "GLM IndexPool expansion requires kpool > 0",
            OpsError::ExpandWidthOverflow => "GLM IndexPool expansion width overflow",
            OpsError::CompressBlockShape => "Condition failed: `dim > 0 && gate_dim > 0 && kpool > 0 && block_size > 0 && block_size.is_multiple_of(kpool)`",
            OpsError::SelectTopkRange => "GLM IndexPool selector top-k must be 1..=512",
            OpsError::SelectWeightedShape => "Condition failed: `heads > 0 && dim > 0 && kpool > 0 && topk > 0 && topk <= 512 && block_size > 0`",
            OpsError::WriteRawShape => "Condition failed: `tokens > 0 && dim > 0 && block_size > 0`",
            OpsError::LayerNormDim => "GLM IndexPool LayerNorm dim must be 1..=1024",
            OpsError::SelectedMlaRank => "selected MLA reference kernel supports kv_lora <= 512",
        };
        text.to_owned()
    }
}

/// How many groups of `size` cover `count`.
pub open spec fn groups(count: int, size: int) -> int
    recommends
        size > 0,
{
    (count + size - 1) / size
}

pub fn group_count(count: u32, size: u32) -> (n: u32)
    requires
        size > 0,
    ensures
        n == groups(count as int, size as int),
{
    let whole: u32 = count / size;
    let rest: u32 = count % size;
    proof {
        lemma_groups(count as int, size as int);
    }
    if rest > 0 {
        whole + 1
    } else {
        whole
    }
}

proof fn lemma_groups(count: int, size: int)
    requires
        size > 0,
        count >= 0,
    ensures
        count % size > 0 ==> groups(count, size) == count / size + 1 && count / size < count,
        count % size == 0 ==> groups(count, size) == count / size,
{
    let q = count / size;
    let r = count % size;
    vstd::arithmetic::div_mod::lemma_fundamental_div_mod(count, size);
    if r > 0 {
        assert((q + 1) * size == size * q + size) by (nonlinear_arith);
        vstd::arithmetic::div_mod::lemma_fundamental_div_mod_converse(
            count + size - 1,
            size,
            q + 1,
            r - 1,
        );
        assert(q < count) by (nonlinear_arith)
            requires
                count == size * q + r,
                size > 0,
                r > 0,
                q >= 0,
        ;
    } else {
        assert(q * size == size * q) by (nonlinear_arith);
        vstd::arithmetic::div_mod::lemma_fundamental_div_mod_converse(
            count + size - 1,
            size,
            q,
            size - 1,
        );
    }
}

/// The groups cover the count, and the last one is needed.
pub proof fn law_groups_cover(count: int, size: int)
    requires
        size > 0,
        count >= 0,
    ensures
        groups(count, size) * size >= count,
        count > 0 ==> (groups(count, size) - 1) * size < count,
{
    vstd::arithmetic::div_mod::lemma_fundamental_div_mod(count + size - 1, size);
    let g = groups(count, size);
    let r = (count + size - 1) % size;
    assert(g * size == size * g) by (nonlinear_arith);
    assert((g - 1) * size == size * g - size) by (nonlinear_arith);
}

/// There are no more groups than there are things in them.
pub proof fn lemma_groups_fit(count: u32, size: u32)
    requires
        size > 0,
    ensures
        0 <= groups(count as int, size as int) <= count,
{
    lemma_groups(count as int, size as int);
    let whole = count as int / size as int;
    let rest = count as int % size as int;
    vstd::arithmetic::div_mod::lemma_fundamental_div_mod(count as int, size as int);
    assert(size * whole >= whole) by (nonlinear_arith)
        requires
            size >= 1,
            whole >= 0,
    ;
}

} // verus!
