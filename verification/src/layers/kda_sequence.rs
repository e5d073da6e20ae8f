//! Driving a Kimi Delta Attention block over tokens and sequences.
use vstd::prelude::*;

use crate::device::{
    call, chain, done, follows, lemma_extends_twice, result_ptr, CommandBuffer, CommandView,
    DeviceCall, DevicePtr, Trace,
};
use crate::layers::kda::{Glm5KdaLayer, KdaError, LayerState, SsmLayerState};
use crate::layers::kda_values::{is_clear, law_fresh_state_is_clear};
use crate::layers::ForwardContext;

verus! {

impl Glm5KdaLayer {
    /// The bytes of one hidden state.
    pub open spec fn hidden_bytes(ctx: ForwardContext) -> int {
        ctx.config.hidden_size * 2
    }

    /// Row `row` of a batch of hidden states can be processed.
    pub open spec fn batch_row_fits(
        self,
        hidden: DevicePtr,
        ctx: ForwardContext,
        row: int,
    ) -> bool {
        &&& row * Self::hidden_bytes(ctx) <= usize::MAX
        &&& hidden.reaches(row * Self::hidden_bytes(ctx))
        &&& self.row_fits(ctx, row)
    }

    pub open spec fn batch_fits(self, hidden: DevicePtr, ctx: ForwardContext, rows: int) -> bool {
        &&& Self::hidden_bytes(ctx) <= usize::MAX
        &&& forall|row: int| 0 <= row < rows ==> #[trigger] self.batch_row_fits(hidden, ctx, row)
    }

    /// Every row that is reached can be processed: the rows up to the first
    /// sequence whose state is of another kind.
    pub open spec fn states_fit(
        self,
        hidden: DevicePtr,
        states: Seq<LayerState>,
        ctx: ForwardContext,
        rows: int,
    ) -> bool {
        &&& Self::hidden_bytes(ctx) <= usize::MAX
        &&& forall|row: int|
            0 <= row < rows && (forall|j: int| 0 <= j <= row ==> states[j] is Ssm)
                ==> #[trigger] self.batch_row_fits(hidden, ctx, row)
    }

    /// Row `row` of a batch, after `at` commands of buffer `id`.
    pub open spec fn batch_row_trace(
        self,
        hidden: DevicePtr,
        state: LayerState,
        ctx: ForwardContext,
        stream: u64,
        row: int,
        id: u64,
        at: nat,
    ) -> Trace<(), KdaError> {
        match state {
            LayerState::Ssm(state) => done(
                self.row_steps(
                    hidden.plus(row * Self::hidden_bytes(ctx)),
                    state,
                    ctx,
                    stream,
                    row,
                    id,
                    at,
                ),
            ),
            LayerState::Other => Trace {
                steps: Seq::empty(),
                outcome: Err(KdaError::NotSsmState),
            },
        }
    }

    /// The first `count` tokens of a prompt, one after another on one state.
    pub open spec fn prefill_trace(
        self,
        hidden: DevicePtr,
        state: LayerState,
        ctx: ForwardContext,
        stream: u64,
        count: nat,
        id: u64,
        at: nat,
    ) -> Trace<(), KdaError>
        decreases count,
    {
        if state is Other {
            Trace { steps: Seq::empty(), outcome: Err(KdaError::NotSsmState) }
        } else if count == 0 {
            done(Seq::empty())
        } else {
            let before = self.prefill_trace(hidden, state, ctx, stream, (count - 1) as nat, id, at);
            chain(
                before,
                self.batch_row_trace(
                    hidden,
                    state,
                    ctx,
                    stream,
                    count - 1,
                    id,
                    at + before.steps.len(),
                ),
            )
        }
    }

    /// One token of each of the first `count` sequences, each on its own state.
    pub open spec fn multi_seq_trace(
        self,
        hidden: DevicePtr,
        states: Seq<LayerState>,
        ctx: ForwardContext,
        stream: u64,
        count: nat,
        id: u64,
        at: nat,
    ) -> Trace<(), KdaError>
        decreases count,
    {
        if count == 0 {
            done(Seq::empty())
        } else {
            let before = self.multi_seq_trace(
                hidden,
                states,
                ctx,
                stream,
                (count - 1) as nat,
                id,
                at,
            );
            chain(
                before,
                self.batch_row_trace(
                    hidden,
                    states[count - 1],
                    ctx,
                    stream,
                    count - 1,
                    id,
                    at + before.steps.len(),
                ),
            )
        }
    }

    /// Decode one token of one sequence.
    pub open spec fn decode_trace(
        self,
        hidden: DevicePtr,
        state: LayerState,
        ctx: ForwardContext,
        stream: u64,
        id: u64,
        at: nat,
    ) -> Trace<(), KdaError> {
        match state {
            LayerState::Ssm(state) => done(self.row_steps(hidden, state, ctx, stream, 0, id, at)),
            LayerState::Other => Trace {
                steps: Seq::empty(),
                outcome: Err(KdaError::NotSsmState),
            },
        }
    }

    /// Run one row in place.
    pub fn forward_one_hc(
        &self,
        gpu: &mut CommandBuffer,
        hidden: DevicePtr,
        state: &SsmLayerState,
        ctx: &ForwardContext,
        stream: u64,
    )
        requires
            self.row_fits(*ctx, 0),
        ensures
            final(gpu).extends(
                *old(gpu),
                self.row_steps(hidden, *state, *ctx, stream, 0, old(gpu).id(), old(gpu)@.len()),
            ),
    {
        self.forward_one_hc_row(gpu, hidden, state, ctx, stream, 0);
    }

    pub fn decode(
        &self,
        gpu: &mut CommandBuffer,
        hidden: DevicePtr,
        state: &LayerState,
        ctx: &ForwardContext,
        stream: u64,
    ) -> (result: Result<(), KdaError>)
        requires
            state is Ssm ==> self.row_fits(*ctx, 0),
        ensures
            follows(
                *final(gpu),
                *old(gpu),
                result,
                self.decode_trace(hidden, *state, *ctx, stream, old(gpu).id(), old(gpu)@.len()),
            ),
    {
        match state {
            LayerState::Ssm(state) => {
                self.forward_one_hc(gpu, hidden, state, ctx, stream);
                Ok(())
            },
            LayerState::Other => {
                assert(gpu@ =~= gpu@ + Seq::<CommandView>::empty());
                Err(KdaError::NotSsmState)
            },
        }
    }

    fn batch_row(
        &self,
        gpu: &mut CommandBuffer,
        hidden: DevicePtr,
        state: &LayerState,
        ctx: &ForwardContext,
        stream: u64,
        row: usize,
    ) -> (result: Result<(), KdaError>)
        requires
            Self::hidden_bytes(*ctx) <= usize::MAX,
            state is Ssm ==> self.batch_row_fits(hidden, *ctx, row as int),
        ensures
            follows(
                *final(gpu),
                *old(gpu),
                result,
                self.batch_row_trace(
                    hidden,
                    *state,
                    *ctx,
                    stream,
                    row as int,
                    old(gpu).id(),
                    old(gpu)@.len(),
                ),
            ),
    {
        match state {
            LayerState::Ssm(state) => {
                let row_bytes: usize = ctx.config.hidden_size * 2;
                let row_hidden = hidden.offset(row * row_bytes);
                self.forward_one_hc_row(gpu, row_hidden, state, ctx, stream, row);
                Ok(())
            },
            LayerState::Other => {
                assert(gpu@ =~= gpu@ + Seq::<CommandView>::empty());
                Err(KdaError::NotSsmState)
            },
        }
    }

    pub fn prefill(
        &self,
        gpu: &mut CommandBuffer,
        hidden: DevicePtr,
        num_tokens: usize,
        state: &LayerState,
        ctx: &ForwardContext,
        stream: u64,
    ) -> (result: Result<(), KdaError>)
        requires
            state is Ssm ==> self.batch_fits(hidden, *ctx, num_tokens as int),
        ensures
            follows(
                *final(gpu),
                *old(gpu),
                result,
                self.prefill_trace(
                    hidden,
                    *state,
                    *ctx,
                    stream,
                    num_tokens as nat,
                    old(gpu).id(),
                    old(gpu)@.len(),
                ),
            ),
    {
        let ghost start = *gpu;
        assert(gpu@ =~= start@ + Seq::<CommandView>::empty());
        match state {
            LayerState::Ssm(_) => {},
            LayerState::Other => {
                return Err(KdaError::NotSsmState);
            },
        }
        let mut token: usize = 0;
        while token < num_tokens
            invariant
                token <= num_tokens,
                state is Ssm,
                self.batch_fits(hidden, *ctx, num_tokens as int),
                follows(
                    *gpu,
                    start,
                    Ok(()),
                    self.prefill_trace(
                        hidden,
                        *state,
                        *ctx,
                        stream,
                        token as nat,
                        start.id(),
                        start@.len(),
                    ),
                ),
            decreases num_tokens - token,
        {
            assert(self.batch_row_fits(hidden, *ctx, token as int));
            let ghost middle = *gpu;
            let ghost before = self.prefill_trace(
                hidden,
                *state,
                *ctx,
                stream,
                token as nat,
                start.id(),
                start@.len(),
            );
            let ghost row = self.batch_row_trace(
                hidden,
                *state,
                *ctx,
                stream,
                token as int,
                start.id(),
                middle@.len(),
            );
            let result = self.batch_row(gpu, hidden, state, ctx, stream, token);
            proof {
                lemma_extends_twice(start, middle, *gpu, before.steps, row.steps);
            }
            result?;
            token = token + 1;
        }
        Ok(())
    }

    pub fn decode_multi_seq(
        &self,
        gpu: &mut CommandBuffer,
        hidden: DevicePtr,
        num_seqs: usize,
        states: &Vec<LayerState>,
        ctx: &ForwardContext,
        stream: u64,
    ) -> (result: Result<(), KdaError>)
        requires
            states@.len() >= num_seqs ==> self.states_fit(hidden, states@, *ctx, num_seqs as int),
        ensures
            follows(
                *final(gpu),
                *old(gpu),
                result,
                if states@.len() < num_seqs {
                    Trace { steps: Seq::empty(), outcome: Err(KdaError::TooFewStates) }
                } else {
                    self.multi_seq_trace(
                        hidden,
                        states@,
                        *ctx,
                        stream,
                        num_seqs as nat,
                        old(gpu).id(),
                        old(gpu)@.len(),
                    )
                },
            ),
    {
        let ghost start = *gpu;
        assert(gpu@ =~= start@ + Seq::<CommandView>::empty());
        if states.len() < num_seqs {
            return Err(KdaError::TooFewStates);
        }
        let mut row: usize = 0;
        while row < num_seqs
            invariant
                row <= num_seqs <= states@.len(),
                start == *old(gpu),
                self.states_fit(hidden, states@, *ctx, num_seqs as int),
                forall|j: int| 0 <= j < row ==> states@[j] is Ssm,
                follows(
                    *gpu,
                    start,
                    Ok(()),
                    self.multi_seq_trace(
                        hidden,
                        states@,
                        *ctx,
                        stream,
                        row as nat,
                        start.id(),
                        start@.len(),
                    ),
                ),
            decreases num_seqs - row,
        {
            assert(states@[row as int] is Ssm ==> self.batch_row_fits(hidden, *ctx, row as int));
            let ghost middle = *gpu;
            let ghost before = self.multi_seq_trace(
                hidden,
                states@,
                *ctx,
                stream,
                row as nat,
                start.id(),
                start@.len(),
            );
            let ghost one = self.batch_row_trace(
                hidden,
                states@[row as int],
                *ctx,
                stream,
                row as int,
                start.id(),
                middle@.len(),
            );
            let ghost next = self.multi_seq_trace(
                hidden,
                states@,
                *ctx,
                stream,
                (row + 1) as nat,
                start.id(),
                start@.len(),
            );
            let result = self.batch_row(gpu, hidden, &states[row], ctx, stream, row);
            proof {
                lemma_extends_twice(start, middle, *gpu, before.steps, one.steps);
                assert(next == chain(before, one));
            }
            match result {
                Ok(()) => {},
                Err(error) => {
                    proof {
                        self.lemma_multi_seq_stops(
                            hidden,
                            states@,
                            *ctx,
                            stream,
                            (row + 1) as nat,
                            num_seqs as nat,
                            start.id(),
                            start@.len(),
                        );
                    }
                    return Err(error);
                },
            }
            row = row + 1;
        }
        Ok(())
    }

    /// Once a sequence has failed, later ones add nothing.
    proof fn lemma_multi_seq_stops(
        self,
        hidden: DevicePtr,
        states: Seq<LayerState>,
        ctx: ForwardContext,
        stream: u64,
        count: nat,
        total: nat,
        id: u64,
        at: nat,
    )
        requires
            count <= total,
            self.multi_seq_trace(hidden, states, ctx, stream, count, id, at).outcome is Err,
        ensures
            self.multi_seq_trace(hidden, states, ctx, stream, total, id, at)
                == self.multi_seq_trace(hidden, states, ctx, stream, count, id, at),
        decreases total,
    {
        if count < total {
            self.lemma_multi_seq_stops(
                hidden,
                states,
                ctx,
                stream,
                count,
                (total - 1) as nat,
                id,
                at,
            );
        }
    }

    pub fn is_ssm_layer(&self) -> (ssm: bool)
        ensures
            ssm,
    {
        true
    }

    /// Fresh, zeroed state, allocated after `at` commands of buffer `id`.
    pub open spec fn state_steps(self, id: u64, at: nat) -> Seq<CommandView> {
        seq![
            call(DeviceCall::Alloc { bytes: self.h_state_bytes }),
            call(
                DeviceCall::Memset {
                    dst: result_ptr(id, at),
                    value: 0,
                    bytes: self.h_state_bytes,
                },
            ),
            call(DeviceCall::Alloc { bytes: self.conv_state_bytes }),
            call(
                DeviceCall::Memset {
                    dst: result_ptr(id, at + 2),
                    value: 0,
                    bytes: self.conv_state_bytes,
                },
            ),
        ]
    }

    pub fn alloc_state(&self, gpu: &mut CommandBuffer) -> (state: SsmLayerState)
        ensures
            final(gpu).extends(*old(gpu), self.state_steps(old(gpu).id(), old(gpu)@.len())),
            state.h_state == result_ptr(old(gpu).id(), old(gpu)@.len()),
            state.conv_state == result_ptr(old(gpu).id(), old(gpu)@.len() + 2),
            old(gpu)@.len() + 4 <= usize::MAX ==> {
                let steps = final(gpu)@.skip(old(gpu)@.len() as int);
                let id = old(gpu).id();
                let at = old(gpu)@.len();
                &&& is_clear(steps, id, at, state.h_state, self.h_state_bytes)
                &&& is_clear(steps, id, at, state.conv_state, self.conv_state_bytes)
            },
            state.h_state_checkpoint is None,
            state.conv_state_checkpoint is None,
            state.h_state_intermediates@.len() == 0,
            state.conv_state_intermediates@.len() == 0,
            !state.h_is_f16,
            state.h_prefill_stage is None,
    {
        let ghost start = *gpu;
        let h_state = gpu.call_for_ptr(DeviceCall::Alloc { bytes: self.h_state_bytes });
        gpu.call(DeviceCall::Memset { dst: h_state, value: 0, bytes: self.h_state_bytes });
        let conv_state = gpu.call_for_ptr(DeviceCall::Alloc { bytes: self.conv_state_bytes });
        gpu.call(DeviceCall::Memset { dst: conv_state, value: 0, bytes: self.conv_state_bytes });
        assert(gpu@ =~= start@ + self.state_steps(start.id(), start@.len()));
        proof {
            let steps = self.state_steps(start.id(), start@.len());
            assert(gpu@.skip(start@.len() as int) =~= steps);
            if start@.len() + 4 <= usize::MAX {
                law_fresh_state_is_clear(*self, start.id(), start@.len());
            }
        }
        SsmLayerState {
            h_state,
            conv_state,
            h_state_checkpoint: None,
            conv_state_checkpoint: None,
            h_state_intermediates: Vec::new(),
            conv_state_intermediates: Vec::new(),
            h_is_f16: false,
            h_prefill_stage: None,
        }
    }
}

/// Prefilling a prompt of one token is decoding it.
pub proof fn law_prefill_one_is_decode(
    layer: Glm5KdaLayer,
    hidden: DevicePtr,
    state: LayerState,
    ctx: ForwardContext,
    stream: u64,
    id: u64,
    at: nat,
)
    ensures
        layer.prefill_trace(hidden, state, ctx, stream, 1, id, at) == layer.decode_trace(
            hidden,
            state,
            ctx,
            stream,
            id,
            at,
        ),
{
    reveal_with_fuel(Glm5KdaLayer::prefill_trace, 2);
    assert(0 * Glm5KdaLayer::hidden_bytes(ctx) == 0);
    assert(hidden.plus(0) == hidden);
    let one = layer.decode_trace(hidden, state, ctx, stream, id, at);
    assert(Seq::<CommandView>::empty() + one.steps =~= one.steps);
    assert(layer.prefill_trace(hidden, state, ctx, stream, 0, id, at).steps.len() == 0);
}

/// A batch of one sequence is that sequence decoded alone.
pub proof fn law_batch_of_one_is_decode(
    layer: Glm5KdaLayer,
    hidden: DevicePtr,
    state: LayerState,
    ctx: ForwardContext,
    stream: u64,
    id: u64,
    at: nat,
)
    ensures
        layer.multi_seq_trace(hidden, seq![state], ctx, stream, 1, id, at) == layer.decode_trace(
            hidden,
            state,
            ctx,
            stream,
            id,
            at,
        ),
{
    reveal_with_fuel(Glm5KdaLayer::multi_seq_trace, 2);
    assert(0 * Glm5KdaLayer::hidden_bytes(ctx) == 0);
    assert(hidden.plus(0) == hidden);
    let one = layer.decode_trace(hidden, state, ctx, stream, id, at);
    assert(Seq::<CommandView>::empty() + one.steps =~= one.steps);
}

/// A prompt is the prompt without its last token, and then that token.
pub proof fn law_prefill_appends(
    layer: Glm5KdaLayer,
    hidden: DevicePtr,
    state: LayerState,
    ctx: ForwardContext,
    stream: u64,
    count: nat,
    id: u64,
    at: nat,
)
    requires
        state is Ssm,
    ensures
        layer.prefill_trace(hidden, state, ctx, stream, count + 1, id, at).outcome is Ok,
        layer.prefill_trace(hidden, state, ctx, stream, count + 1, id, at).steps
            == layer.prefill_trace(hidden, state, ctx, stream, count, id, at).steps
            + layer.row_steps(
            hidden.plus(count * Glm5KdaLayer::hidden_bytes(ctx)),
            state->Ssm_0,
            ctx,
            stream,
            count as int,
            id,
            at + layer.prefill_trace(hidden, state, ctx, stream, count, id, at).steps.len(),
        ),
    decreases count,
{
    if count > 0 {
        law_prefill_appends(layer, hidden, state, ctx, stream, (count - 1) as nat, id, at);
    }
}

/// A batch is the batch without its last sequence, and then that sequence.
pub proof fn law_batch_appends(
    layer: Glm5KdaLayer,
    hidden: DevicePtr,
    states: Seq<LayerState>,
    ctx: ForwardContext,
    stream: u64,
    count: nat,
    id: u64,
    at: nat,
)
    requires
        forall|j: int| 0 <= j <= count ==> states[j] is Ssm,
    ensures
        layer.multi_seq_trace(hidden, states, ctx, stream, count + 1, id, at).outcome is Ok,
        layer.multi_seq_trace(hidden, states, ctx, stream, count + 1, id, at).steps
            == layer.multi_seq_trace(hidden, states, ctx, stream, count, id, at).steps
            + layer.row_steps(
            hidden.plus(count * Glm5KdaLayer::hidden_bytes(ctx)),
            states[count as int]->Ssm_0,
            ctx,
            stream,
            count as int,
            id,
            at + layer.multi_seq_trace(hidden, states, ctx, stream, count, id, at).steps.len(),
        ),
    decreases count,
{
    if count > 0 {
        law_batch_appends(layer, hidden, states, ctx, stream, (count - 1) as nat, id, at);
    }
}

/// The state of another kind of layer is refused, and nothing is recorded.
pub proof fn law_other_state_refused(
    layer: Glm5KdaLayer,
    hidden: DevicePtr,
    ctx: ForwardContext,
    stream: u64,
    count: nat,
    id: u64,
    at: nat,
)
    ensures
        layer.decode_trace(hidden, LayerState::Other, ctx, stream, id, at).steps.len() == 0,
        layer.decode_trace(hidden, LayerState::Other, ctx, stream, id, at).outcome == Err::<(), _>(
            KdaError::NotSsmState,
        ),
        layer.prefill_trace(hidden, LayerState::Other, ctx, stream, count, id, at).steps.len() == 0,
        layer.prefill_trace(hidden, LayerState::Other, ctx, stream, count, id, at).outcome == Err::<
            (),
            _,
        >(KdaError::NotSsmState),
{
}

} // verus!
