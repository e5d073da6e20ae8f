//! Device work as a list of commands.
//!
//! Nothing here talks to a device. Code that drives one appends to a
//! [`CommandBuffer`]; whoever owns the device replays the buffer in order and
//! stops at the first command that fails. What a command produces (an
//! allocation, a loaded weight, a kernel handle) is named by its position, so
//! later commands can refer to it before it exists.
use vstd::prelude::*;

use crate::json::JsonNumber;

verus! {

/// What a [`DevicePtr`] counts its bytes from.
#[derive(Clone, Copy, PartialEq, Eq, Debug)]
pub enum Origin {
    /// Address zero of the device.
    Absolute,
    /// The address that command `command` of buffer `buffer` produced; `part`
    /// tells the results of one command apart.
    Result { buffer: u64, command: usize, part: u8 },
}

/// A device address.
#[derive(Clone, Copy, PartialEq, Eq, Debug)]
pub struct DevicePtr {
    pub origin: Origin,
    pub bytes: u64,
}

/// The address that part `part` of command `command` in buffer `buffer` is at.
pub open spec fn result_part(buffer: u64, command: nat, part: u8) -> DevicePtr {
    DevicePtr {
        origin: Origin::Result { buffer, command: command as usize, part },
        bytes: 0,
    }
}

/// The address that command `command` in buffer `buffer` produces.
pub open spec fn result_ptr(buffer: u64, command: nat) -> DevicePtr {
    result_part(buffer, command, 0)
}

pub open spec fn null_ptr() -> DevicePtr {
    DevicePtr { origin: Origin::Absolute, bytes: 0 }
}

impl DevicePtr {
    /// Whether the address `bytes` further on is an address.
    pub open spec fn reaches(self, bytes: int) -> bool {
        self.bytes + bytes <= u64::MAX
    }

    /// The address `bytes` further on.
    pub open spec fn plus(self, bytes: int) -> DevicePtr {
        DevicePtr { origin: self.origin, bytes: (self.bytes + bytes) as u64 }
    }

    pub fn null() -> (ptr: DevicePtr)
        ensures
            ptr == null_ptr(),
    {
        DevicePtr { origin: Origin::Absolute, bytes: 0 }
    }

    pub fn offset(self, bytes: usize) -> (ptr: DevicePtr)
        requires
            self.reaches(bytes as int),
        ensures
            ptr == self.plus(bytes as int),
    {
        DevicePtr { origin: self.origin, bytes: self.bytes + bytes as u64 }
    }
}

/// A compiled kernel.
#[derive(Clone, Copy, PartialEq, Eq, Debug)]
pub enum KernelHandle {
    /// A handle that the device gave out; zero stands for an absent kernel.
    Raw(u64),
    /// The kernel that command `command` of buffer `buffer` looks up.
    Result { buffer: u64, command: usize },
}

pub open spec fn result_kernel(buffer: u64, command: nat) -> KernelHandle {
    KernelHandle::Result { buffer, command: command as usize }
}

impl KernelHandle {
    /// A looked-up kernel is present: the lookup of an absent one fails.
    pub open spec fn present(self) -> bool {
        self != KernelHandle::Raw(0)
    }

    pub fn is_present(self) -> (present: bool)
        ensures
            present == self.present(),
    {
        match self {
            KernelHandle::Raw(handle) => handle != 0,
            KernelHandle::Result { .. } => true,
        }
    }
}

/// A single-precision float.
#[derive(Clone, Copy, PartialEq, Eq, Debug)]
pub enum Float32 {
    /// The float with these IEEE 754 bits.
    Bits(u32),
    /// The float that a JSON number, read as a double, rounds to.
    Rounded(JsonNumber),
}

/// The extent of a launch along three axes.
#[derive(Clone, Copy, PartialEq, Eq, Debug)]
pub struct Dim3 {
    pub x: u32,
    pub y: u32,
    pub z: u32,
}

#[verifier::allow_in_spec]
pub fn dim3(x: u32, y: u32, z: u32) -> (dim: Dim3)
    returns
        (Dim3 { x, y, z }),
{
    Dim3 { x, y, z }
}

/// One kernel argument.
#[derive(Clone, Copy, PartialEq, Eq, Debug)]
pub enum KernelArg {
    Ptr(DevicePtr),
    U32(u32),
    F32(Float32),
}

/// A kernel launch with its arguments in order; `A` is the argument list.
#[derive(PartialEq, Eq, Debug)]
pub struct LaunchOf<A> {
    pub kernel: KernelHandle,
    pub grid: Dim3,
    pub block: Dim3,
    pub shared_mem: u32,
    pub args: A,
    pub stream: u64,
}

pub type KernelLaunch = LaunchOf<Vec<KernelArg>>;

pub type LaunchView = LaunchOf<Seq<KernelArg>>;

impl View for LaunchOf<Vec<KernelArg>> {
    type V = LaunchView;

    open spec fn view(&self) -> LaunchView {
        LaunchOf {
            kernel: self.kernel,
            grid: self.grid,
            block: self.block,
            shared_mem: self.shared_mem,
            args: self.args@,
            stream: self.stream,
        }
    }
}

/// A weight in the precision that the runtime computes in.
#[derive(Clone, Copy, PartialEq, Eq, Debug)]
pub struct DenseWeight {
    pub weight: DevicePtr,
}

/// A four-bit quantised weight, named by where it is kept.
#[derive(Clone, Copy, PartialEq, Eq, Debug)]
pub struct QuantizedWeight {
    pub weight: DevicePtr,
}

impl QuantizedWeight {
    pub fn null() -> (weight: QuantizedWeight)
        ensures
            weight == (QuantizedWeight { weight: null_ptr() }),
    {
        QuantizedWeight { weight: DevicePtr::null() }
    }
}

/// The three projections of one expert.
#[derive(Clone, Copy, PartialEq, Eq, Debug)]
pub struct ExpertWeight {
    pub gate_proj: QuantizedWeight,
    pub up_proj: QuantizedWeight,
    pub down_proj: QuantizedWeight,
}

/// The projections of a dense feed-forward block, each also transposed.
#[derive(Clone, Copy, PartialEq, Eq, Debug)]
pub struct DenseFfnWeights {
    pub gate_proj: QuantizedWeight,
    pub up_proj: QuantizedWeight,
    pub down_proj: QuantizedWeight,
    pub gate_proj_t: Option<QuantizedWeight>,
    pub up_proj_t: Option<QuantizedWeight>,
    pub down_proj_t: Option<QuantizedWeight>,
}

/// The weights of a mixture-of-experts block; `X` is the expert list.
#[derive(PartialEq, Eq, Debug)]
pub struct MoeWeightsOf<X> {
    pub gate: DenseWeight,
    pub shared_expert: ExpertWeight,
    pub shared_expert_gate: DenseWeight,
    pub experts: X,
    pub router_pre_norm: Option<DenseWeight>,
    pub correction_bias: Option<DenseWeight>,
}

pub type MoeWeights = MoeWeightsOf<Vec<ExpertWeight>>;

pub type MoeView = MoeWeightsOf<Seq<ExpertWeight>>;

impl View for MoeWeightsOf<Vec<ExpertWeight>> {
    type V = MoeView;

    open spec fn view(&self) -> MoeView {
        MoeWeightsOf {
            gate: self.gate,
            shared_expert: self.shared_expert,
            shared_expert_gate: self.shared_expert_gate,
            experts: self.experts@,
            router_pre_norm: self.router_pre_norm,
            correction_bias: self.correction_bias,
        }
    }
}

/// A feed-forward block that the runtime holds.
#[derive(Clone, Copy, PartialEq, Eq, Debug)]
pub enum FfnComponent {
    Dense(DevicePtr),
    Moe(DevicePtr),
}

/// The projections of a conventional attention block.
#[derive(Clone, Copy, PartialEq, Eq, Debug)]
pub struct AttentionWeights {
    pub q_proj: DenseWeight,
    pub k_proj: DenseWeight,
    pub v_proj: DenseWeight,
    pub o_proj: QuantizedWeight,
    pub q_norm: DenseWeight,
    pub k_norm: DenseWeight,
    pub q_norm_full: Option<DenseWeight>,
    pub k_norm_full: Option<DenseWeight>,
    pub k_scale: Float32,
    pub v_scale: Float32,
}

/// The element type of a key/value cache.
#[derive(Clone, Copy, PartialEq, Eq, Debug)]
pub enum KvCacheDtype {
    Bf16,
}

/// Scratch buffers that the layers of a model share.
#[derive(Clone, Copy, PartialEq, Eq, Debug)]
pub struct BufferArena {
    pub ssm_qkvz: DevicePtr,
    pub ssm_ba: DevicePtr,
    pub ssm_deinterleaved: DevicePtr,
    pub ssm_conv_out_f32: DevicePtr,
    pub attn_output: DevicePtr,
    pub norm_output: DevicePtr,
    pub qkv_output: DevicePtr,
    pub expert_up_out: DevicePtr,
    pub expert_gate_out: DevicePtr,
    pub hc_streams: DevicePtr,
    pub hc_post: DevicePtr,
    pub hc_comb: DevicePtr,
}

/// Per-token metadata that was uploaded before a decode step.
#[derive(Clone, Copy, PartialEq, Eq, Debug)]
pub struct AttnMetadata {
    pub positions: DevicePtr,
    pub slot: DevicePtr,
    pub block_table: DevicePtr,
    pub seq_len: DevicePtr,
    pub max_blocks_per_seq: u32,
}

/// What a forward pass hands on to the blocks it runs, besides the model's
/// configuration.
#[derive(Clone, Copy, PartialEq, Eq, Debug)]
pub struct PassContext {
    pub buffers: BufferArena,
    pub attn_metadata: Option<AttnMetadata>,
    pub profile: bool,
    pub graph_capture: bool,
    pub gemv_sw: bool,
}

/// A runtime operation whose operands have a fixed size.
#[allow(inconsistent_fields)]
#[derive(Clone, Copy, PartialEq, Eq, Debug)]
pub enum DeviceCall {
    /// Look up kernel `name` of `module`.
    LookupKernel { module: &'static str, name: &'static str },
    Alloc { bytes: usize },
    Memset { dst: DevicePtr, value: u8, bytes: usize },
    MemsetAsync { dst: DevicePtr, value: u8, bytes: usize, stream: u64 },
    CopyD2d { src: DevicePtr, dst: DevicePtr, bytes: usize },
    CopyD2dAsync { src: DevicePtr, dst: DevicePtr, bytes: usize, stream: u64 },
    /// `output[n] = weight[n, k] * input[k]`.
    DenseGemv {
        kernel: KernelHandle,
        input: DevicePtr,
        weight: DenseWeight,
        output: DevicePtr,
        n: u32,
        k: u32,
        stream: u64,
    },
    /// As `DenseGemv`, with a quantised weight and the kernels of attention
    /// layer `layer`.
    Nvfp4Gemv {
        layer: usize,
        gemv_sw: bool,
        input: DevicePtr,
        weight: QuantizedWeight,
        output: DevicePtr,
        n: u32,
        k: u32,
        stream: u64,
    },
    RmsNorm {
        kernel: KernelHandle,
        input: DevicePtr,
        weight: DenseWeight,
        output: DevicePtr,
        rows: u32,
        width: u32,
        eps: Float32,
        stream: u64,
    },
    Conv1dUpdate {
        kernel: KernelHandle,
        state: DevicePtr,
        input: DevicePtr,
        weight: DenseWeight,
        output: DevicePtr,
        channels: u32,
        kernel_size: u32,
        rows: u32,
        stream: u64,
    },
    /// One matrix-vector product per head.
    MlaBatchedGemv {
        kernel: KernelHandle,
        input: DevicePtr,
        weight: DevicePtr,
        output: DevicePtr,
        n: u32,
        k: u32,
        heads: u32,
        input_stride: u32,
        output_stride: u32,
        stream: u64,
    },
    MlaQRopeScatter {
        kernel: KernelHandle,
        q_full: DevicePtr,
        q_absorbed: DevicePtr,
        q_rope: DevicePtr,
        heads: u32,
        head_dim: u32,
        nope: u32,
        rope: u32,
        kv_lora: u32,
        cache_dim: u32,
        stream: u64,
    },
    RopeYarn {
        kernel: KernelHandle,
        q: DevicePtr,
        k: DevicePtr,
        positions: DevicePtr,
        rows: u32,
        q_heads: u32,
        k_heads: u32,
        head_dim: u32,
        rotary_dim: u32,
        inv_freq: DevicePtr,
        theta: Float32,
        stream: u64,
    },
    MlaQRopeWriteback {
        kernel: KernelHandle,
        q_rope: DevicePtr,
        q_absorbed: DevicePtr,
        heads: u32,
        rope: u32,
        kv_lora: u32,
        cache_dim: u32,
        stream: u64,
    },
    MlaCacheAssemble {
        kernel: KernelHandle,
        kv_latent: DevicePtr,
        k_rope: DevicePtr,
        k_entry: DevicePtr,
        v_entry: DevicePtr,
        kv_lora: u32,
        rope: u32,
        cache_dim: u32,
        stream: u64,
    },
    /// Write an entry to the key/value cache of attention layer `layer`, which
    /// is kept in `k_pool` and `v_pool`.
    WriteKvCache {
        layer: usize,
        k_pool: DevicePtr,
        v_pool: DevicePtr,
        k_entry: DevicePtr,
        v_entry: DevicePtr,
        slot: DevicePtr,
        rows: u32,
        kv_heads: u32,
        head_dim: u32,
        block_size: u32,
        k_stride: u32,
        v_stride: u32,
        stream: u64,
        graph_capture: bool,
    },
    PagedDecodeAttention {
        kernel: KernelHandle,
        q: DevicePtr,
        k_pool: DevicePtr,
        v_pool: DevicePtr,
        output: DevicePtr,
        block_table: DevicePtr,
        seq_len: DevicePtr,
        max_blocks_per_seq: u32,
        rows: u32,
        q_heads: u32,
        kv_heads: u32,
        head_dim: u32,
        block_size: u32,
        scale: Float32,
        q_stride: u32,
        window: u32,
        stream: u64,
    },
    /// Run a feed-forward block in a forward pass; the result is where its
    /// output is.
    FfnForward { ffn: FfnComponent, input: DevicePtr, pass: PassContext, stream: u64 },
    /// Quantise a `rows` by `cols` weight.
    QuantizeNvfp4 {
        source: DenseWeight,
        rows: usize,
        cols: usize,
        absmax: KernelHandle,
        quantize: KernelHandle,
        stream: u64,
    },
    TransposeForGemm { source: QuantizedWeight, rows: usize, cols: usize },
    NewDenseFfn { weights: DenseFfnWeights },
    PredequantForPrefill { ffn: DevicePtr, stream: u64 },
    /// Block-diagonal forms of the per-head views; two results.
    BlockDiagonals { w_uk_host: DevicePtr, w_uv: DenseWeight },
    /// An attention layer without an output gate.
    NewUngatedAttention {
        input_norm: DenseWeight,
        attention: AttentionWeights,
        post_norm: DenseWeight,
        ffn: FfnComponent,
        attn_layer_idx: usize,
        kv_dtype: KvCacheDtype,
    },
    /// A timed section begins.
    ProfileStart,
    /// A timed section ends: wait for the stream and report the time under
    /// `label`. With `after_failure`, the wait happens even when the command
    /// just before it failed, and the failure counts afterwards.
    ProfileEnd { label: &'static str, after_failure: bool, stream: u64 },
}

/// A command; `L` is a launch, `N` a tensor name, `S` a tensor shape and `M`
/// the weights of a mixture of experts. It is carried out for the model that it
/// was recorded for, whose configuration and stored tensors are then at hand.
#[derive(PartialEq, Eq, Debug)]
pub enum CommandOf<L, N, S, M> {
    Launch(L),
    Call(DeviceCall),
    /// Load the tensor `name` in the precision that the runtime computes in.
    LoadDense { name: N },
    /// Load the tensor `name`, kept in single precision.
    LoadF32 { name: N },
    /// Load a hyper-connection tensor of `elements` floats.
    LoadHcF32 { name: N, elements: usize },
    /// Per-head views of the key/value up-projection; four results.
    PerHeadViews { kv_b: DenseWeight, kv_b_shape: S, q_b: DenseWeight, q_b_shape: S },
    /// The query and key up-projections multiplied out.
    QkAbsorbed { q_b: DenseWeight, q_b_shape: S, w_uk_t: DenseWeight },
    NewMoe { weights: M, num_experts: usize },
}

pub type Command = CommandOf<KernelLaunch, String, Vec<usize>, MoeWeights>;

pub type CommandView = CommandOf<LaunchView, Seq<char>, Seq<usize>, MoeView>;

impl View for CommandOf<KernelLaunch, String, Vec<usize>, MoeWeights> {
    type V = CommandView;

    open spec fn view(&self) -> CommandView {
        match *self {
            CommandOf::Launch(launch) => CommandOf::Launch(launch@),
            CommandOf::Call(call) => CommandOf::Call(call),
            CommandOf::LoadDense { name } => CommandOf::LoadDense { name: name@ },
            CommandOf::LoadF32 { name } => CommandOf::LoadF32 { name: name@ },
            CommandOf::LoadHcF32 { name, elements } => CommandOf::LoadHcF32 {
                name: name@,
                elements,
            },
            CommandOf::PerHeadViews {
                kv_b,
                kv_b_shape,
                q_b,
                q_b_shape,
            } => CommandOf::PerHeadViews {
                kv_b,
                kv_b_shape: kv_b_shape@,
                q_b,
                q_b_shape: q_b_shape@,
            },
            CommandOf::QkAbsorbed { q_b, q_b_shape, w_uk_t } => CommandOf::QkAbsorbed {
                q_b,
                q_b_shape: q_b_shape@,
                w_uk_t,
            },
            CommandOf::NewMoe { weights, num_experts } => CommandOf::NewMoe {
                weights: weights@,
                num_experts,
            },
        }
    }
}

/// A launch as a command.
pub open spec fn launched(
    kernel: KernelHandle,
    grid: Dim3,
    block: Dim3,
    shared_mem: u32,
    args: Seq<KernelArg>,
    stream: u64,
) -> CommandView {
    CommandOf::Launch(LaunchOf { kernel, grid, block, shared_mem, args, stream })
}

/// A runtime operation as a command.
pub open spec fn call(call: DeviceCall) -> CommandView {
    CommandOf::Call(call)
}

/// The commands that were recorded, and what the code that recorded them
/// concluded.
pub struct Trace<T, E> {
    pub steps: Seq<CommandView>,
    pub outcome: Result<T, E>,
}

/// `first`, and `second` after it unless `first` failed.
pub open spec fn chain<A, B, E>(first: Trace<A, E>, second: Trace<B, E>) -> Trace<B, E> {
    match first.outcome {
        Ok(_) => Trace { steps: first.steps + second.steps, outcome: second.outcome },
        Err(error) => Trace { steps: first.steps, outcome: Err(error) },
    }
}

/// `steps`, which cannot fail.
pub open spec fn done<E>(steps: Seq<CommandView>) -> Trace<(), E> {
    Trace { steps, outcome: Ok(()) }
}

/// What a timed section records before its body.
pub open spec fn opening(profile: bool) -> Seq<CommandView> {
    if profile {
        seq![call(DeviceCall::ProfileStart)]
    } else {
        Seq::empty()
    }
}

/// What a timed section records after its body.
pub open spec fn closing(
    profile: bool,
    label: &'static str,
    after_failure: bool,
    stream: u64,
) -> Seq<CommandView> {
    if profile {
        seq![call(DeviceCall::ProfileEnd { label, after_failure, stream })]
    } else {
        Seq::empty()
    }
}

/// A section whose body is `body`, timed when `profile` is set.
pub open spec fn timed(
    profile: bool,
    label: &'static str,
    after_failure: bool,
    stream: u64,
    body: Seq<CommandView>,
) -> Seq<CommandView> {
    opening(profile) + body + closing(profile, label, after_failure, stream)
}

/// Commands in the order in which they are to be issued.
pub struct CommandBuffer {
    id: u64,
    default_stream: u64,
    commands: Vec<Command>,
}

impl View for CommandBuffer {
    type V = Seq<CommandView>;

    closed spec fn view(&self) -> Seq<CommandView> {
        self.commands@.map_values(|command: Command| command@)
    }
}

impl CommandBuffer {
    /// The number that results of this buffer are named with.
    pub closed spec fn id(self) -> u64 {
        self.id
    }

    /// The stream that work without a stream of its own is issued on.
    pub closed spec fn stream(self) -> u64 {
        self.default_stream
    }

    /// This is `before` with `steps` recorded after it.
    pub open spec fn extends(self, before: CommandBuffer, steps: Seq<CommandView>) -> bool {
        &&& self.id() == before.id()
        &&& self.stream() == before.stream()
        &&& self@ == before@ + steps
    }

    /// An empty buffer. Buffers whose results meet in one replay need
    /// different numbers.
    pub fn new(id: u64, default_stream: u64) -> (buffer: CommandBuffer)
        ensures
            buffer.id() == id,
            buffer.stream() == default_stream,
            buffer@ == Seq::<CommandView>::empty(),
    {
        let buffer = CommandBuffer { id, default_stream, commands: Vec::new() };
        assert(buffer@ =~= Seq::<CommandView>::empty());
        buffer
    }

    pub fn default_stream(&self) -> (stream: u64)
        ensures
            stream == self.stream(),
    {
        self.default_stream
    }

    /// The recorded commands, in order.
    pub fn commands(&self) -> (commands: &Vec<Command>)
        ensures
            self@ == commands@.map_values(|command: Command| command@),
    {
        &self.commands
    }

    /// Append `command`; the result is its position.
    pub fn record(&mut self, command: Command) -> (position: usize)
        ensures
            position == old(self)@.len(),
            final(self).extends(*old(self), seq![command@]),
    {
        let position: usize = self.commands.len();
        self.commands.push(command);
        assert(self@ =~= old(self)@ + seq![command@]);
        position
    }

    pub fn call(&mut self, operation: DeviceCall)
        ensures
            final(self).extends(*old(self), seq![call(operation)]),
    {
        let _ = self.record(CommandOf::Call(operation));
    }

    /// Append an operation that produces an address.
    pub fn call_for_ptr(&mut self, operation: DeviceCall) -> (ptr: DevicePtr)
        ensures
            ptr == result_ptr(old(self).id(), old(self)@.len()),
            final(self).extends(*old(self), seq![call(operation)]),
    {
        let command: usize = self.record(CommandOf::Call(operation));
        DevicePtr { origin: Origin::Result { buffer: self.id, command, part: 0 }, bytes: 0 }
    }

    /// Append a command that produces an address.
    pub fn record_for_ptr(&mut self, command: Command) -> (ptr: DevicePtr)
        ensures
            ptr == result_ptr(old(self).id(), old(self)@.len()),
            final(self).extends(*old(self), seq![command@]),
    {
        let command: usize = self.record(command);
        DevicePtr { origin: Origin::Result { buffer: self.id, command, part: 0 }, bytes: 0 }
    }

    /// Look up a kernel.
    pub fn kernel(&mut self, module: &'static str, name: &'static str) -> (kernel: KernelHandle)
        ensures
            kernel == result_kernel(old(self).id(), old(self)@.len()),
            final(self).extends(*old(self), seq![call(DeviceCall::LookupKernel { module, name })]),
    {
        let command: usize = self.record(
            CommandOf::Call(DeviceCall::LookupKernel { module, name }),
        );
        KernelHandle::Result { buffer: self.id, command }
    }

    /// Begin a section that is timed when `profile` is set.
    pub fn open_section(&mut self, profile: bool)
        ensures
            final(self).extends(*old(self), opening(profile)),
    {
        if profile {
            self.call(DeviceCall::ProfileStart);
        } else {
            assert(self@ =~= self@ + opening(profile));
        }
    }

    /// End a section that is timed when `profile` is set.
    pub fn close_section(
        &mut self,
        profile: bool,
        label: &'static str,
        after_failure: bool,
        stream: u64,
    )
        ensures
            final(self).extends(*old(self), closing(profile, label, after_failure, stream)),
    {
        if profile {
            self.call(DeviceCall::ProfileEnd { label, after_failure, stream });
        } else {
            assert(self@ =~= self@ + closing(profile, label, after_failure, stream));
        }
    }

    pub fn launch(
        &mut self,
        kernel: KernelHandle,
        grid: Dim3,
        block: Dim3,
        shared_mem: u32,
        args: Vec<KernelArg>,
        stream: u64,
    )
        ensures
            final(self).extends(
                *old(self),
                seq![launched(kernel, grid, block, shared_mem, args@, stream)],
            ),
    {
        let _ = self.record(
            CommandOf::Launch(LaunchOf { kernel, grid, block, shared_mem, args, stream }),
        );
    }
}

/// `end` is `start` with the commands of `trace` recorded, and `result` is
/// what `trace` concluded.
pub open spec fn follows<T, E>(
    end: CommandBuffer,
    start: CommandBuffer,
    result: Result<T, E>,
    trace: Trace<T, E>,
) -> bool {
    &&& end.extends(start, trace.steps)
    &&& result == trace.outcome
}

/// Recording `second` after `first` records `first + second`.
pub proof fn lemma_extends_twice(
    start: CommandBuffer,
    middle: CommandBuffer,
    end: CommandBuffer,
    first: Seq<CommandView>,
    second: Seq<CommandView>,
)
    requires
        middle.extends(start, first),
        end.extends(middle, second),
    ensures
        end.extends(start, first + second),
{
    assert(start@ + first + second =~= start@ + (first + second));
}

} // verus!
