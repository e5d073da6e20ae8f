//! Tensors by name and shape, and loading them in order.
use vstd::prelude::*;

use crate::device::{result_ptr, CommandBuffer, CommandOf, CommandView, DenseWeight, Trace};
use crate::text::{bracketed, bracketed_text, joined, occurs};
use vstd::string::StringExecFns;

verus! {

/// The name and the shape of a stored tensor.
#[derive(PartialEq, Eq, Debug)]
pub struct TensorInfo {
    pub name: String,
    pub shape: Vec<usize>,
}

/// What a weight store holds.
#[derive(PartialEq, Eq, Debug)]
pub struct WeightStore {
    pub tensors: Vec<TensorInfo>,
}

/// The shape of the first tensor called `name`.
pub open spec fn shape_of(tensors: Seq<TensorInfo>, name: Seq<char>) -> Option<Seq<usize>>
    decreases tensors.len(),
{
    if tensors.len() == 0 {
        None
    } else if tensors[0].name@ == name {
        Some(tensors[0].shape@)
    } else {
        shape_of(tensors.drop_first(), name)
    }
}

proof fn lemma_shape_at(tensors: Seq<TensorInfo>, name: Seq<char>, i: int)
    requires
        0 <= i < tensors.len(),
        tensors[i].name@ == name,
        forall|j: int| 0 <= j < i ==> (#[trigger] tensors[j]).name@ != name,
    ensures
        shape_of(tensors, name) == Some(tensors[i].shape@),
    decreases i,
{
    if i > 0 {
        let rest = tensors.drop_first();
        assert(tensors[0].name@ != name);
        assert forall|j: int| 0 <= j < i - 1 implies (#[trigger] rest[j]).name@ != name by {
            assert(rest[j] == tensors[j + 1]);
        }
        lemma_shape_at(rest, name, i - 1);
    }
}

proof fn lemma_shape_none(tensors: Seq<TensorInfo>, name: Seq<char>)
    requires
        forall|j: int| 0 <= j < tensors.len() ==> (#[trigger] tensors[j]).name@ != name,
    ensures
        shape_of(tensors, name) is None,
    decreases tensors.len(),
{
    if tensors.len() > 0 {
        let rest = tensors.drop_first();
        assert(tensors[0].name@ != name);
        assert forall|j: int| 0 <= j < rest.len() implies (#[trigger] rest[j]).name@ != name by {
            assert(rest[j] == tensors[j + 1]);
        }
        lemma_shape_none(rest, name);
    }
}

impl WeightStore {
    pub open spec fn shape(self, name: Seq<char>) -> Option<Seq<usize>> {
        shape_of(self.tensors@, name)
    }

    /// The shape of the tensor called `name`.
    pub fn get(&self, name: &String) -> (shape: Option<&Vec<usize>>)
        ensures
            shape is Some <==> self.shape(name@) is Some,
            shape is Some ==> self.shape(name@) == Some(shape->0@),
    {
        let mut i: usize = 0;
        while i < self.tensors.len()
            invariant
                i <= self.tensors.len(),
                forall|j: int| 0 <= j < i ==> (#[trigger] self.tensors@[j]).name@ != name@,
            decreases self.tensors.len() - i,
        {
            if self.tensors[i].name.eq(name) {
                proof {
                    lemma_shape_at(self.tensors@, name@, i as int);
                }
                return Some(&self.tensors[i].shape);
            }
            i = i + 1;
        }
        proof {
            lemma_shape_none(self.tensors@, name@);
        }
        None
    }
}

/// Why weights could not be loaded; `N` is a name and `S` a shape.
#[derive(PartialEq, Eq, Debug)]
pub enum WeightErrorOf<N, S> {
    WrongModelType { model_type: N },
    HeadCountsDiffer,
    HeadDimsDiffer,
    KdaQkvOverflow,
    KdaConvBytesOverflow,
    KdaConvSizeOverflow,
    DsaQueryOverflow,
    DsaKvOverflow,
    MissingTensor { name: N },
    ShapeMismatch { context: &'static str, name: N, actual: S, expected: S },
}

pub type WeightError = WeightErrorOf<String, Vec<usize>>;

pub type WeightErrorView = WeightErrorOf<Seq<char>, Seq<usize>>;

impl View for WeightErrorOf<String, Vec<usize>> {
    type V = WeightErrorView;

    open spec fn view(&self) -> WeightErrorView {
        match *self {
            WeightErrorOf::WrongModelType { model_type } => WeightErrorOf::WrongModelType {
                model_type: model_type@,
            },
            WeightErrorOf::HeadCountsDiffer => WeightErrorOf::HeadCountsDiffer,
            WeightErrorOf::HeadDimsDiffer => WeightErrorOf::HeadDimsDiffer,
            WeightErrorOf::KdaQkvOverflow => WeightErrorOf::KdaQkvOverflow,
            WeightErrorOf::KdaConvBytesOverflow => WeightErrorOf::KdaConvBytesOverflow,
            WeightErrorOf::KdaConvSizeOverflow => WeightErrorOf::KdaConvSizeOverflow,
            WeightErrorOf::DsaQueryOverflow => WeightErrorOf::DsaQueryOverflow,
            WeightErrorOf::DsaKvOverflow => WeightErrorOf::DsaKvOverflow,
            WeightErrorOf::MissingTensor { name } => WeightErrorOf::MissingTensor { name: name@ },
            WeightErrorOf::ShapeMismatch { context, name, actual, expected } => {
                WeightErrorOf::ShapeMismatch {
                    context,
                    name: name@,
                    actual: actual@,
                    expected: expected@,
                }
            },
        }
    }
}

impl WeightErrorOf<Seq<char>, Seq<usize>> {
    pub open spec fn text(self) -> Seq<char> {
        match self {
            WeightErrorOf::WrongModelType { model_type } => {
                "GLM-5 weight contract requires model_type=glm5_next, got `"@ + model_type + "`"@
            },
            WeightErrorOf::HeadCountsDiffer => "GLM KDA requires equal key/value head counts"@,
            WeightErrorOf::HeadDimsDiffer => "GLM KDA requires equal key/value head dimensions"@,
            WeightErrorOf::KdaQkvOverflow => "GLM KDA qkv dimension overflow"@,
            WeightErrorOf::KdaConvBytesOverflow => "GLM KDA convolution byte size overflow"@,
            WeightErrorOf::KdaConvSizeOverflow => "GLM KDA convolution size overflow"@,
            WeightErrorOf::DsaQueryOverflow => "GLM DSA query dimension overflow"@,
            WeightErrorOf::DsaKvOverflow => "GLM DSA KV dimension overflow"@,
            WeightErrorOf::MissingTensor { name } => "missing tensor `"@ + name + "`"@,
            WeightErrorOf::ShapeMismatch { context, name, actual, expected } => {
                context@ + ": "@ + name + " shape "@ + bracketed(actual) + ", expected "@
                    + bracketed(expected)
            },
        }
    }
}

impl WeightErrorOf<String, Vec<usize>> {
    pub fn message(&self) -> (message: String)
        ensures
            message@ == self@.text(),
    {
        match self {
            WeightErrorOf::WrongModelType { model_type } => {
                let mut text = joined(
                    "GLM-5 weight contract requires model_type=glm5_next, got `",
                    model_type.as_str(),
                );
                text.append("`");
                text
            },
            WeightErrorOf::HeadCountsDiffer => "GLM KDA requires equal key/value head counts".to_owned(),
            WeightErrorOf::HeadDimsDiffer => "GLM KDA requires equal key/value head dimensions".to_owned(),
            WeightErrorOf::KdaQkvOverflow => "GLM KDA qkv dimension overflow".to_owned(),
            WeightErrorOf::KdaConvBytesOverflow => "GLM KDA convolution byte size overflow".to_owned(),
            WeightErrorOf::KdaConvSizeOverflow => "GLM KDA convolution size overflow".to_owned(),
            WeightErrorOf::DsaQueryOverflow => "GLM DSA query dimension overflow".to_owned(),
            WeightErrorOf::DsaKvOverflow => "GLM DSA KV dimension overflow".to_owned(),
            WeightErrorOf::MissingTensor { name } => {
                let mut text = joined("missing tensor `", name.as_str());
                text.append("`");
                text
            },
            WeightErrorOf::ShapeMismatch { context, name, actual, expected } => {
                let mut text = joined(context, ": ");
                text.append(name.as_str());
                text.append(" shape ");
                let shown = bracketed_text(actual);
                text.append(shown.as_str());
                text.append(", expected ");
                let shown = bracketed_text(expected);
                text.append(shown.as_str());
                text
            },
        }
    }
}

/// A tensor that a block needs: where it is, the shape it must have, and
/// whether it stays in single precision.
#[derive(PartialEq, Eq, Debug)]
#[verifier::ext_equal]
pub struct TensorSpecOf<N, S> {
    pub name: N,
    pub shape: S,
    pub keep_f32: bool,
    pub context: &'static str,
}

pub type TensorSpec = TensorSpecOf<String, Vec<usize>>;

pub type TensorView = TensorSpecOf<Seq<char>, Seq<usize>>;

impl View for TensorSpecOf<String, Vec<usize>> {
    type V = TensorView;

    open spec fn view(&self) -> TensorView {
        TensorSpecOf {
            name: self.name@,
            shape: self.shape@,
            keep_f32: self.keep_f32,
            context: self.context,
        }
    }
}

/// What is wrong with the stored tensor, if anything is.
pub open spec fn tensor_fault(store: WeightStore, tensor: TensorView) -> Option<WeightErrorView> {
    match store.shape(tensor.name) {
        None => Some(WeightErrorOf::MissingTensor { name: tensor.name }),
        Some(actual) => if actual == tensor.shape {
            None
        } else {
            Some(
                WeightErrorOf::ShapeMismatch {
                    context: tensor.context,
                    name: tensor.name,
                    actual,
                    expected: tensor.shape,
                },
            )
        },
    }
}

pub open spec fn load_step(tensor: TensorView) -> CommandView {
    if tensor.keep_f32 {
        CommandOf::LoadF32 { name: tensor.name }
    } else {
        CommandOf::LoadDense { name: tensor.name }
    }
}

/// How many tensors from the start on are as they must be.
pub open spec fn sound_prefix(store: WeightStore, tensors: Seq<TensorView>) -> nat
    decreases tensors.len(),
{
    if tensors.len() == 0 || tensor_fault(store, tensors[0]) is Some {
        0
    } else {
        1 + sound_prefix(store, tensors.drop_first())
    }
}

pub proof fn lemma_sound_prefix(store: WeightStore, tensors: Seq<TensorView>, n: nat)
    requires
        n <= tensors.len(),
        forall|j: int| 0 <= j < n ==> tensor_fault(store, #[trigger] tensors[j]) is None,
        n < tensors.len() ==> tensor_fault(store, tensors[n as int]) is Some,
    ensures
        sound_prefix(store, tensors) == n,
    decreases n,
{
    if n > 0 {
        let rest = tensors.drop_first();
        assert(tensor_fault(store, tensors[0]) is None);
        assert forall|j: int| 0 <= j < n - 1 implies tensor_fault(store, #[trigger] rest[j]) is None by {
            assert(rest[j] == tensors[j + 1]);
        }
        lemma_sound_prefix(store, rest, (n - 1) as nat);
    }
}

/// In a list that is sound throughout, every tensor is as it must be.
pub proof fn lemma_all_sound(store: WeightStore, tensors: Seq<TensorView>, i: int)
    requires
        sound_prefix(store, tensors) >= tensors.len(),
        0 <= i < tensors.len(),
    ensures
        tensor_fault(store, tensors[i]) is None,
    decreases tensors.len(),
{
    if i > 0 {
        let rest = tensors.drop_first();
        lemma_all_sound(store, rest, i - 1);
        assert(rest[i - 1] == tensors[i]);
    }
}

/// The tensors before the first fault are loaded in order; without a fault,
/// each weight is named by the command that loads it.
pub open spec fn load_trace(
    store: WeightStore,
    tensors: Seq<TensorView>,
    id: u64,
    at: nat,
) -> Trace<Seq<DenseWeight>, WeightErrorView> {
    let sound = sound_prefix(store, tensors);
    Trace {
        steps: Seq::new(sound, |i: int| load_step(tensors[i])),
        outcome: if sound < tensors.len() {
            Err(tensor_fault(store, tensors[sound as int])->0)
        } else {
            Ok(loaded(tensors.len(), id, at))
        },
    }
}

/// `count` weights loaded after `at` commands of buffer `id`.
pub open spec fn loaded(count: nat, id: u64, at: nat) -> Seq<DenseWeight> {
    Seq::new(count, |i: int| DenseWeight { weight: result_ptr(id, (at + i) as nat) })
}

fn same_shape(a: &Vec<usize>, b: &Vec<usize>) -> (same: bool)
    ensures
        same == (a@ == b@),
{
    if a.len() != b.len() {
        return false;
    }
    let mut i: usize = 0;
    while i < a.len()
        invariant
            i <= a.len(),
            a@.len() == b@.len(),
            forall|j: int| 0 <= j < i ==> a@[j] == b@[j],
        decreases a.len() - i,
    {
        if a[i] != b[i] {
            return false;
        }
        i = i + 1;
    }
    assert(a@ =~= b@);
    true
}

pub fn copy_shape(shape: &Vec<usize>) -> (copy: Vec<usize>)
    ensures
        copy@ == shape@,
{
    let mut copy: Vec<usize> = Vec::new();
    let mut i: usize = 0;
    while i < shape.len()
        invariant
            i <= shape.len(),
            copy@ == shape@.take(i as int),
        decreases shape.len() - i,
    {
        copy.push(shape[i]);
        assert(copy@ =~= shape@.take(i + 1));
        i = i + 1;
    }
    assert(shape@.take(i as int) =~= shape@);
    copy
}

/// The tensor must be stored with the shape it must have.
pub fn require_shape(store: &WeightStore, tensor: &TensorSpec) -> (result: Result<(), WeightError>)
    ensures
        match tensor_fault(*store, tensor@) {
            None => result is Ok,
            Some(error) => result is Err && result->Err_0@ == error,
        },
{
    match store.get(&tensor.name) {
        None => Err(WeightErrorOf::MissingTensor { name: tensor.name.clone() }),
        Some(actual) => {
            if same_shape(actual, &tensor.shape) {
                Ok(())
            } else {
                Err(
                    WeightErrorOf::ShapeMismatch {
                        context: tensor.context,
                        name: tensor.name.clone(),
                        actual: copy_shape(actual),
                        expected: copy_shape(&tensor.shape),
                    },
                )
            }
        },
    }
}

/// Load the tensors in order, stopping at the first that is not as it must be.
pub fn load_tensors(
    store: &WeightStore,
    tensors: &Vec<TensorSpec>,
    gpu: &mut CommandBuffer,
) -> (result: Result<Vec<DenseWeight>, WeightError>)
    ensures
        ({
            let trace = load_trace(
                *store,
                tensors@.map_values(|tensor: TensorSpec| tensor@),
                old(gpu).id(),
                old(gpu)@.len(),
            );
            &&& final(gpu).extends(*old(gpu), trace.steps)
            &&& match trace.outcome {
                Ok(weights) => result is Ok && result->Ok_0@ == weights,
                Err(error) => result is Err && result->Err_0@ == error,
            }
        }),
{
    let ghost start = *gpu;
    let ghost list = tensors@.map_values(|tensor: TensorSpec| tensor@);
    let mut weights: Vec<DenseWeight> = Vec::new();
    let mut i: usize = 0;
    let ghost step = |i: int| load_step(list[i]);
    assert(gpu@ =~= start@ + Seq::new(0, step));
    while i < tensors.len()
        invariant
            i <= tensors.len(),
            start == *old(gpu),
            list == tensors@.map_values(|tensor: TensorSpec| tensor@),
            step == (|i: int| load_step(list[i])),
            weights@ == loaded(i as nat, start.id(), start@.len()),
            gpu.extends(start, Seq::new(i as nat, step)),
            forall|j: int| 0 <= j < i ==> tensor_fault(*store, #[trigger] list[j]) is None,
        decreases tensors.len() - i,
    {
        let tensor = &tensors[i];
        assert(list[i as int] == tensor@);
        match require_shape(store, tensor) {
            Ok(()) => {},
            Err(error) => {
                proof {
                    lemma_sound_prefix(*store, list, i as nat);
                }
                return Err(error);
            },
        }
        let name = tensor.name.clone();
        let ghost before = *gpu;
        let weight = if tensor.keep_f32 {
            gpu.record_for_ptr(CommandOf::LoadF32 { name })
        } else {
            gpu.record_for_ptr(CommandOf::LoadDense { name })
        };
        weights.push(DenseWeight { weight });
        proof {
            assert(gpu.extends(before, seq![step(i as int)]));
            assert(Seq::new((i + 1) as nat, step) =~= Seq::new(i as nat, step).push(
                step(i as int),
            ));
            assert(gpu@ =~= start@ + Seq::new((i + 1) as nat, step));
            assert(weights@ =~= loaded((i + 1) as nat, start.id(), start@.len()));
        }
        i = i + 1;
    }
    proof {
        lemma_sound_prefix(*store, list, i as nat);
    }
    Ok(weights)
}

/// The tensor `prefix` followed by `suffix`.
pub fn tensor(
    prefix: &String,
    suffix: &'static str,
    shape: Vec<usize>,
    keep_f32: bool,
    context: &'static str,
) -> (tensor: TensorSpec)
    ensures
        tensor@ == (TensorSpecOf { name: prefix@ + suffix@, shape: shape@, keep_f32, context }),
{
    TensorSpecOf { name: joined(prefix.as_str(), suffix), shape, keep_f32, context }
}

/// A shape is told exactly where a tensor of that name is stored, and it is that of the
/// first of them.
pub proof fn law_shape_of_the_first(tensors: Seq<TensorInfo>, name: Seq<char>)
    ensures
        match shape_of(tensors, name) {
            Some(shape) => exists|i: int|
                {
                    &&& 0 <= i < tensors.len()
                    &&& (#[trigger] tensors[i]).name@ == name
                    &&& tensors[i].shape@ == shape
                    &&& forall|j: int| 0 <= j < i ==> (#[trigger] tensors[j]).name@ != name
                },
            None => forall|i: int| 0 <= i < tensors.len() ==> (#[trigger] tensors[i]).name@ != name,
        },
    decreases tensors.len(),
{
    if tensors.len() > 0 && tensors[0].name@ != name {
        let rest = tensors.drop_first();
        law_shape_of_the_first(rest, name);
        match shape_of(rest, name) {
            Some(shape) => {
                let i = choose|i: int|
                    {
                        &&& 0 <= i < rest.len()
                        &&& (#[trigger] rest[i]).name@ == name
                        &&& rest[i].shape@ == shape
                        &&& forall|j: int| 0 <= j < i ==> (#[trigger] rest[j]).name@ != name
                    };
                assert(tensors[i + 1] == rest[i]);
                assert forall|j: int| 0 <= j < i + 1 implies (#[trigger] tensors[j]).name@
                    != name by {
                    if j > 0 {
                        assert(tensors[j] == rest[j - 1]);
                    }
                }
            },
            None => {
                assert forall|i: int| 0 <= i < tensors.len() implies (#[trigger] tensors[i]).name@
                    != name by {
                    if i > 0 {
                        assert(tensors[i] == rest[i - 1]);
                    }
                }
            },
        }
    }
}

/// A message about a tensor names it.
pub proof fn law_message_names_the_tensor(error: WeightErrorView)
    ensures
        error matches WeightErrorOf::MissingTensor { name } ==> occurs(name, error.text())
            && occurs("missing tensor"@, error.text()),
        error matches WeightErrorOf::ShapeMismatch { context, name, .. } ==> occurs(
            name,
            error.text(),
        ) && occurs(context@, error.text()),
{
    let text = error.text();
    let none = Seq::<char>::empty();
    match error {
        WeightErrorOf::MissingTensor { name } => {
            reveal_strlit("missing tensor `");
            reveal_strlit("missing tensor");
            assert(text == "missing tensor `"@ + name + "`"@);
            assert(text =~= none + "missing tensor"@ + text.skip(14));
        },
        WeightErrorOf::ShapeMismatch { context, name, actual, expected } => {
            let after = " shape "@ + bracketed(actual) + ", expected "@ + bracketed(expected);
            assert(text =~= context@ + ": "@ + name + after);
            assert(text =~= none + context@ + (": "@ + name + after));
        },
        _ => {},
    }
}

} // verus!
