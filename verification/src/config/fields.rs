//! Reading fields of a configuration document.
use vstd::prelude::*;

use crate::config::error::{ConfigError, ConfigErrorOf, ConfigErrorView};
use crate::config::LayerType;
use crate::json::{Json, JsonNumber};
use crate::text::same_text;

verus! {

/// Faults that are looked for one after another.
pub trait InOrder: Sized {
    /// This fault, or `later` where there is none.
    spec fn otherwise(self, later: Self) -> Self;
}

impl InOrder for Option<ConfigErrorView> {
    open spec fn otherwise(self, later: Option<ConfigErrorView>) -> Option<ConfigErrorView> {
        if self is Some {
            self
        } else {
            later
        }
    }
}

/// `result` is the fault where there is one, and `value` otherwise.
pub open spec fn reads<T>(
    result: Result<T, ConfigError>,
    fault: Option<ConfigErrorView>,
    value: T,
) -> bool {
    match fault {
        None => result == Ok::<T, ConfigError>(value),
        Some(error) => result is Err && result->Err_0@ == error,
    }
}

pub open spec fn missing_fault(config: Json, field: &'static str) -> Option<ConfigErrorView> {
    if config.field(field@) is None {
        Some(ConfigErrorOf::MissingField { field })
    } else {
        None
    }
}

pub fn required<'a>(
    config: &'a Json,
    field: &'static str,
) -> (result: Result<&'a Json, ConfigError>)
    ensures
        reads(result, missing_fault(*config, field), &config.field(field@)->0),
{
    match config.get(field) {
        Some(value) => Ok(value),
        None => Err(ConfigErrorOf::MissingField { field }),
    }
}

pub open spec fn usize_fault(config: Json, field: &'static str) -> Option<ConfigErrorView> {
    match config.field(field@) {
        None => Some(ConfigErrorOf::MissingField { field }),
        Some(value) => match value.unsigned() {
            None => Some(ConfigErrorOf::NotUnsigned { field }),
            Some(number) => if number > usize::MAX {
                Some(ConfigErrorOf::DoesNotFit { field })
            } else {
                None
            },
        },
    }
}

/// The unsigned integer in `field`.
pub open spec fn usize_at(config: Json, field: &'static str) -> usize {
    config.field(field@)->0.unsigned()->0 as usize
}

pub fn required_usize(config: &Json, field: &'static str) -> (result: Result<usize, ConfigError>)
    ensures
        reads(result, usize_fault(*config, field), usize_at(*config, field)),
{
    match required(config, field)?.as_u64() {
        None => Err(ConfigErrorOf::NotUnsigned { field }),
        Some(value) => {
            if value > usize::MAX as u64 {
                Err(ConfigErrorOf::DoesNotFit { field })
            } else {
                Ok(value as usize)
            }
        },
    }
}

pub open spec fn number_fault(config: Json, field: &'static str) -> Option<ConfigErrorView> {
    match config.field(field@) {
        None => Some(ConfigErrorOf::MissingField { field }),
        Some(Json::Number(_)) => None,
        Some(_) => Some(ConfigErrorOf::NotNumber { field }),
    }
}

/// The number in `field`.
pub open spec fn number_at(config: Json, field: &'static str) -> JsonNumber {
    config.field(field@)->0->Number_0
}

pub fn required_f64(config: &Json, field: &'static str) -> (result: Result<JsonNumber, ConfigError>)
    ensures
        reads(result, number_fault(*config, field), number_at(*config, field)),
{
    match required(config, field)?.as_number() {
        Some(value) => Ok(value),
        None => Err(ConfigErrorOf::NotNumber { field }),
    }
}

pub open spec fn bool_fault(config: Json, field: &'static str) -> Option<ConfigErrorView> {
    match config.field(field@) {
        None => Some(ConfigErrorOf::MissingField { field }),
        Some(Json::Bool(_)) => None,
        Some(_) => Some(ConfigErrorOf::NotBoolean { field }),
    }
}

/// The flag in `field`.
pub open spec fn bool_at(config: Json, field: &'static str) -> bool {
    config.field(field@)->0->Bool_0
}

pub fn required_bool(config: &Json, field: &'static str) -> (result: Result<bool, ConfigError>)
    ensures
        reads(result, bool_fault(*config, field), bool_at(*config, field)),
{
    match required(config, field)?.as_bool() {
        Some(value) => Ok(value),
        None => Err(ConfigErrorOf::NotBoolean { field }),
    }
}

pub open spec fn string_fault(config: Json, field: &'static str) -> Option<ConfigErrorView> {
    match config.field(field@) {
        None => Some(ConfigErrorOf::MissingField { field }),
        Some(Json::String(_)) => None,
        Some(_) => Some(ConfigErrorOf::NotString { field }),
    }
}

/// The text in `field`.
pub open spec fn string_at(config: Json, field: &'static str) -> Seq<char> {
    config.field(field@)->0.text()->0
}

pub fn required_string<'a>(config: &'a Json, field: &'static str) -> (result: Result<
    &'a String,
    ConfigError,
>)
    ensures
        match string_fault(*config, field) {
            None => result is Ok && result->Ok_0@ == string_at(*config, field),
            Some(error) => result is Err && result->Err_0@ == error,
        },
{
    match required(config, field)?.as_string() {
        Some(value) => Ok(value),
        None => Err(ConfigErrorOf::NotString { field }),
    }
}

/// A list with one entry per layer.
#[derive(Clone, Copy, PartialEq, Eq, Debug)]
pub enum LayerList {
    LayerTypes,
    MlpLayerTypes,
    IndexerTypes,
}

impl LayerList {
    pub open spec fn field(self) -> &'static str {
        match self {
            LayerList::LayerTypes => "layer_types",
            LayerList::MlpLayerTypes => "mlp_layer_types",
            LayerList::IndexerTypes => "indexer_types",
        }
    }

    fn field_name(self) -> (field: &'static str)
        ensures
            field == self.field(),
    {
        match self {
            LayerList::LayerTypes => "layer_types",
            LayerList::MlpLayerTypes => "mlp_layer_types",
            LayerList::IndexerTypes => "indexer_types",
        }
    }

    /// The entries that are understood.
    pub open spec fn supports(self, entry: Seq<char>) -> bool {
        match self {
            LayerList::LayerTypes => {
                entry == "linear_attention"@ || entry == "deepseek_sparse_attention"@ || entry
                    == "full_attention"@
            },
            LayerList::MlpLayerTypes => entry == "dense"@ || entry == "sparse"@,
            LayerList::IndexerTypes => entry == "full"@,
        }
    }

    fn is_supported(self, entry: &String) -> (supported: bool)
        ensures
            supported == self.supports(entry@),
    {
        match self {
            LayerList::LayerTypes => {
                same_text(entry, "linear_attention") || same_text(
                    entry,
                    "deepseek_sparse_attention",
                ) || same_text(entry, "full_attention")
            },
            LayerList::MlpLayerTypes => same_text(entry, "dense") || same_text(entry, "sparse"),
            LayerList::IndexerTypes => same_text(entry, "full"),
        }
    }

    pub open spec fn entry_fault(self, entry: Json, index: usize) -> Option<ConfigErrorView> {
        match entry.text() {
            None => Some(ConfigErrorOf::EntryNotString { field: self.field(), index }),
            Some(value) => if self.supports(value) {
                None
            } else if self == LayerList::IndexerTypes && value == "shared"@ {
                Some(ConfigErrorOf::SharedIndexer { index })
            } else {
                Some(ConfigErrorOf::UnsupportedEntry { field: self.field(), index, value })
            },
        }
    }

    fn check_entry(self, entry: &Json, index: usize) -> (result: Result<(), ConfigError>)
        ensures
            reads(result, self.entry_fault(*entry, index), ()),
    {
        let value = match entry.as_string() {
            Some(value) => value,
            None => {
                return Err(ConfigErrorOf::EntryNotString { field: self.field_name(), index });
            },
        };
        if self.is_supported(value) {
            return Ok(());
        }
        match self {
            LayerList::IndexerTypes => {
                if same_text(value, "shared") {
                    return Err(ConfigErrorOf::SharedIndexer { index });
                }
            },
            _ => {},
        }
        Err(
            ConfigErrorOf::UnsupportedEntry {
                field: self.field_name(),
                index,
                value: value.clone(),
            },
        )
    }

    /// The first fault among the first `count` entries.
    pub open spec fn entries_fault(self, entries: Seq<Json>, count: nat) -> Option<ConfigErrorView>
        decreases count,
    {
        if count == 0 {
            None
        } else {
            let last = (count - 1) as nat;
            self.entries_fault(entries, last).otherwise(
                self.entry_fault(entries[last as int], last as usize),
            )
        }
    }

    pub open spec fn fault(self, config: Json, count: usize) -> Option<ConfigErrorView> {
        match config.field(self.field()@) {
            None => Some(ConfigErrorOf::MissingField { field: self.field() }),
            Some(Json::Array(entries)) => if entries@.len() != count {
                Some(
                    ConfigErrorOf::LengthMismatch {
                        field: self.field(),
                        length: entries@.len() as usize,
                        count,
                    },
                )
            } else {
                self.entries_fault(entries@, count as nat)
            },
            Some(_) => Some(ConfigErrorOf::NotArray { field: self.field() }),
        }
    }

    /// The entries of the list.
    pub open spec fn entries(self, config: Json) -> Seq<Json> {
        config.field(self.field()@)->0->Array_0@
    }

    proof fn lemma_fault_stays(self, entries: Seq<Json>, failed: nat, count: nat)
        requires
            failed <= count,
            self.entries_fault(entries, failed) is Some,
        ensures
            self.entries_fault(entries, count) == self.entries_fault(entries, failed),
        decreases count,
    {
        if failed < count {
            self.lemma_fault_stays(entries, failed, (count - 1) as nat);
        }
    }

    proof fn lemma_entry_sound(self, entries: Seq<Json>, count: nat, index: int)
        requires
            self.entries_fault(entries, count) is None,
            0 <= index < count,
        ensures
            self.entry_fault(entries[index], index as usize) is None,
        decreases count,
    {
        if index < count - 1 {
            self.lemma_entry_sound(entries, (count - 1) as nat, index);
        }
    }

    /// Check the list; its entries are then strings that are understood.
    pub fn checked<'a>(self, config: &'a Json, count: usize) -> (result: Result<
        &'a Vec<Json>,
        ConfigError,
    >)
        ensures
            match self.fault(*config, count) {
                None => {
                    &&& result is Ok
                    &&& result->Ok_0@ == self.entries(*config)
                    &&& result->Ok_0@.len() == count
                    &&& forall|i: int|
                        0 <= i < count ==> {
                            &&& (#[trigger] result->Ok_0@[i]) is String
                            &&& self.supports(result->Ok_0@[i].text()->0)
                        }
                },
                Some(error) => result is Err && result->Err_0@ == error,
            },
    {
        let field = self.field_name();
        let entries = match required(config, field)?.as_array() {
            Some(entries) => entries,
            None => {
                return Err(ConfigErrorOf::NotArray { field });
            },
        };
        if entries.len() != count {
            return Err(ConfigErrorOf::LengthMismatch { field, length: entries.len(), count });
        }
        let mut index: usize = 0;
        while index < count
            invariant
                index <= count,
                count == entries@.len(),
                config.field(self.field()@) == Some(Json::Array(*entries)),
                self.entries_fault(entries@, index as nat) is None,
            decreases count - index,
        {
            let checked = self.check_entry(&entries[index], index);
            match checked {
                Ok(()) => {},
                Err(error) => {
                    proof {
                        self.lemma_fault_stays(entries@, (index + 1) as nat, count as nat);
                    }
                    return Err(error);
                },
            }
            index = index + 1;
        }
        proof {
            assert forall|i: int| 0 <= i < count implies {
                &&& (#[trigger] entries@[i]) is String
                &&& self.supports(entries@[i].text()->0)
            } by {
                self.lemma_entry_sound(entries@, count as nat, i);
            }
        }
        Ok(entries)
    }
}

/// How a layer whose entry is `entry` mixes tokens.
pub open spec fn layer_type_of(entry: Json) -> LayerType {
    if entry.text() == Some("linear_attention"@) {
        LayerType::LinearAttention
    } else {
        LayerType::FullAttention
    }
}

pub open spec fn layer_types_of(entries: Seq<Json>) -> Seq<LayerType> {
    entries.map_values(|entry: Json| layer_type_of(entry))
}

/// The type of each of `count` layers.
pub fn layer_types(config: &Json, count: usize) -> (result: Result<Vec<LayerType>, ConfigError>)
    ensures
        match LayerList::LayerTypes.fault(*config, count) {
            None => {
                &&& result is Ok
                &&& result->Ok_0@ == layer_types_of(LayerList::LayerTypes.entries(*config))
                &&& result->Ok_0@.len() == count
            },
            Some(error) => result is Err && result->Err_0@ == error,
        },
{
    let entries = LayerList::LayerTypes.checked(config, count)?;
    let mut types: Vec<LayerType> = Vec::new();
    let mut index: usize = 0;
    while index < count
        invariant
            index <= count,
            count == entries@.len(),
            types@ == layer_types_of(entries@).take(index as int),
        decreases count - index,
    {
        let linear = match entries[index].as_string() {
            Some(text) => same_text(text, "linear_attention"),
            None => false,
        };
        types.push(
            if linear {
                LayerType::LinearAttention
            } else {
                LayerType::FullAttention
            },
        );
        assert(types@ =~= layer_types_of(entries@).take(index + 1));
        index = index + 1;
    }
    assert(types@ =~= layer_types_of(entries@));
    Ok(types)
}

/// The positions of the dense layers among the first `count` entries, in
/// order.
pub open spec fn dense_layers_of(entries: Seq<Json>, count: nat) -> Seq<usize>
    decreases count,
{
    if count == 0 {
        Seq::empty()
    } else {
        let last = (count - 1) as nat;
        let before = dense_layers_of(entries, last);
        if entries[last as int].text() == Some("dense"@) {
            before.push(last as usize)
        } else {
            before
        }
    }
}

/// The layers, of `count`, whose feed-forward block is dense.
pub fn dense_mlp_layers(config: &Json, count: usize) -> (result: Result<Vec<usize>, ConfigError>)
    ensures
        match LayerList::MlpLayerTypes.fault(*config, count) {
            None => {
                &&& result is Ok
                &&& result->Ok_0@ == dense_layers_of(
                    LayerList::MlpLayerTypes.entries(*config),
                    count as nat,
                )
            },
            Some(error) => result is Err && result->Err_0@ == error,
        },
{
    let entries = LayerList::MlpLayerTypes.checked(config, count)?;
    let mut layers: Vec<usize> = Vec::new();
    let mut index: usize = 0;
    while index < count
        invariant
            index <= count,
            count == entries@.len(),
            layers@ == dense_layers_of(entries@, index as nat),
        decreases count - index,
    {
        let dense = match entries[index].as_string() {
            Some(text) => same_text(text, "dense"),
            None => false,
        };
        if dense {
            layers.push(index);
        }
        index = index + 1;
    }
    Ok(layers)
}

/// `count` entries that all read `full`.
pub open spec fn all_full(types: Seq<String>, count: nat) -> bool {
    &&& types.len() == count
    &&& forall|i: int| 0 <= i < count ==> (#[trigger] types[i])@ == "full"@
}

/// The indexer of each of `count` layers.
pub fn indexer_types(config: &Json, count: usize) -> (result: Result<Vec<String>, ConfigError>)
    ensures
        match LayerList::IndexerTypes.fault(*config, count) {
            None => result is Ok && all_full(result->Ok_0@, count as nat),
            Some(error) => result is Err && result->Err_0@ == error,
        },
{
    LayerList::IndexerTypes.checked(config, count)?;
    let mut types: Vec<String> = Vec::new();
    let mut index: usize = 0;
    while index < count
        invariant
            index <= count,
            all_full(types@, index as nat),
        decreases count - index,
    {
        types.push("full".to_owned());
        index = index + 1;
    }
    Ok(types)
}

} // verus!
