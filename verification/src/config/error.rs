//! Why a configuration is refused.
use vstd::prelude::*;

use crate::text::{decimal, decimal_text, joined, occurs};
use vstd::string::StringExecFns;

verus! {

/// A fault of a configuration document; `T` is text taken from it.
#[allow(inconsistent_fields)]
#[derive(PartialEq, Eq, Debug)]
pub enum ConfigErrorOf<T> {
    MissingTextConfig,
    WrongTextModelType,
    EosWithoutInteger,
    NotDeserializable,
    MissingField { field: &'static str },
    NotUnsigned { field: &'static str },
    DoesNotFit { field: &'static str },
    NotNumber { field: &'static str },
    NotBoolean { field: &'static str },
    NotString { field: &'static str },
    NotArray { field: &'static str },
    EosNotArray,
    EosNotInteger,
    EosTooLarge,
    SharedWidthOverflow,
    LengthMismatch { field: &'static str, length: usize, count: usize },
    EntryNotString { field: &'static str, index: usize },
    UnsupportedEntry { field: &'static str, index: usize, value: T },
    SharedIndexer { index: usize },
    GateNotNumber,
    GateOutOfRange,
    CompressionRequired,
    NotMultiHead { kv_heads: usize, heads: usize },
    RotaryUnsupported { rope: usize },
    RoutingUnsupported { scoring: T },
    ZeroPool,
    PoolDoesNotDivide { topk: usize, kpool: usize },
}

pub type ConfigError = ConfigErrorOf<String>;

pub type ConfigErrorView = ConfigErrorOf<Seq<char>>;

impl View for ConfigErrorOf<String> {
    type V = ConfigErrorView;

    open spec fn view(&self) -> ConfigErrorView {
        match *self {
            ConfigErrorOf::MissingTextConfig => ConfigErrorOf::MissingTextConfig,
            ConfigErrorOf::WrongTextModelType => ConfigErrorOf::WrongTextModelType,
            ConfigErrorOf::EosWithoutInteger => ConfigErrorOf::EosWithoutInteger,
            ConfigErrorOf::NotDeserializable => ConfigErrorOf::NotDeserializable,
            ConfigErrorOf::MissingField { field } => ConfigErrorOf::MissingField { field },
            ConfigErrorOf::NotUnsigned { field } => ConfigErrorOf::NotUnsigned { field },
            ConfigErrorOf::DoesNotFit { field } => ConfigErrorOf::DoesNotFit { field },
            ConfigErrorOf::NotNumber { field } => ConfigErrorOf::NotNumber { field },
            ConfigErrorOf::NotBoolean { field } => ConfigErrorOf::NotBoolean { field },
            ConfigErrorOf::NotString { field } => ConfigErrorOf::NotString { field },
            ConfigErrorOf::NotArray { field } => ConfigErrorOf::NotArray { field },
            ConfigErrorOf::EosNotArray => ConfigErrorOf::EosNotArray,
            ConfigErrorOf::EosNotInteger => ConfigErrorOf::EosNotInteger,
            ConfigErrorOf::EosTooLarge => ConfigErrorOf::EosTooLarge,
            ConfigErrorOf::SharedWidthOverflow => ConfigErrorOf::SharedWidthOverflow,
            ConfigErrorOf::LengthMismatch { field, length, count } => {
                ConfigErrorOf::LengthMismatch { field, length, count }
            },
            ConfigErrorOf::EntryNotString { field, index } => {
                ConfigErrorOf::EntryNotString { field, index }
            },
            ConfigErrorOf::UnsupportedEntry { field, index, value } => {
                ConfigErrorOf::UnsupportedEntry { field, index, value: value@ }
            },
            ConfigErrorOf::SharedIndexer { index } => ConfigErrorOf::SharedIndexer { index },
            ConfigErrorOf::GateNotNumber => ConfigErrorOf::GateNotNumber,
            ConfigErrorOf::GateOutOfRange => ConfigErrorOf::GateOutOfRange,
            ConfigErrorOf::CompressionRequired => ConfigErrorOf::CompressionRequired,
            ConfigErrorOf::NotMultiHead { kv_heads, heads } => {
                ConfigErrorOf::NotMultiHead { kv_heads, heads }
            },
            ConfigErrorOf::RotaryUnsupported { rope } => {
                ConfigErrorOf::RotaryUnsupported { rope }
            },
            ConfigErrorOf::RoutingUnsupported { scoring } => {
                ConfigErrorOf::RoutingUnsupported { scoring: scoring@ }
            },
            ConfigErrorOf::ZeroPool => ConfigErrorOf::ZeroPool,
            ConfigErrorOf::PoolDoesNotDivide { topk, kpool } => {
                ConfigErrorOf::PoolDoesNotDivide { topk, kpool }
            },
        }
    }
}

/// A message about field `field` of the text configuration.
pub open spec fn about_field(field: &'static str, complaint: Seq<char>) -> Seq<char> {
    "glm5_next text_config field `"@ + field@ + "` "@ + complaint
}

/// A message about entry `index` of list `field`.
pub open spec fn about_entry(
    field: &'static str,
    index: usize,
    complaint: Seq<char>,
) -> Seq<char> {
    "glm5_next "@ + field@ + "["@ + decimal(index as nat) + "] "@ + complaint
}

impl ConfigErrorOf<Seq<char>> {
    pub open spec fn text(self) -> Seq<char> {
        match self {
            ConfigErrorOf::MissingTextConfig => {
                "glm5_next config missing text_config"@
            },
            ConfigErrorOf::WrongTextModelType => {
                "glm5_next text_config.model_type must be `glm5_next_text`"@
            },
            ConfigErrorOf::EosWithoutInteger => {
                "glm5_next eos_token_id must contain an integer"@
            },
            ConfigErrorOf::NotDeserializable => {
                "failed to deserialize glm5_next text_config"@
            },
            ConfigErrorOf::MissingField { field } => {
                "glm5_next text_config missing required field `"@ + field@ + "`"@
            },
            ConfigErrorOf::NotUnsigned { field } => {
                about_field(field, "must be an unsigned integer"@)
            },
            ConfigErrorOf::DoesNotFit { field } => {
                about_field(field, "does not fit usize"@)
            },
            ConfigErrorOf::NotNumber { field } => {
                about_field(field, "must be a number"@)
            },
            ConfigErrorOf::NotBoolean { field } => {
                about_field(field, "must be a boolean"@)
            },
            ConfigErrorOf::NotString { field } => {
                about_field(field, "must be a string"@)
            },
            ConfigErrorOf::NotArray { field } => {
                about_field(field, "must be an array"@)
            },
            ConfigErrorOf::EosNotArray => {
                "glm5_next eos_token_id must be an array"@
            },
            ConfigErrorOf::EosNotInteger => {
                "glm5_next eos_token_id must contain integers"@
            },
            ConfigErrorOf::EosTooLarge => {
                "glm5_next eos token does not fit u32"@
            },
            ConfigErrorOf::SharedWidthOverflow => {
                "glm5_next shared expert width overflows usize"@
            },
            ConfigErrorOf::LengthMismatch { field, length, count } => {
                "glm5_next "@ + field@ + " length ("@ + decimal(length as nat)
                    + ") does not match num_hidden_layers ("@ + decimal(count as nat) + ")"@
            },
            ConfigErrorOf::EntryNotString { field, index } => {
                about_entry(field, index, "must be a string"@)
            },
            ConfigErrorOf::UnsupportedEntry { field, index, value } => {
                about_entry(field, index, "has unsupported value `"@ + value + "`"@)
            },
            ConfigErrorOf::SharedIndexer { index } => {
                about_entry("indexer_types", index, "= shared is not supported"@)
            },
            ConfigErrorOf::GateNotNumber => {
                "glm5_next linear_attn_config field `gate_lower_bound` must be a number or null"@
            },
            ConfigErrorOf::GateOutOfRange => {
                "glm5_next linear_attn_config field `gate_lower_bound` is outside f32 range"@
            },
            ConfigErrorOf::CompressionRequired => {
                "glm5_next requires index_kpool_compress=true"@
            },
            ConfigErrorOf::NotMultiHead { kv_heads, heads } => {
                "glm5_next requires MHA: num_key_value_heads ("@ + decimal(kv_heads as nat)
                    + ") != num_attention_heads ("@ + decimal(heads as nat) + ")"@
            },
            ConfigErrorOf::RotaryUnsupported { rope } => {
                "glm5_next support requires NoPE DSA, got qk_rope_head_dim="@ + decimal(rope as nat)
            },
            ConfigErrorOf::RoutingUnsupported { scoring } => {
                "glm5_next support requires sigmoid expert routing, got `"@ + scoring + "`"@
            },
            ConfigErrorOf::ZeroPool => {
                "glm5_next index_kpool must be greater than zero"@
            },
            ConfigErrorOf::PoolDoesNotDivide { topk, kpool } => {
                "glm5_next index_topk ("@ + decimal(topk as nat)
                    + ") must be divisible by index_kpool ("@ + decimal(kpool as nat) + ")"@
            },
        }
    }
}

fn field_message(field: &'static str, complaint: &str) -> (message: String)
    ensures
        message@ == about_field(field, complaint@),
{
    let mut text = joined("glm5_next text_config field `", field);
    text.append("` ");
    text.append(complaint);
    text
}

fn entry_message(field: &'static str, index: usize, complaint: &str) -> (message: String)
    ensures
        message@ == about_entry(field, index, complaint@),
{
    let mut text = joined("glm5_next ", field);
    text.append("[");
    let number = decimal_text(index);
    text.append(number.as_str());
    text.append("] ");
    text.append(complaint);
    text
}

/// `first`, then `value` and a closing backquote.
fn quoted(first: &str, value: &str) -> (message: String)
    ensures
        message@ == first@ + value@ + "`"@,
{
    let mut text = joined(first, value);
    text.append("`");
    text
}

impl ConfigErrorOf<String> {
    pub fn message(&self) -> (message: String)
        ensures
            message@ == self@.text(),
    {
        match self {
            ConfigErrorOf::MissingTextConfig => {
                "glm5_next config missing text_config".to_owned()
            },
            ConfigErrorOf::WrongTextModelType => {
                "glm5_next text_config.model_type must be `glm5_next_text`".to_owned()
            },
            ConfigErrorOf::EosWithoutInteger => {
                "glm5_next eos_token_id must contain an integer".to_owned()
            },
            ConfigErrorOf::NotDeserializable => {
                "failed to deserialize glm5_next text_config".to_owned()
            },
            ConfigErrorOf::MissingField { field } => {
                quoted("glm5_next text_config missing required field `", field)
            },
            ConfigErrorOf::NotUnsigned { field } => {
                field_message(field, "must be an unsigned integer")
            },
            ConfigErrorOf::DoesNotFit { field } => {
                field_message(field, "does not fit usize")
            },
            ConfigErrorOf::NotNumber { field } => {
                field_message(field, "must be a number")
            },
            ConfigErrorOf::NotBoolean { field } => {
                field_message(field, "must be a boolean")
            },
            ConfigErrorOf::NotString { field } => {
                field_message(field, "must be a string")
            },
            ConfigErrorOf::NotArray { field } => {
                field_message(field, "must be an array")
            },
            ConfigErrorOf::EosNotArray => {
                "glm5_next eos_token_id must be an array".to_owned()
            },
            ConfigErrorOf::EosNotInteger => {
                "glm5_next eos_token_id must contain integers".to_owned()
            },
            ConfigErrorOf::EosTooLarge => {
                "glm5_next eos token does not fit u32".to_owned()
            },
            ConfigErrorOf::SharedWidthOverflow => {
                "glm5_next shared expert width overflows usize".to_owned()
            },
            ConfigErrorOf::LengthMismatch { field, length, count } => {
                let mut text = joined("glm5_next ", field);
                text.append(" length (");
                let number = decimal_text(*length);
                text.append(number.as_str());
                text.append(") does not match num_hidden_layers (");
                let number = decimal_text(*count);
                text.append(number.as_str());
                text.append(")");
                text
            },
            ConfigErrorOf::EntryNotString { field, index } => {
                entry_message(field, *index, "must be a string")
            },
            ConfigErrorOf::UnsupportedEntry { field, index, value } => {
                let complaint = quoted("has unsupported value `", value.as_str());
                entry_message(field, *index, complaint.as_str())
            },
            ConfigErrorOf::SharedIndexer { index } => {
                entry_message("indexer_types", *index, "= shared is not supported")
            },
            ConfigErrorOf::GateNotNumber => {
                "glm5_next linear_attn_config field `gate_lower_bound` must be a number or null".to_owned()
            },
            ConfigErrorOf::GateOutOfRange => {
                "glm5_next linear_attn_config field `gate_lower_bound` is outside f32 range".to_owned()
            },
            ConfigErrorOf::CompressionRequired => {
                "glm5_next requires index_kpool_compress=true".to_owned()
            },
            ConfigErrorOf::NotMultiHead { kv_heads, heads } => {
                let number = decimal_text(*kv_heads);
                let mut text = joined(
                    "glm5_next requires MHA: num_key_value_heads (",
                    number.as_str(),
                );
                text.append(") != num_attention_heads (");
                let number = decimal_text(*heads);
                text.append(number.as_str());
                text.append(")");
                text
            },
            ConfigErrorOf::RotaryUnsupported { rope } => {
                let number = decimal_text(*rope);
                joined(
                    "glm5_next support requires NoPE DSA, got qk_rope_head_dim=",
                    number.as_str(),
                )
            },
            ConfigErrorOf::RoutingUnsupported { scoring } => {
                quoted("glm5_next support requires sigmoid expert routing, got `", scoring.as_str())
            },
            ConfigErrorOf::ZeroPool => {
                "glm5_next index_kpool must be greater than zero".to_owned()
            },
            ConfigErrorOf::PoolDoesNotDivide { topk, kpool } => {
                let number = decimal_text(*topk);
                let mut text = joined("glm5_next index_topk (", number.as_str());
                text.append(") must be divisible by index_kpool (");
                let number = decimal_text(*kpool);
                text.append(number.as_str());
                text.append(")");
                text
            },
        }
    }
}

/// The field that an error is about, as far as it is about one.
pub open spec fn field_of(error: ConfigErrorView) -> Option<Seq<char>> {
    match error {
        ConfigErrorOf::MissingTextConfig => Some("text_config"@),
        ConfigErrorOf::MissingField { field } => Some(field@),
        ConfigErrorOf::NotUnsigned { field } => Some(field@),
        ConfigErrorOf::DoesNotFit { field } => Some(field@),
        ConfigErrorOf::NotNumber { field } => Some(field@),
        ConfigErrorOf::NotBoolean { field } => Some(field@),
        ConfigErrorOf::NotString { field } => Some(field@),
        ConfigErrorOf::NotArray { field } => Some(field@),
        ConfigErrorOf::LengthMismatch { field, .. } => Some(field@),
        ConfigErrorOf::EntryNotString { field, .. } => Some(field@),
        ConfigErrorOf::UnsupportedEntry { field, .. } => Some(field@),
        ConfigErrorOf::SharedIndexer { .. } => Some("indexer_types"@),
        ConfigErrorOf::ZeroPool => Some("index_kpool"@),
        _ => None,
    }
}

/// A message names the field that is at fault.
pub proof fn law_message_names_the_field(error: ConfigErrorView)
    ensures
        field_of(error) matches Some(field) ==> occurs(field, error.text()),
        error is DoesNotFit ==> occurs("usize"@, error.text()),
{
    let text = error.text();
    let none = Seq::<char>::empty();
    match error {
        ConfigErrorOf::MissingTextConfig => {
            reveal_strlit("glm5_next config missing text_config");
            reveal_strlit("text_config");
            assert(text =~= text.take(25) + "text_config"@ + none);
        },
        ConfigErrorOf::MissingField { field } => {
            assert(text == "glm5_next text_config missing required field `"@ + field@ + "`"@);
        },
        ConfigErrorOf::NotUnsigned { field } => {
            lemma_about_field(field, "must be an unsigned integer"@);
        },
        ConfigErrorOf::DoesNotFit { field } => {
            lemma_about_field(field, "does not fit usize"@);
            reveal_strlit("does not fit usize");
            reveal_strlit("usize");
            let before = "glm5_next text_config field `"@ + field@ + "` "@ + "does not fit usize"@.take(
                13,
            );
            assert(text =~= before + "usize"@ + none);
        },
        ConfigErrorOf::NotNumber { field } => {
            lemma_about_field(field, "must be a number"@);
        },
        ConfigErrorOf::NotBoolean { field } => {
            lemma_about_field(field, "must be a boolean"@);
        },
        ConfigErrorOf::NotString { field } => {
            lemma_about_field(field, "must be a string"@);
        },
        ConfigErrorOf::NotArray { field } => {
            lemma_about_field(field, "must be an array"@);
        },
        ConfigErrorOf::LengthMismatch { field, length, count } => {
            let after = " length ("@ + decimal(length as nat)
                + ") does not match num_hidden_layers ("@ + decimal(count as nat) + ")"@;
            assert(text =~= "glm5_next "@ + field@ + after);
        },
        ConfigErrorOf::EntryNotString { field, index } => {
            lemma_about_entry(field, index, "must be a string"@);
        },
        ConfigErrorOf::UnsupportedEntry { field, index, value } => {
            lemma_about_entry(field, index, "has unsupported value `"@ + value + "`"@);
        },
        ConfigErrorOf::SharedIndexer { index } => {
            lemma_about_entry("indexer_types", index, "= shared is not supported"@);
        },
        ConfigErrorOf::ZeroPool => {
            reveal_strlit("glm5_next index_kpool must be greater than zero");
            reveal_strlit("index_kpool");
            assert(text =~= text.take(10) + "index_kpool"@ + text.skip(21));
        },
        _ => {},
    }
}

proof fn lemma_about_field(field: &'static str, complaint: Seq<char>)
    ensures
        occurs(field@, about_field(field, complaint)),
{
    let after = "` "@ + complaint;
    assert(about_field(field, complaint) =~= "glm5_next text_config field `"@ + field@ + after);
}

proof fn lemma_about_entry(field: &'static str, index: usize, complaint: Seq<char>)
    ensures
        occurs(field@, about_entry(field, index, complaint)),
{
    let after = "["@ + decimal(index as nat) + "] "@ + complaint;
    assert(about_entry(field, index, complaint) =~= "glm5_next "@ + field@ + after);
}

} // verus!
