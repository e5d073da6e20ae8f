//! The text configuration, as deserialising it by field name takes it.
//!
//! That deserialisation knows neither a list of end-of-sequence tokens nor the
//! layer types of this model.
use vstd::prelude::*;

use crate::config::error::{ConfigError, ConfigErrorOf};
use crate::config::fields::InOrder;
use crate::config::parse::{
    primary_fault, primary_of, primary_token, text_fault, text_of, text_section,
};
use crate::json::{
    document, lemma_lookup_without, lookup, value_document, without, Json, JsonMember, JsonNumber,
};
use crate::text::same_text;

verus! {

/// What becomes of a member of the text configuration: itself, except that the
/// first token, `primary`, stands for a list of end-of-sequence tokens.
pub open spec fn stands_for(
    member: JsonMember,
    source: JsonMember,
    primary: Option<u64>,
) -> bool {
    &&& member.key@ == source.key@
    &&& if source.key@ == "eos_token_id"@ && primary is Some {
        member.value == Json::Number(JsonNumber::PosInt(primary->0))
    } else {
        source.value.same(member.value)
    }
}

/// `result` holds the members of `text` in order, without `layer_types`, and
/// with one end-of-sequence token in place of a list.
pub open spec fn deserializable(text: Json, result: Json) -> bool {
    match (text, result) {
        (Json::Object(members), Json::Object(found)) => {
            let kept = without(members@, "layer_types"@);
            &&& found@.len() == kept.len()
            &&& forall|i: int|
                0 <= i < kept.len() ==> stands_for(#[trigger] found@[i], kept[i], primary_of(text))
        },
        _ => false,
    }
}

/// The text section of a configuration, as deserialising it by field name takes
/// it.
pub fn deserialized_text(raw: &Json) -> (result: Result<Json, ConfigError>)
    ensures
        match text_fault(*raw).otherwise(primary_fault(text_of(*raw))) {
            None => result is Ok && deserializable(text_of(*raw), result->Ok_0),
            Some(error) => result is Err && result->Err_0@ == error,
        },
{
    let text = text_section(raw)?;
    let primary = primary_token(text)?;
    match text {
        Json::Object(members) => Ok(Json::Object(kept_members(members, primary))),
        _ => Err(ConfigErrorOf::WrongTextModelType),
    }
}

/// As [`deserialized_text`], of a document as `serde_json` holds it.
pub fn serde_text(raw: &serde_json::Value) -> (result: Result<Json, ConfigError>)
    ensures
        match text_fault(value_document(*raw)).otherwise(
            primary_fault(text_of(value_document(*raw))),
        ) {
            None => result is Ok && deserializable(text_of(value_document(*raw)), result->Ok_0),
            Some(error) => result is Err && result->Err_0@ == error,
        },
{
    let raw = document(raw);
    deserialized_text(&raw)
}

fn kept_members(members: &Vec<JsonMember>, primary: Option<u64>) -> (found: Vec<JsonMember>)
    ensures
        found@.len() == without(members@, "layer_types"@).len(),
        forall|i: int|
            0 <= i < found@.len() ==> stands_for(
                #[trigger] found@[i],
                without(members@, "layer_types"@)[i],
                primary,
            ),
{
    let mut found: Vec<JsonMember> = Vec::new();
    let ghost all = without(members@, "layer_types"@);
    let ghost mut kept: Seq<JsonMember> = Seq::empty();
    let mut i: usize = 0;
    assert(members@.skip(0) =~= members@);
    assert(all =~= kept + without(members@.skip(0), "layer_types"@));
    while i < members.len()
        invariant
            i <= members.len(),
            all == kept + without(members@.skip(i as int), "layer_types"@),
            found@.len() == kept.len(),
            forall|j: int|
                0 <= j < kept.len() ==> stands_for(#[trigger] found@[j], kept[j], primary),
        decreases members.len() - i,
    {
        let member = &members[i];
        let ghost rest = without(members@.skip(i + 1), "layer_types"@);
        proof {
            assert(members@.skip(i as int).drop_first() =~= members@.skip(i + 1));
        }
        if !same_text(&member.key, "layer_types") {
            let value = match primary {
                Some(primary) => if same_text(&member.key, "eos_token_id") {
                    Json::Number(JsonNumber::PosInt(primary))
                } else {
                    member.value.copy()
                },
                None => member.value.copy(),
            };
            found.push(JsonMember { key: member.key.clone(), value });
            proof {
                assert(kept + (seq![*member] + rest) =~= kept.push(*member) + rest);
                kept = kept.push(*member);
            }
        }
        i = i + 1;
    }
    assert(members@.skip(i as int).len() == 0);
    assert(all =~= kept);
    found
}

/// Whether a value is what becomes of a field of the text configuration.
pub open spec fn field_stands_for(
    found: Option<Json>,
    source: Option<Json>,
    replaced: Option<u64>,
) -> bool {
    match (found, source) {
        (None, None) => true,
        (Some(found), Some(source)) => match replaced {
            Some(primary) => found == Json::Number(JsonNumber::PosInt(primary)),
            None => source.same(found),
        },
        _ => false,
    }
}

proof fn lemma_fields_stand_for(
    found: Seq<JsonMember>,
    kept: Seq<JsonMember>,
    primary: Option<u64>,
    key: Seq<char>,
)
    requires
        found.len() == kept.len(),
        forall|i: int| 0 <= i < kept.len() ==> stands_for(#[trigger] found[i], kept[i], primary),
    ensures
        field_stands_for(
            lookup(found, key),
            lookup(kept, key),
            if key == "eos_token_id"@ {
                primary
            } else {
                None
            },
        ),
    decreases kept.len(),
{
    if kept.len() > 0 {
        assert(stands_for(found[0], kept[0], primary));
        let later = found.drop_first();
        let later_kept = kept.drop_first();
        assert forall|i: int| 0 <= i < later_kept.len() implies stands_for(
            #[trigger] later[i],
            later_kept[i],
            primary,
        ) by {
            assert(later[i] == found[i + 1]);
        }
        lemma_fields_stand_for(later, later_kept, primary, key);
    }
}

/// Deserialising by name sees the fields of the text configuration, whatever
/// their names, but for two: there are no `layer_types`, and a list under
/// `eos_token_id` gives way to its first token.
pub proof fn law_deserialized_fields(text: Json, result: Json, key: Seq<char>)
    requires
        deserializable(text, result),
    ensures
        key == "layer_types"@ ==> result.field(key) is None,
        key != "layer_types"@ && key != "eos_token_id"@ ==> field_stands_for(
            result.field(key),
            text.field(key),
            None,
        ),
        key == "eos_token_id"@ ==> field_stands_for(
            result.field(key),
            text.field(key),
            primary_of(text),
        ),
{
    reveal_strlit("layer_types");
    reveal_strlit("eos_token_id");
    let members = text->Object_0@;
    let found = result->Object_0@;
    let kept = without(members, "layer_types"@);
    lemma_lookup_without(members, "layer_types"@, key);
    lemma_fields_stand_for(found, kept, primary_of(text), key);
    if key == "layer_types"@ {
        assert("layer_types"@.len() != "eos_token_id"@.len());
    }
}

} // verus!
