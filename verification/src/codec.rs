//! JSON text: the boundary to `serde_json`.
use crate::json::{
    from_value, is_plain, items_view, json_of, to_value, value_of, Json, JsonObject, JsonV,
    MAX_NESTING,
};
use crate::text::texts;
use vstd::pervasive::unreached;
use vstd::prelude::*;

verus! {

/// The outcome of `serde_json::to_vec_pretty`: bytes, or the text of the error.
pub uninterp spec fn pretty_text(value: serde_json::Value) -> Result<Seq<u8>, Seq<char>>;

/// The outcome of `serde_json::from_slice` into a map: the object that the bytes
/// are, or the text of the error.
pub uninterp spec fn parsed_object(bytes: Seq<u8>) -> Result<serde_json::Value, Seq<char>>;

/// The outcome of `serde_json::from_slice` into a `Vec<String>`: the texts that the
/// bytes list, or the text of the error.
pub uninterp spec fn parsed_texts(bytes: Seq<u8>) -> Result<Seq<Seq<char>>, Seq<char>>;

/// The array of the texts.
pub open spec fn text_array(list: Seq<Seq<char>>) -> JsonV {
    JsonV::Array(Seq::new(list.len(), |i: int| JsonV::Str(list[i])))
}

/// The texts of an array that holds nothing else.
pub open spec fn texts_in(json: JsonV) -> Option<Seq<Seq<char>>> {
    match json {
        JsonV::Array(items) => if forall|i: int|
            0 <= i < items.len() ==> (#[trigger] items[i]) is Str {
            Some(Seq::new(items.len(), |i: int| items[i]->Str_0))
        } else {
            None
        },
        _ => None,
    }
}

/// `serde_json::to_vec_pretty` on a `Value`: the outcome depends on the value
/// alone, and what is written is never empty. A plain value is always written, the
/// text of a plain object parses back to it, and that of an array of texts parses
/// back to those texts.
#[verifier::external_body]
fn to_vec_pretty(value: &serde_json::Value) -> (r: Result<Vec<u8>, String>)
    ensures
        match r {
            Ok(bytes) => pretty_text(*value) == Ok::<Seq<u8>, Seq<char>>(bytes@),
            Err(e) => pretty_text(*value) == Err::<Seq<u8>, Seq<char>>(e@),
        },
        is_plain(json_of(*value), MAX_NESTING as nat) ==> r is Ok && (json_of(*value) is Object
            ==> parsed_object(r->Ok_0@) == Ok::<serde_json::Value, Seq<char>>(*value)),
        r matches Ok(bytes) ==> bytes@.len() > 0 && (texts_in(json_of(*value)) matches Some(list)
            ==> parsed_texts(bytes@) == Ok::<Seq<Seq<char>>, Seq<char>>(list)),
{
    serde_json::to_vec_pretty(value).map_err(|e| e.to_string())
}

/// `serde_json::from_slice` into a `serde_json::Map`, carried on as a `Value`: the
/// outcome depends on the bytes alone, and is an object where there is one.
#[verifier::external_body]
fn from_slice(bytes: &[u8]) -> (r: Result<serde_json::Value, String>)
    ensures
        match r {
            Ok(value) => parsed_object(bytes@) == Ok::<serde_json::Value, Seq<char>>(value)
                && json_of(value) is Object,
            Err(e) => parsed_object(bytes@) == Err::<serde_json::Value, Seq<char>>(e@),
        },
{
    serde_json::from_slice::<serde_json::Map<String, serde_json::Value>>(bytes)
        .map(serde_json::Value::Object)
        .map_err(|e| e.to_string())
}

/// `serde_json::from_slice` into a `Vec<String>`: the outcome depends on the bytes
/// alone.
#[verifier::external_body]
fn texts_from_slice(bytes: &[u8]) -> (r: Result<Vec<String>, String>)
    ensures
        match r {
            Ok(list) => parsed_texts(bytes@) == Ok::<Seq<Seq<char>>, Seq<char>>(texts(list@)),
            Err(e) => parsed_texts(bytes@) == Err::<Seq<Seq<char>>, Seq<char>>(e@),
        },
{
    serde_json::from_slice::<Vec<String>>(bytes).map_err(|e| e.to_string())
}

/// Pretty JSON text of a value.
pub open spec fn encoded(json: JsonV) -> Option<Seq<u8>> {
    match pretty_text(value_of(json)) {
        Ok(bytes) => Some(bytes),
        Err(_) => None,
    }
}

/// Why a value has no JSON text.
pub open spec fn encode_fault(json: JsonV) -> Seq<char> {
    pretty_text(value_of(json))->Err_0
}

/// The object that JSON text stands for.
pub open spec fn decoded(bytes: Seq<u8>) -> Option<Map<Seq<char>, JsonV>> {
    match parsed_object(bytes) {
        Ok(value) => Some(json_of(value)->Object_0),
        Err(_) => None,
    }
}

/// Why bytes are no JSON text of an object.
pub open spec fn decode_fault(bytes: Seq<u8>) -> Seq<char> {
    parsed_object(bytes)->Err_0
}

/// The bytes are the text of an object, which reads back as it where it is plain.
pub open spec fn is_text_of(bytes: Seq<u8>, members: Map<Seq<char>, JsonV>) -> bool {
    &&& encoded(JsonV::Object(members)) == Some(bytes)
    &&& is_plain(JsonV::Object(members), MAX_NESTING as nat) ==> decoded(bytes) == Some(members)
}

/// Writes a value as pretty JSON text. The text of a plain value always exists,
/// and that of a plain object reads back as that object.
pub fn encode(json: &Json) -> (r: Result<Vec<u8>, String>)
    ensures
        match r {
            Ok(bytes) => encoded(json@) == Some(bytes@),
            Err(e) => encoded(json@) is None && e@ == encode_fault(json@),
        },
        is_plain(json@, MAX_NESTING as nat) ==> r is Ok && (json@ matches JsonV::Object(members)
            ==> decoded(r->Ok_0@) == Some(members)),
{
    to_vec_pretty(&to_value(json))
}

/// Reads the JSON text of an object.
pub fn decode(bytes: &[u8]) -> (r: Result<JsonObject, String>)
    ensures
        match r {
            Ok(object) => decoded(bytes@) == Some(object@),
            Err(e) => decoded(bytes@) is None && e@ == decode_fault(bytes@),
        },
{
    match from_slice(bytes) {
        Ok(value) => match from_value(&value) {
            Json::Object(object) => Ok(object),
            _ => unreached(),
        },
        Err(e) => Err(e),
    }
}

/// Writes texts as the pretty JSON text of an array, which reads back as those
/// texts.
pub fn encode_texts(list: &Vec<String>) -> (bytes: Vec<u8>)
    ensures
        encoded(text_array(texts(list@))) == Some(bytes@),
        parsed_texts(bytes@) == Ok::<Seq<Seq<char>>, Seq<char>>(texts(list@)),
        bytes@.len() > 0,
{
    let mut items: Vec<Json> = Vec::new();
    let mut i: usize = 0;
    while i < list.len()
        invariant
            i <= list@.len(),
            items_view(items@) == Seq::new(i as nat, |j: int| JsonV::Str(list@[j]@)),
        decreases list.len() - i,
    {
        let ghost before = items@;
        items.push(Json::text(list[i].as_str()));
        assert(items@.drop_last() =~= before);
        assert(items_view(items@) =~= Seq::new((i + 1) as nat, |j: int| JsonV::Str(list@[j]@)));
        i += 1;
    }
    let json = Json::Array(items);
    proof {
        assert(json@ == text_array(texts(list@))) by {
            assert(items_view(items@) =~= Seq::new(
                texts(list@).len(),
                |j: int| JsonV::Str(texts(list@)[j]),
            ));
        }
        reveal_with_fuel(is_plain, 2);
        assert(is_plain(json@, MAX_NESTING as nat));
        assert(texts_in(json@) == Some(texts(list@))) by {
            assert(texts_in(json@)->0 =~= texts(list@));
        }
    }
    match to_vec_pretty(&to_value(&json)) {
        Ok(bytes) => bytes,
        Err(_) => unreached(),
    }
}

/// Reads the JSON text of an array of texts.
pub fn decode_texts(bytes: &[u8]) -> (r: Result<Vec<String>, String>)
    ensures
        match parsed_texts(bytes@) {
            Ok(list) => r matches Ok(out) && texts(out@) == list,
            Err(fault) => r matches Err(e) && e@ == fault,
        },
{
    texts_from_slice(bytes)
}

} // verus!
