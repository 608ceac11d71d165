//! The entry codec: between the fields of a stream entry, which the broker
//! keeps as bytes, and the JSON object from which the entry's type is read and
//! into which it is written.

use crate::reactor::broker::{
    entry_fields, error_code, error_description, error_detail, fields_of, is_io_failure,
    is_type_error, type_error, RawValue,
};
use crate::reactor::error::ParseError;
use crate::reactor::field_map::{no_text, FieldMap};
use crate::reactor::json::{
    as_object, entries_of, insert_field, json_kind, json_object, json_text, kind_of,
    new_object, no_fields, number_text, number_to_string, object_fields, object_value,
    string_value, text_value, to_json_text, JsonKind,
};
use redis::streams::StreamId;
use serde_json::Value;
use std::str::Utf8Error;
use vstd::prelude::*;
use vstd::string::StringSliceAdditionalSpecFns;
use vstd::utf8::{
    decode_utf8, encode_utf8, encode_utf8_decode_utf8, encode_utf8_valid_utf8, valid_utf8,
};

verus! {

/// `std::str::from_utf8`: the bytes as a string, where they are valid UTF-8.
#[verifier::external_body]
fn text_of(bytes: &[u8]) -> (text: Result<&str, Utf8Error>)
    ensures
        text is Ok <==> valid_utf8(bytes@),
        text matches Ok(s) ==> s.spec_bytes() == bytes@,
{
    std::str::from_utf8(bytes)
}

/// Whether the value of a field is text: a bulk string of valid UTF-8.
pub open spec fn is_text(value: Option<Seq<u8>>) -> bool {
    match value {
        Some(bytes) => valid_utf8(bytes),
        None => false,
    }
}

/// The text of a field's value.
pub open spec fn text(value: Option<Seq<u8>>) -> Seq<char> {
    decode_utf8(value.unwrap())
}

/// The fields by name and bytes.
pub open spec fn raw_pairs(fields: Seq<(String, RawValue)>) -> Seq<(Seq<char>, Option<Seq<u8>>)> {
    fields.map_values(|f: (String, RawValue)| (f.0@, f.1.bytes()))
}

/// The index of the first field from `i` on whose value is not text.
pub open spec fn fault_from(fields: Seq<(Seq<char>, Option<Seq<u8>>)>, i: int) -> Option<int>
    decreases fields.len() - i,
{
    if i < 0 || i >= fields.len() {
        None
    } else if !is_text(fields[i].1) {
        Some(i)
    } else {
        fault_from(fields, i + 1)
    }
}

/// The entries of the JSON object that fields in a given order make: each
/// value as a JSON string, a later field replacing an earlier one of its name.
pub open spec fn collected(fields: Seq<(Seq<char>, Option<Seq<u8>>)>) -> Map<Seq<char>, Value>
    decreases fields.len(),
{
    if fields.len() == 0 {
        no_fields()
    } else {
        collected(fields.drop_last()).insert(fields.last().0, text_value(text(fields.last().1)))
    }
}

/// Whether `v` is the JSON object with the entries `fields`.
pub open spec fn is_object_of(v: Value, fields: Map<Seq<char>, Value>) -> bool {
    match json_object(v) {
        Some(object) => object_fields(object) == fields,
        None => false,
    }
}

/// Whether `err` is the failure that a field with the given value causes: a
/// value that is no bulk string is a type error of the broker's reply, a bulk
/// string that is no text a UTF-8 error.
pub open spec fn is_fault_of(value: Option<Seq<u8>>, err: ParseError) -> bool {
    match value {
        None => {
            &&& err is Redis
            &&& is_type_error(err->Redis_0)
            &&& !is_io_failure(err->Redis_0)
            &&& error_description(err->Redis_0) == "invalid response type for JSON"@
            &&& error_detail(err->Redis_0) is None
            &&& error_code(err->Redis_0) is None
        },
        Some(_) => err is Utf8,
    }
}

/// Whether every field of an entry is text.
pub open spec fn all_text(fields: Map<Seq<char>, Option<Seq<u8>>>) -> bool {
    forall|name: Seq<char>| fields.dom().contains(name) ==> is_text(#[trigger] fields[name])
}

/// The entries of the JSON object that the fields of an entry make: each
/// value as a JSON string.
pub open spec fn decoded(fields: Map<Seq<char>, Option<Seq<u8>>>) -> Map<Seq<char>, Value> {
    Map::new(
        |name: Seq<char>| fields.dom().contains(name),
        |name: Seq<char>| text_value(text(fields[name])),
    )
}

/// The text under which a top-level value of an entry goes to the broker:
/// `true` or `false` for a boolean, a number as it is written, a string as it
/// is, an array or an object as its JSON text. `null` has none and is left
/// out; nor has an array or object that cannot be written.
pub open spec fn field_text(v: Value) -> Option<Seq<char>> {
    match json_kind(v) {
        JsonKind::Null => None,
        JsonKind::Bool(b) => Some(
            if b {
                "true"@
            } else {
                "false"@
            },
        ),
        JsonKind::Number(n) => Some(number_text(n)),
        JsonKind::Text(s) => Some(s@),
        JsonKind::Array => json_text(v),
        JsonKind::Object => json_text(v),
    }
}

/// Whether a top-level value can go to the broker: it is left out, or has a
/// text.
pub open spec fn encodable(v: Value) -> bool {
    json_kind(v) is Null || field_text(v) is Some
}

/// Whether every top-level value of an object can go to the broker.
pub open spec fn all_encodable(fields: Map<Seq<char>, Value>) -> bool {
    forall|name: Seq<char>| fields.dom().contains(name) ==> encodable(#[trigger] fields[name])
}

/// The field map of an object: each entry that is not `null`, under its text.
pub open spec fn encoded(fields: Map<Seq<char>, Value>) -> Map<Seq<char>, Seq<char>> {
    Map::new(
        |name: Seq<char>| fields.dom().contains(name) && field_text(fields[name]) is Some,
        |name: Seq<char>| field_text(fields[name]).unwrap(),
    )
}

/// The field map that entries in a given order make.
pub open spec fn encoded_in_order(entries: Seq<(String, Value)>) -> Map<Seq<char>, Seq<char>>
    decreases entries.len(),
{
    if entries.len() == 0 {
        Map::empty()
    } else {
        let rest = encoded_in_order(entries.drop_last());
        match field_text(entries.last().1) {
            Some(t) => rest.insert(entries.last().0@, t),
            None => rest,
        }
    }
}

proof fn lemma_fault_from(fields: Seq<(Seq<char>, Option<Seq<u8>>)>, i: int)
    requires
        0 <= i,
    ensures
        (match fault_from(fields, i) {
            Some(k) => i <= k < fields.len() && !is_text(fields[k].1) && forall|j: int|
                i <= j < k ==> is_text(#[trigger] fields[j].1),
            None => forall|j: int| i <= j < fields.len() ==> is_text(#[trigger] fields[j].1),
        }),
    decreases fields.len() - i,
{
    if i < fields.len() && is_text(fields[i].1) {
        lemma_fault_from(fields, i + 1);
    }
}

proof fn lemma_collected(fields: Seq<(Seq<char>, Option<Seq<u8>>)>)
    requires
        forall|i: int, j: int|
            0 <= i < j < fields.len() ==> (#[trigger] fields[i]).0 != (#[trigger] fields[j]).0,
    ensures
        forall|i: int|
            0 <= i < fields.len() ==> collected(fields).contains_pair(
                (#[trigger] fields[i]).0,
                text_value(text(fields[i].1)),
            ),
        forall|name: Seq<char>|
            collected(fields).dom().contains(name) ==> exists|i: int|
                0 <= i < fields.len() && (#[trigger] fields[i]).0 == name,
    decreases fields.len(),
{
    if fields.len() > 0 {
        let rest = fields.drop_last();
        lemma_collected(rest);
        assert forall|i: int| 0 <= i < fields.len() implies collected(fields).contains_pair(
            (#[trigger] fields[i]).0,
            text_value(text(fields[i].1)),
        ) by {
            if i < fields.len() - 1 {
                assert(rest[i] == fields[i]);
            }
        }
        assert forall|name: Seq<char>| collected(fields).dom().contains(name) implies exists|
            i: int,
        |
            0 <= i < fields.len() && (#[trigger] fields[i]).0 == name by {
            if name == fields.last().0 {
                assert(fields[fields.len() - 1].0 == name);
            } else {
                assert(collected(rest).dom().contains(name));
                let i = choose|i: int| 0 <= i < rest.len() && (#[trigger] rest[i]).0 == name;
                assert(fields[i] == rest[i]);
            }
        }
    }
}

proof fn lemma_encoded_in_order(entries: Seq<(String, Value)>)
    requires
        forall|i: int, j: int|
            0 <= i < j < entries.len() ==> (#[trigger] entries[i]).0@ != (#[trigger] entries[j]).0@,
    ensures
        forall|i: int|
            0 <= i < entries.len() && field_text((#[trigger] entries[i]).1) is Some
                ==> encoded_in_order(entries).contains_pair(
                entries[i].0@,
                field_text(entries[i].1).unwrap(),
            ),
        forall|name: Seq<char>|
            encoded_in_order(entries).dom().contains(name) ==> exists|i: int|
                0 <= i < entries.len() && (#[trigger] entries[i]).0@ == name && field_text(
                    entries[i].1,
                ) is Some,
    decreases entries.len(),
{
    if entries.len() > 0 {
        let rest = entries.drop_last();
        lemma_encoded_in_order(rest);
        assert forall|i: int|
            0 <= i < entries.len() && field_text(
                (#[trigger] entries[i]).1,
            ) is Some implies encoded_in_order(entries).contains_pair(
            entries[i].0@,
            field_text(entries[i].1).unwrap(),
        ) by {
            if i < entries.len() - 1 {
                assert(rest[i] == entries[i]);
            }
        }
        assert forall|name: Seq<char>|
            encoded_in_order(entries).dom().contains(name) implies exists|i: int|
            0 <= i < entries.len() && (#[trigger] entries[i]).0@ == name && field_text(
                entries[i].1,
            ) is Some by {
            if name == entries.last().0@ && field_text(entries.last().1) is Some {
                assert(entries[entries.len() - 1].0@ == name);
            } else {
                assert(encoded_in_order(rest).dom().contains(name));
                let i = choose|i: int|
                    0 <= i < rest.len() && (#[trigger] rest[i]).0@ == name && field_text(
                        rest[i].1,
                    ) is Some;
                assert(entries[i] == rest[i]);
            }
        }
    }
}

/// A field map as the broker hands it back in an entry: each value a bulk
/// string of the UTF-8 bytes of its text.
pub open spec fn on_the_wire(fields: Map<Seq<char>, Seq<char>>) -> Map<
    Seq<char>,
    Option<Seq<u8>>,
> {
    Map::new(
        |name: Seq<char>| fields.dom().contains(name),
        |name: Seq<char>| Some(encode_utf8(fields[name])),
    )
}

/// What is written can be read, and comes back as it was written: the fields
/// of an object, once through the broker, decode; the object read back holds
/// exactly the entries that were not `null`, each as the JSON string of the
/// text it went out as. A string comes back as the string of the same text,
/// and an object without `null` entries gets every name back.
pub proof fn lemma_round_trip(fields: Map<Seq<char>, Value>)
    ensures
        all_text(on_the_wire(encoded(fields))),
        forall|name: Seq<char>|
            fields.dom().contains(name) && field_text(fields[name]) is Some ==> (
            #[trigger] decoded(on_the_wire(encoded(fields))).contains_pair(
                name,
                text_value(field_text(fields[name]).unwrap()),
            )),
        forall|name: Seq<char>| #[trigger]
            decoded(on_the_wire(encoded(fields))).dom().contains(name) ==> fields.dom().contains(
                name,
            ) && field_text(fields[name]) is Some,
        forall|name: Seq<char>|
            fields.dom().contains(name) && json_kind(fields[name]) is Text ==> #[trigger] decoded(
                on_the_wire(encoded(fields)),
            )[name] == text_value(json_kind(fields[name])->Text_0@),
        (forall|name: Seq<char>|
            fields.dom().contains(name) ==> field_text(#[trigger] fields[name]) is Some)
            ==> decoded(on_the_wire(encoded(fields))).dom() == fields.dom(),
{
    let wire = on_the_wire(encoded(fields));
    assert forall|name: Seq<char>| wire.dom().contains(name) implies is_text(
        #[trigger] wire[name],
    ) by {
        encode_utf8_valid_utf8(encoded(fields)[name]);
    }
    assert forall|name: Seq<char>|
        fields.dom().contains(name) && field_text(fields[name]) is Some implies (
    #[trigger] decoded(wire).contains_pair(name, text_value(field_text(fields[name]).unwrap()))) by {
        encode_utf8_decode_utf8(field_text(fields[name]).unwrap());
    }
    assert forall|name: Seq<char>|
        fields.dom().contains(name) && json_kind(fields[name]) is Text implies #[trigger] decoded(
        wire,
    )[name] == text_value(json_kind(fields[name])->Text_0@) by {
        encode_utf8_decode_utf8(field_text(fields[name]).unwrap());
    }
    if forall|name: Seq<char>|
        fields.dom().contains(name) ==> field_text(#[trigger] fields[name]) is Some {
        assert(decoded(wire).dom() =~= fields.dom());
    }
}

/// Reads fields in the order given into a JSON object of strings. The first
/// field whose value is no text decides the failure; without one the object
/// holds every field, a later one in place of an earlier one of its name.
pub fn decode_fields(fields: &Vec<(String, RawValue)>) -> (outcome: Result<Value, ParseError>)
    ensures
        (match fault_from(raw_pairs(fields@), 0) {
            None => outcome is Ok && is_object_of(outcome->Ok_0, collected(raw_pairs(fields@))),
            Some(i) => outcome is Err && is_fault_of(raw_pairs(fields@)[i].1, outcome->Err_0),
        }),
{
    let ghost raw = raw_pairs(fields@);
    let mut object = new_object();
    let mut i: usize = 0;
    while i < fields.len()
        invariant
            0 <= i <= fields@.len(),
            raw == raw_pairs(fields@),
            fault_from(raw, 0) == fault_from(raw, i as int),
            object_fields(object) == collected(raw.take(i as int)),
        decreases fields@.len() - i,
    {
        let field = &fields[i];
        assert(raw[i as int] == (field.0@, field.1.bytes()));
        let value = match &field.1 {
            RawValue::Bytes(bytes) => match text_of(bytes.as_slice()) {
                Ok(s) => {
                    proof {
                        encode_utf8_decode_utf8(s@);
                    }
                    s.to_owned()
                },
                Err(e) => {
                    return Err(ParseError::Utf8(e));
                },
            },
            RawValue::Other => {
                return Err(ParseError::Redis(type_error("invalid response type for JSON")));
            },
        };
        proof {
            assert(raw.take(i + 1).drop_last() =~= raw.take(i as int));
            assert(raw.take(i + 1).last() == raw[i as int]);
        }
        insert_field(&mut object, field.0.clone(), string_value(value));
        i = i + 1;
    }
    proof {
        assert(raw.take(i as int) =~= raw);
    }
    Ok(object_value(object))
}

/// Reads a stream entry into a JSON object of strings, from which the entry's
/// type is read in turn. Every field must be a bulk string of valid UTF-8; the
/// object then holds each field's text under the field's name.
pub fn from_stream_id(stream_id: &StreamId) -> (outcome: Result<Value, ParseError>)
    ensures
        outcome is Ok <==> all_text(entry_fields(*stream_id)),
        outcome matches Ok(v) ==> is_object_of(v, decoded(entry_fields(*stream_id))),
        outcome matches Err(e) ==> exists|name: Seq<char>|
            entry_fields(*stream_id).dom().contains(name) && !is_text(
                #[trigger] entry_fields(*stream_id)[name],
            ) && is_fault_of(entry_fields(*stream_id)[name], e),
{
    let fields = fields_of(stream_id);
    let outcome = decode_fields(&fields);
    proof {
        let raw = raw_pairs(fields@);
        let known = entry_fields(*stream_id);
        lemma_fault_from(raw, 0);
        assert forall|i: int| 0 <= i < raw.len() implies known.contains_pair(
            (#[trigger] raw[i]).0,
            raw[i].1,
        ) by {
            assert(raw[i] == (fields@[i].0@, fields@[i].1.bytes()));
        }
        assert forall|i: int, j: int| 0 <= i < j < raw.len() implies (#[trigger] raw[i]).0 != (
        #[trigger] raw[j]).0 by {
            assert(raw[i].0 == fields@[i].0@);
            assert(raw[j].0 == fields@[j].0@);
        }
        match fault_from(raw, 0) {
            Some(i) => {
                assert(known.contains_pair(raw[i].0, raw[i].1));
                assert(!is_text(known[raw[i].0]));
            },
            None => {
                assert forall|name: Seq<char>| known.dom().contains(name) implies is_text(
                    #[trigger] known[name],
                ) by {
                    let i = choose|i: int| 0 <= i < fields@.len() && (#[trigger] fields@[i]).0@ == name;
                    assert(known.contains_pair(raw[i].0, raw[i].1));
                }
                lemma_collected(raw);
                assert forall|name: Seq<char>| known.dom().contains(name) implies #[trigger] collected(
                    raw,
                ).dom().contains(name) && collected(raw)[name] == decoded(known)[name] by {
                    let i = choose|i: int| 0 <= i < fields@.len() && (#[trigger] fields@[i]).0@ == name;
                    assert(known.contains_pair(raw[i].0, raw[i].1));
                    assert(collected(raw).contains_pair(raw[i].0, text_value(text(raw[i].1))));
                }
                assert forall|name: Seq<char>| collected(raw).dom().contains(
                    name,
                ) implies #[trigger] known.dom().contains(name) by {
                    let i = choose|i: int| 0 <= i < raw.len() && (#[trigger] raw[i]).0 == name;
                    assert(known.contains_pair(raw[i].0, raw[i].1));
                }
                assert(collected(raw) =~= decoded(known));
            },
        }
    }
    outcome
}

/// Writes the JSON object of an entry as the flat field map that goes to the
/// broker with `XADD`: `null` entries are left out, scalars go as their text,
/// arrays and objects as JSON text. A value that is no object has no fields.
/// It fails only where an array or object cannot be written as JSON.
pub fn xadd_map(value: &Value) -> (outcome: Result<FieldMap, ParseError>)
    ensures
        (match json_object(*value) {
            None => outcome is Ok && outcome->Ok_0@ == no_text(),
            Some(object) => if all_encodable(object_fields(object)) {
                outcome is Ok && outcome->Ok_0@ == encoded(object_fields(object))
            } else {
                outcome is Err && outcome->Err_0 is Serde
            },
        }),
{
    let mut fields = FieldMap::new();
    let object = match as_object(value) {
        Some(object) => object,
        None => {
            return Ok(fields);
        },
    };
    let ghost known = object_fields(*object);
    let entries = entries_of(object);
    let mut i: usize = 0;
    while i < entries.len()
        invariant
            0 <= i <= entries@.len(),
            fields@ == encoded_in_order(entries@.take(i as int)),
            forall|k: int| 0 <= k < i ==> encodable((#[trigger] entries@[k]).1),
            known == object_fields(*object),
            json_object(*value) == Some(*object),
            forall|k: int|
                0 <= k < entries@.len() ==> known.contains_pair(
                    (#[trigger] entries@[k]).0@,
                    entries@[k].1,
                ),
        decreases entries@.len() - i,
    {
        let entry = &entries[i];
        let written = match kind_of(&entry.1) {
            JsonKind::Null => None,
            JsonKind::Bool(b) => Some(
                if b {
                    "true".to_owned()
                } else {
                    "false".to_owned()
                },
            ),
            JsonKind::Number(n) => Some(number_to_string(&n)),
            JsonKind::Text(s) => Some(s),
            JsonKind::Array | JsonKind::Object => match to_json_text(&entry.1) {
                Ok(t) => Some(t),
                Err(e) => {
                    proof {
                        let name = entries@[i as int].0@;
                        assert(known.contains_pair(name, entries@[i as int].1));
                        assert(json_text(entry.1) is None);
                        assert(field_text(entry.1) is None);
                        assert(!encodable(known[name]));
                        assert(!all_encodable(known));
                    }
                    return Err(ParseError::Serde(e));
                },
            },
        };
        proof {
            assert(entries@.take(i + 1).drop_last() =~= entries@.take(i as int));
            assert(entries@.take(i + 1).last() == entries@[i as int]);
            assert(match written {
                Some(t) => field_text(entry.1) == Some(t@),
                None => field_text(entry.1) is None,
            });
        }
        if let Some(t) = written {
            fields.insert(entry.0.clone(), t);
        }
        i = i + 1;
    }
    proof {
        assert(entries@.take(i as int) =~= entries@);
        lemma_encoded_in_order(entries@);
        assert forall|name: Seq<char>| known.dom().contains(name) implies encodable(
            #[trigger] known[name],
        ) by {
            let k = choose|k: int| 0 <= k < entries@.len() && (#[trigger] entries@[k]).0@ == name;
            assert(known.contains_pair(entries@[k].0@, entries@[k].1));
        }
        assert forall|name: Seq<char>| encoded(known).dom().contains(name) implies #[trigger] fields@.dom().contains(
            name,
        ) && fields@[name] == encoded(known)[name] by {
            let k = choose|k: int| 0 <= k < entries@.len() && (#[trigger] entries@[k]).0@ == name;
            assert(known.contains_pair(entries@[k].0@, entries@[k].1));
            assert(fields@.contains_pair(entries@[k].0@, field_text(entries@[k].1).unwrap()));
        }
        assert forall|name: Seq<char>| fields@.dom().contains(name) implies #[trigger] encoded(
            known,
        ).dom().contains(name) by {
            let k = choose|k: int|
                0 <= k < entries@.len() && (#[trigger] entries@[k]).0@ == name && field_text(
                    entries@[k].1,
                ) is Some;
            assert(known.contains_pair(entries@[k].0@, entries@[k].1));
        }
        assert(fields@ =~= encoded(known));
    }
    Ok(fields)
}

} // verus!
