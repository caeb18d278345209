//! What the engine checks a document for.
//!
//! Of a JSON Schema the engine reads the boolean schemas, `type`, `enum`,
//! `const`, `required`, `properties`, `additionalProperties`, `items`, `allOf`,
//! `anyOf`, `oneOf` and `not`. It does not read the rest: bounds on numbers and
//! lengths, patterns, formats and references. Where a schema has
//! `patternProperties` it passes over `additionalProperties`, and where it has
//! `prefixItems` over `items`, for they depend on each other.
use crate::model::{any, first, lemma_position, lemma_position_is, Model};
use crate::protocol::json::{
    equal, json_equal, json_is_i64, json_is_u64, json_items, json_keys, json_member, json_parsed,
    json_shape, json_str, json_text, json_value, keys, member, parse, shape, Json, JsonV, Shape,
};
use crate::protocol::wire::{ToolInput, ToolInputV};
use crate::text;
use vstd::prelude::*;

verus! {

/// How deep a schema is read. No text that `serde_json` reads nests deeper.
pub const MAX_DEPTH: usize = 128;

/// Whether the text of a number writes a whole number as a fraction: `1.0`, or
/// one so large that it has an exponent.
pub open spec fn writes_whole(number: Seq<char>) -> bool {
    !text::holds(number, "e-"@) && (text::holds(number, "e"@) || ".0"@.is_suffix_of(number))
}

/// Whether a document is of a type that a schema names. A type nobody knows
/// rules nothing out.
pub open spec fn is_type(value: serde_json::Value, t: Seq<char>) -> bool {
    if t == "null"@ {
        json_shape(value) == Shape::Null
    } else if t == "boolean"@ {
        json_shape(value) == Shape::Bool
    } else if t == "number"@ {
        json_shape(value) == Shape::Number
    } else if t == "integer"@ {
        json_is_i64(value) || json_is_u64(value) || json_shape(value) == Shape::Number
            && writes_whole(json_text(value))
    } else if t == "string"@ {
        json_shape(value) == Shape::Text
    } else if t == "array"@ {
        json_shape(value) == Shape::List
    } else if t == "object"@ {
        json_shape(value) == Shape::Object
    } else {
        true
    }
}

pub open spec fn of_type(value: serde_json::Value) -> spec_fn(serde_json::Value) -> bool {
    |t: serde_json::Value|
        match json_str(t) {
            Some(t) => is_type(value, t),
            None => true,
        }
}

/// Whether a document is of the type that a schema asks for, or of one of them.
pub open spec fn type_fits(schema: serde_json::Value, value: serde_json::Value) -> bool {
    match json_member(schema, "type"@) {
        Some(t) => match json_items(t) {
            Some(types) => any(types, of_type(value)),
            None => of_type(value)(t),
        },
        None => true,
    }
}

pub open spec fn equal_to(value: serde_json::Value) -> spec_fn(serde_json::Value) -> bool {
    |other: serde_json::Value| json_equal(json_text(value), json_text(other))
}

/// Whether a document is one of those that a schema lists.
pub open spec fn enum_fits(schema: serde_json::Value, value: serde_json::Value) -> bool {
    match json_member(schema, "enum"@) {
        Some(list) => match json_items(list) {
            Some(values) => any(values, equal_to(value)),
            None => true,
        },
        None => true,
    }
}

/// Whether a document is the one that a schema names.
pub open spec fn const_fits(schema: serde_json::Value, value: serde_json::Value) -> bool {
    match json_member(schema, "const"@) {
        Some(only) => equal_to(value)(only),
        None => true,
    }
}

/// Whether a key is a text that a document has no member for.
pub open spec fn lacking(document: serde_json::Value) -> spec_fn(serde_json::Value) -> bool {
    |key: serde_json::Value|
        match json_str(key) {
            Some(key) => json_member(document, key) is None,
            None => false,
        }
}

/// The first key that a schema requires and an object lacks.
pub open spec fn missing(schema: serde_json::Value, document: serde_json::Value) -> Option<
    Seq<char>,
> {
    match json_member(schema, "required"@) {
        Some(required) => match json_items(required) {
            Some(items) => match first(items, lacking(document)) {
                Some(key) => json_str(key),
                None => None,
            },
            None => None,
        },
        None => None,
    }
}

/// The schema that fits nothing.
pub open spec fn forbids(schema: serde_json::Value) -> bool {
    json_shape(schema) == Shape::Bool && json_text(schema) == "false"@
}

/// What is wrong with a document as a whole: it is not allowed at all, is not of
/// the type the schema asks for, is not one of the documents it lists, or lacks
/// a member it requires.
pub open spec fn plain_fault(
    schema: serde_json::Value,
    document: serde_json::Value,
    at: Seq<char>,
) -> Option<Seq<char>> {
    if forbids(schema) {
        Some("`"@ + at + "` is not allowed"@)
    } else if !type_fits(schema, document) {
        Some("`"@ + at + "` is not of type "@ + asked_types(schema))
    } else if !enum_fits(schema, document) || !const_fits(schema, document) {
        Some("`"@ + at + "` is none of the values it may be"@)
    } else if json_shape(document) == Shape::Object {
        match missing(schema, document) {
            Some(key) => Some("`"@ + key + "` is missing"@),
            None => None,
        }
    } else {
        None
    }
}

/// The types a schema asks for, as a message names them.
pub open spec fn asked_types(schema: serde_json::Value) -> Seq<char> {
    match json_member(schema, "type"@) {
        Some(t) => match json_str(t) {
            Some(name) => name,
            None => json_text(t),
        },
        None => Seq::empty(),
    }
}

/// What is wrong with a document that goes by the name `at`: with the document
/// as a whole, with a member or an item of it, or with how it fits several
/// schemas at once.
pub open spec fn fault(
    schema: serde_json::Value,
    document: serde_json::Value,
    at: Seq<char>,
    depth: nat,
) -> Option<Seq<char>>
    decreases depth, 0nat, 0nat,
{
    match plain_fault(schema, document, at) {
        Some(fault) => Some(fault),
        None => if depth == 0 {
            None
        } else {
            match inner_fault(schema, document, at, (depth - 1) as nat) {
                Some(fault) => Some(fault),
                None => combined_fault(schema, document, at, (depth - 1) as nat),
            }
        },
    }
}

/// What is wrong with the first faulty member or item.
pub open spec fn inner_fault(
    schema: serde_json::Value,
    document: serde_json::Value,
    at: Seq<char>,
    depth: nat,
) -> Option<Seq<char>>
    decreases depth, 2nat, 0nat,
{
    if json_shape(document) == Shape::Object {
        let properties = json_member(schema, "properties"@);
        let declared = match properties {
            Some(properties) => member_fault(
                properties,
                document,
                json_keys(properties),
                0,
                depth,
            ),
            None => None,
        };
        match declared {
            Some(fault) => Some(fault),
            None => match json_member(schema, "additionalProperties"@) {
                Some(extra) if json_member(schema, "patternProperties"@) is None => extra_fault(
                    extra,
                    properties,
                    document,
                    json_keys(document),
                    0,
                    depth,
                ),
                _ => None,
            },
        }
    } else {
        match (json_member(schema, "items"@), json_items(document)) {
            (Some(each), Some(items)) if json_member(schema, "prefixItems"@) is None => item_fault(
                each,
                items,
                at,
                0,
                depth,
            ),
            _ => None,
        }
    }
}

/// What is wrong with the first faulty member from the `i`-th key on.
pub open spec fn member_fault(
    properties: serde_json::Value,
    document: serde_json::Value,
    names: Seq<Seq<char>>,
    i: nat,
    depth: nat,
) -> Option<Seq<char>>
    decreases depth, 1nat, names.len() - i,
{
    if i >= names.len() {
        None
    } else {
        let name = names[i as int];
        let found = match (json_member(properties, name), json_member(document, name)) {
            (Some(schema), Some(inner)) => fault(schema, inner, name, depth),
            _ => None,
        };
        match found {
            Some(fault) => Some(fault),
            None => member_fault(properties, document, names, i + 1, depth),
        }
    }
}

/// Whether a schema says what a member is.
pub open spec fn describes(properties: Option<serde_json::Value>, name: Seq<char>) -> bool {
    match properties {
        Some(properties) => json_member(properties, name) is Some,
        None => false,
    }
}

/// What is wrong with the first faulty member that the schema does not describe,
/// from the `i`-th key on.
pub open spec fn extra_fault(
    extra: serde_json::Value,
    properties: Option<serde_json::Value>,
    document: serde_json::Value,
    names: Seq<Seq<char>>,
    i: nat,
    depth: nat,
) -> Option<Seq<char>>
    decreases depth, 1nat, names.len() - i,
{
    if i >= names.len() {
        None
    } else {
        let name = names[i as int];
        let found = match json_member(document, name) {
            Some(inner) if !describes(properties, name) => fault(extra, inner, name, depth),
            _ => None,
        };
        match found {
            Some(fault) => Some(fault),
            None => extra_fault(extra, properties, document, names, i + 1, depth),
        }
    }
}

/// What is wrong with the first faulty item from the `i`-th on.
pub open spec fn item_fault(
    each: serde_json::Value,
    items: Seq<serde_json::Value>,
    at: Seq<char>,
    i: nat,
    depth: nat,
) -> Option<Seq<char>>
    decreases depth, 1nat, items.len() - i,
{
    if i >= items.len() {
        None
    } else {
        match fault(each, items[i as int], at, depth) {
            Some(fault) => Some(fault),
            None => item_fault(each, items, at, i + 1, depth),
        }
    }
}

/// The schemas that stand in a list under a key.
pub open spec fn listed(schema: serde_json::Value, key: Seq<char>) -> Option<
    Seq<serde_json::Value>,
> {
    match json_member(schema, key) {
        Some(list) => json_items(list),
        None => None,
    }
}

/// What is wrong with how a document fits several schemas: all of some, at least
/// one of some, exactly one of some, and not another.
pub open spec fn combined_fault(
    schema: serde_json::Value,
    document: serde_json::Value,
    at: Seq<char>,
    depth: nat,
) -> Option<Seq<char>>
    decreases depth, 2nat, 0nat,
{
    let every = match listed(schema, "allOf"@) {
        Some(schemas) => all_fault(schemas, document, at, 0, depth),
        None => None,
    };
    match every {
        Some(fault) => Some(fault),
        None => if listed(schema, "anyOf"@) is Some && fitting(
            listed(schema, "anyOf"@)->0,
            document,
            at,
            0,
            depth,
        ) == 0 {
            Some("`"@ + at + "` fits none of the schemas it may fit"@)
        } else if listed(schema, "oneOf"@) is Some && fitting(
            listed(schema, "oneOf"@)->0,
            document,
            at,
            0,
            depth,
        ) != 1 {
            Some("`"@ + at + "` does not fit exactly one of its schemas"@)
        } else {
            match json_member(schema, "not"@) {
                Some(other) => if fault(other, document, at, depth) is None {
                    Some("`"@ + at + "` fits a schema it may not fit"@)
                } else {
                    None
                },
                None => None,
            }
        },
    }
}

/// What is wrong with a document by the first schema it breaks, from the `i`-th
/// on.
pub open spec fn all_fault(
    schemas: Seq<serde_json::Value>,
    document: serde_json::Value,
    at: Seq<char>,
    i: nat,
    depth: nat,
) -> Option<Seq<char>>
    decreases depth, 1nat, schemas.len() - i,
{
    if i >= schemas.len() {
        None
    } else {
        match fault(schemas[i as int], document, at, depth) {
            Some(fault) => Some(fault),
            None => all_fault(schemas, document, at, i + 1, depth),
        }
    }
}

/// How many of the schemas, from the `i`-th on, a document fits.
pub open spec fn fitting(
    schemas: Seq<serde_json::Value>,
    document: serde_json::Value,
    at: Seq<char>,
    i: nat,
    depth: nat,
) -> nat
    decreases depth, 1nat, schemas.len() - i,
{
    if i >= schemas.len() {
        0
    } else {
        let rest = fitting(schemas, document, at, i + 1, depth);
        if fault(schemas[i as int], document, at, depth) is None {
            rest + 1
        } else {
            rest
        }
    }
}

fn is_whole(number: &str) -> (r: bool)
    ensures
        r == writes_whole(number@),
{
    let n = number.unicode_len();
    let ends = if n >= 2 {
        text::eq(text::from(number, n - 2), ".0")
    } else {
        false
    };
    proof {
        reveal_strlit(".0");
        if n >= 2 {
            assert(number@.skip(n - 2) =~= number@.subrange(n - 2, n as int));
        }
    }
    !text::has_part(number, "e-") && (text::has_part(number, "e") || ends)
}

fn has_type(value: &serde_json::Value, t: &str) -> (r: bool)
    ensures
        r == is_type(*value, t@),
{
    if text::eq(t, "null") {
        shape(value) == Shape::Null
    } else if text::eq(t, "boolean") {
        shape(value) == Shape::Bool
    } else if text::eq(t, "number") {
        shape(value) == Shape::Number
    } else if text::eq(t, "integer") {
        value.is_i64() || value.is_u64() || shape(value) == Shape::Number && is_whole(
            Json::read(value).text.as_str(),
        )
    } else if text::eq(t, "string") {
        shape(value) == Shape::Text
    } else if text::eq(t, "array") {
        shape(value) == Shape::List
    } else if text::eq(t, "object") {
        shape(value) == Shape::Object
    } else {
        true
    }
}

fn has_named_type(value: &serde_json::Value, t: &serde_json::Value) -> (r: bool)
    ensures
        r == of_type(*value)(*t),
{
    match t.as_str() {
        Some(t) => has_type(value, t),
        None => true,
    }
}

fn fits_type(schema: &serde_json::Value, value: &serde_json::Value) -> (r: bool)
    ensures
        r == type_fits(*schema, *value),
{
    let t = match member(schema, "type") {
        Some(t) => t,
        None => {
            return true;
        },
    };
    let types = match t.as_array() {
        Some(types) => types,
        None => {
            return has_named_type(value, t);
        },
    };
    let mut i: usize = 0;
    while i < types.len()
        invariant
            i <= types@.len(),
            json_member(*schema, "type"@) == Some(*t),
            json_items(*t) == Some(types@),
            forall|j: int| 0 <= j < i ==> !of_type(*value)(#[trigger] types@[j]),
        decreases types@.len() - i,
    {
        if has_named_type(value, &types[i]) {
            assert(of_type(*value)(types@[i as int]));
            return true;
        }
        i = i + 1;
    }
    false
}

fn fits_enum(schema: &serde_json::Value, value: &serde_json::Value) -> (r: bool)
    ensures
        r == enum_fits(*schema, *value),
{
    let list = match member(schema, "enum") {
        Some(list) => list,
        None => {
            return true;
        },
    };
    let values = match list.as_array() {
        Some(values) => values,
        None => {
            return true;
        },
    };
    let mut i: usize = 0;
    while i < values.len()
        invariant
            i <= values@.len(),
            json_member(*schema, "enum"@) == Some(*list),
            json_items(*list) == Some(values@),
            forall|j: int| 0 <= j < i ==> !equal_to(*value)(#[trigger] values@[j]),
        decreases values@.len() - i,
    {
        if equal(value, &values[i]) {
            assert(equal_to(*value)(values@[i as int]));
            return true;
        }
        i = i + 1;
    }
    false
}

fn fits_const(schema: &serde_json::Value, value: &serde_json::Value) -> (r: bool)
    ensures
        r == const_fits(*schema, *value),
{
    match member(schema, "const") {
        Some(only) => equal(value, only),
        None => true,
    }
}

fn find_missing(schema: &serde_json::Value, document: &serde_json::Value) -> (r: Option<String>)
    ensures
        r.v() == missing(*schema, *document),
{
    let required = match member(schema, "required") {
        Some(required) => required,
        None => {
            return None;
        },
    };
    let items = match required.as_array() {
        Some(items) => items,
        None => {
            return None;
        },
    };
    let ghost all = items@;
    let mut i: usize = 0;
    while i < items.len()
        invariant
            i <= items@.len(),
            all == items@,
            json_member(*schema, "required"@) == Some(*required),
            json_items(*required) == Some(all),
            forall|j: int| 0 <= j < i ==> !lacking(*document)(#[trigger] all[j]),
        decreases items@.len() - i,
    {
        match items[i].as_str() {
            Some(key) => {
                if member(document, key).is_none() {
                    proof {
                        lemma_position_is(all, lacking(*document), i as int);
                    }
                    return Some(key.to_owned());
                }
            },
            None => {},
        }
        i = i + 1;
    }
    proof {
        lemma_position(all, lacking(*document));
    }
    None
}

fn is_forbidding(schema: &serde_json::Value) -> (r: bool)
    ensures
        r == forbids(*schema),
{
    shape(schema) == Shape::Bool && text::eq(Json::read(schema).text.as_str(), "false")
}

fn name_types(schema: &serde_json::Value) -> (r: String)
    ensures
        r@ == asked_types(*schema),
{
    match member(schema, "type") {
        Some(t) => match t.as_str() {
            Some(name) => name.to_owned(),
            None => Json::read(t).text,
        },
        None => String::new(),
    }
}

fn find_plain_fault(schema: &serde_json::Value, document: &serde_json::Value, at: &str) -> (r:
    Option<String>)
    ensures
        r.v() == plain_fault(*schema, *document, at@),
{
    if is_forbidding(schema) {
        return Some("`".to_owned().concat(at).concat("` is not allowed"));
    }
    if !fits_type(schema, document) {
        return Some(
            "`".to_owned().concat(at).concat("` is not of type ").concat(
                name_types(schema).as_str(),
            ),
        );
    }
    if !fits_enum(schema, document) || !fits_const(schema, document) {
        return Some("`".to_owned().concat(at).concat("` is none of the values it may be"));
    }
    if shape(document) == Shape::Object {
        match find_missing(schema, document) {
            Some(key) => Some("`".to_owned().concat(key.as_str()).concat("` is missing")),
            None => None,
        }
    } else {
        None
    }
}

/// What is wrong with a document that goes by the name `at`.
pub fn find_fault(
    schema: &serde_json::Value,
    document: &serde_json::Value,
    at: &str,
    depth: usize,
) -> (r: Option<String>)
    ensures
        r.v() == fault(*schema, *document, at@, depth as nat),
    decreases depth, 0nat, 0nat,
{
    match find_plain_fault(schema, document, at) {
        Some(fault) => Some(fault),
        None => if depth == 0 {
            None
        } else {
            match find_inner_fault(schema, document, at, depth - 1) {
                Some(fault) => Some(fault),
                None => find_combined_fault(schema, document, at, depth - 1),
            }
        },
    }
}

fn find_inner_fault(
    schema: &serde_json::Value,
    document: &serde_json::Value,
    at: &str,
    depth: usize,
) -> (r: Option<String>)
    ensures
        r.v() == inner_fault(*schema, *document, at@, depth as nat),
    decreases depth, 2nat, 0nat,
{
    if shape(document) == Shape::Object {
        let properties = member(schema, "properties");
        let declared = match properties {
            Some(properties) => {
                let names = keys(properties);
                find_member_fault(properties, document, &names, 0, depth)
            },
            None => None,
        };
        if declared.is_some() {
            return declared;
        }
        match member(schema, "additionalProperties") {
            Some(extra) => if member(schema, "patternProperties").is_none() {
                let names = keys(document);
                find_extra_fault(extra, properties, document, &names, 0, depth)
            } else {
                None
            },
            None => None,
        }
    } else {
        match (member(schema, "items"), document.as_array()) {
            (Some(each), Some(items)) => if member(schema, "prefixItems").is_none() {
                find_item_fault(each, items, at, 0, depth)
            } else {
                None
            },
            _ => None,
        }
    }
}

fn find_member_fault(
    properties: &serde_json::Value,
    document: &serde_json::Value,
    names: &Vec<String>,
    i: usize,
    depth: usize,
) -> (r: Option<String>)
    requires
        i <= names@.len(),
    ensures
        r.v() == member_fault(*properties, *document, names.v(), i as nat, depth as nat),
    decreases depth, 1nat, names@.len() - i,
{
    if i >= names.len() {
        return None;
    }
    let name = names[i].as_str();
    assert(names.v()[i as int] == name@);
    let found = match (member(properties, name), member(document, name)) {
        (Some(schema), Some(inner)) => find_fault(schema, inner, name, depth),
        _ => None,
    };
    match found {
        Some(fault) => Some(fault),
        None => find_member_fault(properties, document, names, i + 1, depth),
    }
}

/// The document behind an optional reference.
pub open spec fn seen_at(value: Option<&serde_json::Value>) -> Option<serde_json::Value> {
    match value {
        Some(value) => Some(*value),
        None => None,
    }
}

fn is_described(properties: Option<&serde_json::Value>, name: &str) -> (r: bool)
    ensures
        r == describes(seen_at(properties), name@),
{
    match properties {
        Some(properties) => member(properties, name).is_some(),
        None => false,
    }
}

fn find_extra_fault(
    extra: &serde_json::Value,
    properties: Option<&serde_json::Value>,
    document: &serde_json::Value,
    names: &Vec<String>,
    i: usize,
    depth: usize,
) -> (r: Option<String>)
    requires
        i <= names@.len(),
    ensures
        r.v() == extra_fault(
            *extra,
            seen_at(properties),
            *document,
            names.v(),
            i as nat,
            depth as nat,
        ),
    decreases depth, 1nat, names@.len() - i,
{
    if i >= names.len() {
        return None;
    }
    let name = names[i].as_str();
    assert(names.v()[i as int] == name@);
    let found = match member(document, name) {
        Some(inner) => if is_described(properties, name) {
            None
        } else {
            find_fault(extra, inner, name, depth)
        },
        None => None,
    };
    match found {
        Some(fault) => Some(fault),
        None => find_extra_fault(extra, properties, document, names, i + 1, depth),
    }
}

fn find_item_fault(
    each: &serde_json::Value,
    items: &Vec<serde_json::Value>,
    at: &str,
    i: usize,
    depth: usize,
) -> (r: Option<String>)
    requires
        i <= items@.len(),
    ensures
        r.v() == item_fault(*each, items@, at@, i as nat, depth as nat),
    decreases depth, 1nat, items@.len() - i,
{
    if i >= items.len() {
        return None;
    }
    match find_fault(each, &items[i], at, depth) {
        Some(fault) => Some(fault),
        None => find_item_fault(each, items, at, i + 1, depth),
    }
}

fn find_listed<'a>(schema: &'a serde_json::Value, key: &str) -> (r: Option<
    &'a Vec<serde_json::Value>,
>)
    ensures
        (match r {
            Some(schemas) => Some(schemas@),
            None => None,
        }) == listed(*schema, key@),
{
    match member(schema, key) {
        Some(list) => list.as_array(),
        None => None,
    }
}

fn find_combined_fault(
    schema: &serde_json::Value,
    document: &serde_json::Value,
    at: &str,
    depth: usize,
) -> (r: Option<String>)
    ensures
        r.v() == combined_fault(*schema, *document, at@, depth as nat),
    decreases depth, 2nat, 0nat,
{
    match find_listed(schema, "allOf") {
        Some(schemas) => {
            let every = find_all_fault(schemas, document, at, 0, depth);
            if every.is_some() {
                return every;
            }
        },
        None => {},
    }
    match find_listed(schema, "anyOf") {
        Some(schemas) => {
            if count_fitting(schemas, document, at, 0, depth) == 0 {
                return Some(
                    "`".to_owned().concat(at).concat("` fits none of the schemas it may fit"),
                );
            }
        },
        None => {},
    }
    match find_listed(schema, "oneOf") {
        Some(schemas) => {
            if count_fitting(schemas, document, at, 0, depth) != 1 {
                return Some(
                    "`".to_owned().concat(at).concat("` does not fit exactly one of its schemas"),
                );
            }
        },
        None => {},
    }
    match member(schema, "not") {
        Some(other) => if find_fault(other, document, at, depth).is_none() {
            Some("`".to_owned().concat(at).concat("` fits a schema it may not fit"))
        } else {
            None
        },
        None => None,
    }
}

fn find_all_fault(
    schemas: &Vec<serde_json::Value>,
    document: &serde_json::Value,
    at: &str,
    i: usize,
    depth: usize,
) -> (r: Option<String>)
    requires
        i <= schemas@.len(),
    ensures
        r.v() == all_fault(schemas@, *document, at@, i as nat, depth as nat),
    decreases depth, 1nat, schemas@.len() - i,
{
    if i >= schemas.len() {
        return None;
    }
    match find_fault(&schemas[i], document, at, depth) {
        Some(fault) => Some(fault),
        None => find_all_fault(schemas, document, at, i + 1, depth),
    }
}

fn count_fitting(
    schemas: &Vec<serde_json::Value>,
    document: &serde_json::Value,
    at: &str,
    i: usize,
    depth: usize,
) -> (r: usize)
    requires
        i <= schemas@.len(),
    ensures
        r == fitting(schemas@, *document, at@, i as nat, depth as nat),
        r <= schemas@.len() - i,
    decreases depth, 1nat, schemas@.len() - i,
{
    if i >= schemas.len() {
        return 0;
    }
    let rest = count_fitting(schemas, document, at, i + 1, depth);
    if find_fault(&schemas[i], document, at, depth).is_none() {
        rest + 1
    } else {
        rest
    }
}

/// What is wrong with a document, held against a schema.
pub open spec fn schema_fault(schema: JsonV, document: serde_json::Value, at: Seq<char>) -> Option<
    Seq<char>,
> {
    fault(schema.document, document, at, MAX_DEPTH as nat)
}

/// What is wrong with a document, held against a schema.
pub fn check(schema: &Json, document: &serde_json::Value, at: &str) -> (r: Option<String>)
    ensures
        r.v() == schema_fault(schema.v(), *document, at@),
{
    find_fault(&schema.document, document, at, MAX_DEPTH)
}

impl ToolInputV {
    /// What becomes of the arguments of a call, which parse to `document`.
    pub open spec fn of(document: Option<serde_json::Value>, schema: Option<JsonV>) -> ToolInputV {
        match document {
            Some(document) if json_shape(document) == Shape::Object => {
                let value = json_value(document);
                match schema {
                    Some(schema) => match schema_fault(schema, document, "arguments"@) {
                        Some(error) => ToolInputV::Invalid { value, error },
                        None => ToolInputV::Valid { value },
                    },
                    None => ToolInputV::Valid { value },
                }
            },
            _ => ToolInputV::Malformed { error: "arguments are not a JSON object"@ },
        }
    }
}

impl ToolInput {
    /// What the engine makes of the arguments of a call to a tool with that
    /// input schema.
    pub fn read(arguments: &str, schema: &Option<Json>) -> (r: ToolInput)
        ensures
            r.v() == ToolInputV::of(json_parsed(arguments@), schema.v()),
    {
        ToolInput::judge(parse(arguments), schema)
    }

    /// What the engine makes of arguments that parse to `document`.
    pub fn judge(document: Option<serde_json::Value>, schema: &Option<Json>) -> (r: ToolInput)
        ensures
            r.v() == ToolInputV::of(document, schema.v()),
    {
        match document {
            Some(document) => {
                if shape(&document) == Shape::Object {
                    let value = Json::read(&document);
                    return match schema {
                        Some(schema) => match check(schema, &document, "arguments") {
                            Some(error) => ToolInput::Invalid { value, error },
                            None => ToolInput::Valid { value },
                        },
                        None => ToolInput::Valid { value },
                    };
                }
            },
            None => {},
        }
        ToolInput::Malformed { error: "arguments are not a JSON object".to_owned() }
    }
}

} // verus!
