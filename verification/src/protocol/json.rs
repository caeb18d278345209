//! Values of other crates that the protocol carries: JSON documents and
//! decimal amounts.
use crate::model::{text_of, Model, Same};
use vstd::prelude::*;

verus! {

/// A JSON document of `serde_json`.
#[verifier::external_type_specification]
#[verifier::external_body]
pub struct ExValue(serde_json::Value);

/// A decimal number of `rust_decimal`.
#[verifier::external_type_specification]
#[verifier::external_body]
pub struct ExDecimal(rust_decimal::Decimal);

/// The types of JSON.
#[derive(Debug, Clone, Copy, PartialEq, Eq, Structural)]
pub enum Shape {
    Null,
    Bool,
    Number,
    Text,
    List,
    Object,
}

impl Model for Shape {
    type V = Shape;

    open spec fn v(&self) -> Shape {
        *self
    }

    fn dup(&self) -> (r: Shape) {
        *self
    }
}

impl Same for Shape {
    fn same(&self, other: &Shape) -> (r: bool) {
        *self == *other
    }
}

/// The type of a document.
pub uninterp spec fn json_shape(value: serde_json::Value) -> Shape;

/// The compact text of a document, as `serde_json` writes it.
pub uninterp spec fn json_text(value: serde_json::Value) -> Seq<char>;

/// The string a document is, if it is one.
pub uninterp spec fn json_str(value: serde_json::Value) -> Option<Seq<char>>;

/// `Value::is_null`: whether the document is of the type `null`. There is one
/// such document, and the text `null` reads as it.
pub assume_specification[ serde_json::Value::is_null ](value: &serde_json::Value) -> (r: bool)
    ensures
        r == (json_shape(*value) == Shape::Null),
        r ==> json_parsed("null"@) == Some(*value),
;

/// `Value::as_str`: the string of a string document, nothing of any other.
pub assume_specification[ serde_json::Value::as_str ](value: &serde_json::Value) -> (r: Option<
    &str,
>)
    ensures
        text_of(r) == json_str(*value),
        r is Some <==> json_shape(*value) == Shape::Text,
;

/// `<Value as Display>::fmt` in its compact form: the text depends on the
/// document alone. That of `null` is its name.
#[verifier::external_body]
fn compact_text(value: &serde_json::Value) -> (r: String)
    ensures
        r@ == json_text(*value),
        json_shape(*value) == Shape::Null ==> r@ == "null"@,
{
    value.to_string()
}

/// Whether two documents are equal, told by their compact texts. Texts that
/// differ can write equal documents: `0.0` and `-0.0` do.
pub uninterp spec fn json_equal(a: Seq<char>, b: Seq<char>) -> bool;

/// `<Value as PartialEq>::eq`: the answer depends on what the documents write
/// as. A document equals itself, equal documents are of one type, and strings
/// are equal where their characters are.
#[verifier::external_body]
pub(crate) fn equal(a: &serde_json::Value, b: &serde_json::Value) -> (r: bool)
    ensures
        r == json_equal(json_text(*a), json_text(*b)),
        json_text(*a) == json_text(*b) ==> r,
        r ==> json_shape(*a) == json_shape(*b),
        json_shape(*a) == Shape::Text && json_shape(*b) == Shape::Text ==> r == (json_str(*a)
            == json_str(*b)),
{
    *a == *b
}

/// The document that a text writes, if it writes one.
pub uninterp spec fn json_parsed(text: Seq<char>) -> Option<serde_json::Value>;

/// What an object holds under a key.
pub uninterp spec fn json_member(value: serde_json::Value, key: Seq<char>) -> Option<
    serde_json::Value,
>;

/// `serde_json::from_str` into a `Value`: the document, or nothing where the
/// text is not JSON, depends on the text alone.
#[verifier::external_body]
pub(crate) fn parse(text: &str) -> (r: Option<serde_json::Value>)
    ensures
        r == json_parsed(text@),
{
    serde_json::from_str(text).ok()
}

/// `Value::get` with a key: what it hands out depends on the document and the
/// key alone. Only an object holds something under a key.
#[verifier::external_body]
pub(crate) fn member<'a>(value: &'a serde_json::Value, key: &str) -> (r: Option<
    &'a serde_json::Value,
>)
    ensures
        (match r {
            Some(inner) => Some(*inner),
            None => None,
        }) == json_member(*value, key@),
        r is Some ==> json_shape(*value) == Shape::Object,
{
    value.get(key)
}

/// Whether a document is an integer that a `u64` holds.
pub uninterp spec fn json_is_u64(value: serde_json::Value) -> bool;

/// Whether a document is an integer that an `i64` holds.
pub uninterp spec fn json_is_i64(value: serde_json::Value) -> bool;

/// The documents an array holds.
pub uninterp spec fn json_items(value: serde_json::Value) -> Option<Seq<serde_json::Value>>;

/// The keys of an object, in the order the object keeps them.
pub uninterp spec fn json_keys(value: serde_json::Value) -> Seq<Seq<char>>;

/// The document that is a string.
pub uninterp spec fn json_of_text(text: Seq<char>) -> serde_json::Value;

/// The variants of `Value`, told apart.
#[verifier::external_body]
pub(crate) fn shape(value: &serde_json::Value) -> (r: Shape)
    ensures
        r == json_shape(*value),
{
    match value {
        serde_json::Value::Null => Shape::Null,
        serde_json::Value::Bool(_) => Shape::Bool,
        serde_json::Value::Number(_) => Shape::Number,
        serde_json::Value::String(_) => Shape::Text,
        serde_json::Value::Array(_) => Shape::List,
        serde_json::Value::Object(_) => Shape::Object,
    }
}

/// `Value::is_u64`: the answer depends on the document alone, and only a number
/// is one.
pub assume_specification[ serde_json::Value::is_u64 ](value: &serde_json::Value) -> (r: bool)
    ensures
        r == json_is_u64(*value),
        r ==> json_shape(*value) == Shape::Number,
;

/// `Value::is_i64`: the answer depends on the document alone, and only a number
/// is one.
pub assume_specification[ serde_json::Value::is_i64 ](value: &serde_json::Value) -> (r: bool)
    ensures
        r == json_is_i64(*value),
        r ==> json_shape(*value) == Shape::Number,
;

/// `Value::as_array`: the documents of an array, nothing of any other document.
pub assume_specification[ serde_json::Value::as_array ](value: &serde_json::Value) -> (r: Option<
    &Vec<serde_json::Value>,
>)
    ensures
        (match r {
            Some(items) => Some(items@),
            None => None,
        }) == json_items(*value),
        r is Some <==> json_shape(*value) == Shape::List,
;

/// The keys of the map that `Value::as_object` hands out, none for a document
/// that is no object.
#[verifier::external_body]
pub(crate) fn keys(value: &serde_json::Value) -> (r: Vec<String>)
    ensures
        r.v() == json_keys(*value),
{
    match value.as_object() {
        Some(members) => members.keys().cloned().collect(),
        None => Vec::new(),
    }
}

/// `Value::clone`: the copy is the same document.
#[verifier::external_body]
fn copy(value: &serde_json::Value) -> (r: serde_json::Value)
    ensures
        r == *value,
{
    value.clone()
}

impl Model for serde_json::Value {
    type V = serde_json::Value;

    open spec fn v(&self) -> serde_json::Value {
        *self
    }

    fn dup(&self) -> (r: serde_json::Value) {
        copy(self)
    }
}

/// `Value::Null`: what the text `null` reads as, and writes as.
#[verifier::external_body]
fn null_document() -> (r: serde_json::Value)
    ensures
        json_parsed("null"@) == Some(r),
        json_shape(r) == Shape::Null,
        json_text(r) == "null"@,
{
    serde_json::Value::Null
}

/// `Value::String`: the document holds the text.
#[verifier::external_body]
pub(crate) fn text_document(text: &str) -> (r: serde_json::Value)
    ensures
        r == json_of_text(text@),
        json_str(r) == Some(text@),
        json_shape(r) == Shape::Text,
{
    serde_json::Value::String(text.to_owned())
}

/// What the engine tells apart in a document.
#[derive(Debug, PartialEq, Eq)]
pub enum JsonKind {
    Null,
    /// A string, with its characters.
    Text(String),
    /// A boolean, a number, an array or an object.
    Other,
}

/// The value of [`JsonKind`].
pub enum JsonKindV {
    Null,
    Text(Seq<char>),
    Other,
}

impl Model for JsonKind {
    type V = JsonKindV;

    open spec fn v(&self) -> JsonKindV {
        match self {
            JsonKind::Null => JsonKindV::Null,
            JsonKind::Text(a) => JsonKindV::Text(a.v()),
            JsonKind::Other => JsonKindV::Other,
        }
    }

    fn dup(&self) -> (r: JsonKind) {
        match self {
            JsonKind::Null => JsonKind::Null,
            JsonKind::Text(a) => JsonKind::Text(a.dup()),
            JsonKind::Other => JsonKind::Other,
        }
    }
}

impl Same for JsonKind {
    fn same(&self, other: &JsonKind) -> (r: bool) {
        match (self, other) {
            (JsonKind::Null, JsonKind::Null) => true,
            (JsonKind::Text(a0), JsonKind::Text(b0)) => a0.same(b0),
            (JsonKind::Other, JsonKind::Other) => true,
            _ => false,
        }
    }
}

impl Clone for JsonKind {
    fn clone(&self) -> (r: JsonKind)
        ensures
            r.v() == self.v(),
    {
        self.dup()
    }
}

/// A JSON document as the engine holds it: what kind of document it is, its
/// compact text, and the document itself.
#[derive(Debug, PartialEq, Eq)]
pub struct Json {
    pub kind: JsonKind,
    pub text: String,
    pub document: serde_json::Value,
}

/// The value of [`Json`].
pub struct JsonV {
    pub kind: JsonKindV,
    pub text: Seq<char>,
    pub document: serde_json::Value,
}

impl Model for Json {
    type V = JsonV;

    open spec fn v(&self) -> JsonV {
        JsonV {
            kind: self.kind.v(),
            text: self.text.v(),
            document: self.document.v(),
        }
    }

    fn dup(&self) -> (r: Json) {
        Json {
            kind: self.kind.dup(),
            text: self.text.dup(),
            document: self.document.dup(),
        }
    }
}

impl Clone for Json {
    fn clone(&self) -> (r: Json)
        ensures
            r.v() == self.v(),
    {
        self.dup()
    }
}

/// The document the engine holds for `value`.
pub open spec fn json_value(value: serde_json::Value) -> JsonV {
    JsonV {
        kind: if json_shape(value) == Shape::Null {
            JsonKindV::Null
        } else {
            match json_str(value) {
                Some(text) => JsonKindV::Text(text),
                None => JsonKindV::Other,
            }
        },
        text: json_text(value),
        document: value,
    }
}

impl JsonV {
    /// Whether the kind and the text are those of the document.
    pub open spec fn wf(self) -> bool {
        self == json_value(self.document)
    }

    /// Whether two documents are equal: both `null`, the same string, or
    /// documents of another kind that `serde_json` takes to be equal.
    pub open spec fn equals(self, other: JsonV) -> bool {
        match (self.kind, other.kind) {
            (JsonKindV::Other, JsonKindV::Other) => self.text == other.text || json_equal(
                json_text(self.document),
                json_text(other.document),
            ),
            (a, b) => a == b,
        }
    }
}

/// Whether two optional documents are equal.
pub open spec fn both_equal(a: Option<JsonV>, b: Option<JsonV>) -> bool {
    match (a, b) {
        (Some(a), Some(b)) => a.equals(b),
        (None, None) => true,
        _ => false,
    }
}

/// The document `null`.
pub open spec fn json_null() -> JsonV {
    JsonV { kind: JsonKindV::Null, text: "null"@, document: json_parsed("null"@)->0 }
}

impl Json {
    /// The engine's reading of a document.
    pub fn read(value: &serde_json::Value) -> (r: Json)
        ensures
            r.v() == json_value(*value),
            r.v().wf(),
            json_shape(*value) == Shape::Null ==> r.v() == json_null(),
    {
        let kind = if value.is_null() {
            JsonKind::Null
        } else {
            match value.as_str() {
                Some(text) => JsonKind::Text(text.to_owned()),
                None => JsonKind::Other,
            }
        };
        Json { kind, text: compact_text(value), document: value.dup() }
    }

    /// Whether two documents are equal.
    pub fn equals(&self, other: &Json) -> (r: bool)
        ensures
            r == self.v().equals(other.v()),
    {
        match (&self.kind, &other.kind) {
            (JsonKind::Other, JsonKind::Other) => {
                self.text.same(&other.text) || equal(&self.document, &other.document)
            },
            (a, b) => a.same(b),
        }
    }

    /// Whether two optional documents are equal.
    pub fn both_equal(a: &Option<Json>, b: &Option<Json>) -> (r: bool)
        ensures
            r == both_equal(a.v(), b.v()),
    {
        match (a, b) {
            (Some(a), Some(b)) => a.equals(b),
            (None, None) => true,
            _ => false,
        }
    }

    /// The document that is a text.
    pub fn of_text(text: &str) -> (r: Json)
        ensures
            r.v() == json_value(json_of_text(text@)),
            r.v().kind == JsonKindV::Text(text@),
            r.v().wf(),
    {
        Json::read(&text_document(text))
    }

    /// The document `null`.
    pub fn null() -> (r: Json)
        ensures
            r.v() == json_null(),
    {
        Json { kind: JsonKind::Null, text: "null".to_owned(), document: null_document() }
    }
}

impl Default for Json {
    fn default() -> (r: Json)
        ensures
            r.v() == json_null(),
    {
        Json::null()
    }
}

/// The decimal `num` times ten to the power of `-scale`.
pub uninterp spec fn decimal(num: int, scale: int) -> rust_decimal::Decimal;

/// The sum of two decimals, cut off at the largest and the smallest one.
pub uninterp spec fn decimal_sum(a: rust_decimal::Decimal, b: rust_decimal::Decimal) -> rust_decimal::Decimal;

/// `Decimal::new`: the decimal depends on the number and the scale alone. A
/// scale above 28 panics.
pub assume_specification[ rust_decimal::Decimal::new ](
    num: i64,
    scale: u32,
) -> (r: rust_decimal::Decimal)
    requires
        scale <= 28,
    ensures
        r == decimal(num as int, scale as int),
;

/// `Decimal::saturating_add`: the sum depends on the two decimals alone.
pub assume_specification[ rust_decimal::Decimal::saturating_add ](
    a: rust_decimal::Decimal,
    b: rust_decimal::Decimal,
) -> (r: rust_decimal::Decimal)
    ensures
        r == decimal_sum(a, b),
;

impl Model for rust_decimal::Decimal {
    type V = rust_decimal::Decimal;

    open spec fn v(&self) -> rust_decimal::Decimal {
        *self
    }

    fn dup(&self) -> (r: rust_decimal::Decimal) {
        *self
    }
}

/// No cost at all.
pub fn no_cost() -> (r: rust_decimal::Decimal)
    ensures
        r == decimal(0, 0),
{
    rust_decimal::Decimal::new(0, 0)
}

} // verus!
