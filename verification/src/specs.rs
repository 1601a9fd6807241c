//! The specification model: an in-memory mirror of the protocol grammar
//! (domains, constants, errors, classes, methods, arguments, properties),
//! loaded once from the bundled machine-readable asset.
//!
//! The asset's surface syntax is JSON and its parsing into a tree is
//! off-the-shelf (serde_json, behind trusted declarations). The tree itself
//! is modeled as the mathematical [`JsonNode`], the parse result is the
//! named function [`json_of`] of the text alone, and everything from the
//! tree to the model — field extraction, type-name resolution, range checks,
//! ordering and uniqueness validation — is verified code whose contracts
//! mirror the tree exactly: [`AMQProtocolDefinition::load`] returns
//! precisely [`spec_load`], so the loaded model is a function of the bundled
//! text, lossless and deterministic. A malformed asset yields the single
//! fatal [`LoadError`], never a partial model.

use vstd::prelude::*;
use vstd::utf8::{decode_utf8, encode_utf8};

use crate::generation::value_wf;
use crate::types::{AMQPType, DecimalValue};
use crate::value::{bytes_eq, bytes_lt, AMQPValue, FieldTable};

verus! {

/// A JSON tree as plain mathematical values: what the off-the-shelf parse
/// yields. Object entries are in the parser's iteration order (ascending key
/// order, keys unique: the entry map is an ordered map). A number that fits
/// neither an unsigned nor a signed 64-bit integer (a float) is kept only as
/// [`JsonNode::InexactNum`]: the grammar holds no such field.
pub enum JsonNode {
    Null,
    Bool(bool),
    UInt(u64),
    Int(i64),
    InexactNum,
    Text(Seq<char>),
    Array(Seq<JsonNode>),
    Object(Seq<(Seq<char>, JsonNode)>),
}

/// First entry with the given key, if any: object lookup on the model.
pub open spec fn obj_get(es: Seq<(Seq<char>, JsonNode)>, key: Seq<char>) -> Option<JsonNode>
    decreases es.len(),
{
    if es.len() == 0 {
        None
    } else if es[0].0 == key {
        Some(es[0].1)
    } else {
        obj_get(es.drop_first(), key)
    }
}

#[verifier::external_type_specification]
#[verifier::external_body]
pub struct ExJsonValue(serde_json::Value);

#[verifier::external_type_specification]
#[verifier::external_body]
pub struct ExJsonError(serde_json::Error);

#[verifier::external_type_specification]
#[verifier::external_body]
#[verifier::reject_recursive_types(K)]
#[verifier::reject_recursive_types(V)]
pub struct ExJsonMap<K, V>(serde_json::Map<K, V>);

/// The tree a parsed value holds.
pub uninterp spec fn json_model(v: serde_json::Value) -> JsonNode;

/// The entries an object's map holds, in iteration order.
pub uninterp spec fn map_model(m: serde_json::Map<String, serde_json::Value>) -> Seq<
    (Seq<char>, JsonNode),
>;

/// What parsing a text yields: `None` where the text is malformed. The parse
/// is a pure function of the text alone.
pub uninterp spec fn json_of(text: Seq<char>) -> Option<JsonNode>;

/// Relies on serde_json::from_str: a pure function of the text, named
/// `json_of`; a success returns a value holding that tree.
#[verifier::external_body]
fn parse_json(text: &str) -> (r: Result<serde_json::Value, serde_json::Error>)
    ensures
        r matches Ok(v) ==> json_of(text@) == Some(json_model(v)),
        r is Err ==> json_of(text@) is None,
{
    serde_json::from_str(text)
}

/// Relies on serde_json::Value::get: looks a field up in a JSON object —
/// the entry with that exact key — and yields `None` for non-objects and
/// absent fields.
#[verifier::external_body]
fn json_get<'a>(v: &'a serde_json::Value, key: &str) -> (r: Option<&'a serde_json::Value>)
    ensures
        r is Some <==> (json_model(*v) matches JsonNode::Object(es) && obj_get(es, key@) is Some),
        r matches Some(w) ==> (json_model(*v) matches JsonNode::Object(es) && obj_get(es, key@)
            == Some(json_model(*w))),
{
    v.get(key)
}

/// Relies on serde_json::Value::as_str: the characters a JSON string holds.
#[verifier::external_body]
fn json_as_str<'a>(v: &'a serde_json::Value) -> (r: Option<&'a str>)
    ensures
        r is Some <==> json_model(*v) is Text,
        r matches Some(s) ==> json_model(*v) == JsonNode::Text(s@),
{
    v.as_str()
}

/// Relies on serde_json::Value::as_u64: a JSON number, exactly when it is an
/// unsigned 64-bit integer.
#[verifier::external_body]
fn json_as_u64(v: &serde_json::Value) -> (r: Option<u64>)
    ensures
        json_model(*v) matches JsonNode::UInt(x) ==> r == Some(x),
        !(json_model(*v) is UInt) ==> r is None,
{
    v.as_u64()
}

/// Relies on serde_json::Value::as_i64: a JSON number, exactly when it is
/// representable as a signed 64-bit integer.
#[verifier::external_body]
fn json_as_i64(v: &serde_json::Value) -> (r: Option<i64>)
    ensures
        json_model(*v) matches JsonNode::UInt(x) ==> r == (if x <= 0x7fffffffffffffff {
            Some(x as i64)
        } else {
            None
        }),
        json_model(*v) matches JsonNode::Int(x) ==> r == Some(x),
        !(json_model(*v) is UInt) && !(json_model(*v) is Int) ==> r is None,
{
    v.as_i64()
}

/// Relies on serde_json::Value::as_bool: the boolean a JSON bool holds.
#[verifier::external_body]
fn json_as_bool(v: &serde_json::Value) -> (r: Option<bool>)
    ensures
        json_model(*v) matches JsonNode::Bool(b) ==> r == Some(b),
        !(json_model(*v) is Bool) ==> r is None,
{
    v.as_bool()
}

/// Relies on serde_json::Value::as_array: the elements of a JSON array, in
/// order.
#[verifier::external_body]
fn json_as_array<'a>(v: &'a serde_json::Value) -> (r: Option<&'a Vec<serde_json::Value>>)
    ensures
        r is Some <==> json_model(*v) is Array,
        r matches Some(a) ==> (json_model(*v) matches JsonNode::Array(elems) && a@.len()
            == elems.len() && forall|i: int|
            0 <= i < elems.len() ==> #[trigger] json_model(a@[i]) == elems[i]),
{
    v.as_array()
}

/// Relies on serde_json::Value::as_object: the entry map of a JSON object.
#[verifier::external_body]
fn json_as_object<'a>(v: &'a serde_json::Value) -> (r: Option<
    &'a serde_json::Map<String, serde_json::Value>,
>)
    ensures
        r is Some <==> json_model(*v) is Object,
        r matches Some(m) ==> json_model(*v) == JsonNode::Object(map_model(*m)),
{
    v.as_object()
}

/// Relies on serde_json::Map::len: how many entries an object holds.
#[verifier::external_body]
fn json_map_len(m: &serde_json::Map<String, serde_json::Value>) -> (r: usize)
    ensures
        r == map_model(*m).len(),
{
    m.len()
}

/// Relies on serde_json::Map::iter and on the clones of its keys and values:
/// the entries in iteration order, which for this map type is ascending
/// key-byte order with unique keys (it is backed by an ordered map); a
/// cloned value holds the same tree.
#[verifier::external_body]
fn json_object_entries(m: &serde_json::Map<String, serde_json::Value>) -> (r: Vec<
    (String, serde_json::Value),
>)
    ensures
        r@.len() == map_model(*m).len(),
        forall|i: int|
            0 <= i < r@.len() ==> (#[trigger] r@[i]).0@ == map_model(*m)[i].0 && json_model(
                r@[i].1,
            ) == map_model(*m)[i].1,
        forall|i: int, j: int|
            0 <= i < j < r@.len() ==> bytes_lt(
                encode_utf8((#[trigger] r@[i]).0@),
                encode_utf8((#[trigger] r@[j]).0@),
            ),
{
    m.iter().map(|(k, v)| (k.clone(), v.clone())).collect()
}

/// Relies on serde_json::Value::is_null: whether the value is JSON null.
#[verifier::external_body]
fn json_is_null(v: &serde_json::Value) -> (r: bool)
    ensures
        r == (json_model(*v) is Null),
{
    v.is_null()
}

/// UTF-8 encoding is injective: byte-equal strings hold equal characters.
proof fn lemma_utf8_injective(a: Seq<char>, b: Seq<char>)
    requires
        encode_utf8(a) == encode_utf8(b),
    ensures
        a == b,
{
    broadcast use vstd::utf8::encode_utf8_decode_utf8;

    assert(decode_utf8(encode_utf8(a)) == a);
    assert(decode_utf8(encode_utf8(b)) == b);
}

/// Character-exact string equality, decided byte-wise.
fn str_eq(a: &str, b: &str) -> (r: bool)
    ensures
        r == (a@ == b@),
{
    let r = bytes_eq(a.as_bytes(), b.as_bytes());
    proof {
        if r {
            lemma_utf8_injective(a@, b@);
        }
    }
    r
}

/// The tag a type name of the machine-readable specification resolves to:
/// the inverse of [`AMQPType::spec_name`].
pub open spec fn spec_type_from_name(n: Seq<char>) -> Option<AMQPType> {
    if n == AMQPType::Boolean.spec_name() {
        Some(AMQPType::Boolean)
    } else if n == AMQPType::ShortShortInt.spec_name() {
        Some(AMQPType::ShortShortInt)
    } else if n == AMQPType::ShortShortUInt.spec_name() {
        Some(AMQPType::ShortShortUInt)
    } else if n == AMQPType::ShortInt.spec_name() {
        Some(AMQPType::ShortInt)
    } else if n == AMQPType::ShortUInt.spec_name() {
        Some(AMQPType::ShortUInt)
    } else if n == AMQPType::LongInt.spec_name() {
        Some(AMQPType::LongInt)
    } else if n == AMQPType::LongUInt.spec_name() {
        Some(AMQPType::LongUInt)
    } else if n == AMQPType::LongLongInt.spec_name() {
        Some(AMQPType::LongLongInt)
    } else if n == AMQPType::LongLongUInt.spec_name() {
        Some(AMQPType::LongLongUInt)
    } else if n == AMQPType::Float.spec_name() {
        Some(AMQPType::Float)
    } else if n == AMQPType::Double.spec_name() {
        Some(AMQPType::Double)
    } else if n == AMQPType::DecimalValue.spec_name() {
        Some(AMQPType::DecimalValue)
    } else if n == AMQPType::ShortString.spec_name() {
        Some(AMQPType::ShortString)
    } else if n == AMQPType::LongString.spec_name() {
        Some(AMQPType::LongString)
    } else if n == AMQPType::FieldArray.spec_name() {
        Some(AMQPType::FieldArray)
    } else if n == AMQPType::Timestamp.spec_name() {
        Some(AMQPType::Timestamp)
    } else if n == AMQPType::FieldTable.spec_name() {
        Some(AMQPType::FieldTable)
    } else if n == AMQPType::ByteArray.spec_name() {
        Some(AMQPType::ByteArray)
    } else if n == AMQPType::Void.spec_name() {
        Some(AMQPType::Void)
    } else {
        None
    }
}

/// Resolves a type name of the specification asset to its tag; `None` for an
/// unknown name.
pub fn amqp_type_from_name(s: &str) -> (r: Option<AMQPType>)
    ensures
        r == spec_type_from_name(s@),
{
    if str_eq(s, "Boolean") {
        Some(AMQPType::Boolean)
    } else if str_eq(s, "ShortShortInt") {
        Some(AMQPType::ShortShortInt)
    } else if str_eq(s, "ShortShortUInt") {
        Some(AMQPType::ShortShortUInt)
    } else if str_eq(s, "ShortInt") {
        Some(AMQPType::ShortInt)
    } else if str_eq(s, "ShortUInt") {
        Some(AMQPType::ShortUInt)
    } else if str_eq(s, "LongInt") {
        Some(AMQPType::LongInt)
    } else if str_eq(s, "LongUInt") {
        Some(AMQPType::LongUInt)
    } else if str_eq(s, "LongLongInt") {
        Some(AMQPType::LongLongInt)
    } else if str_eq(s, "LongLongUInt") {
        Some(AMQPType::LongLongUInt)
    } else if str_eq(s, "Float") {
        Some(AMQPType::Float)
    } else if str_eq(s, "Double") {
        Some(AMQPType::Double)
    } else if str_eq(s, "DecimalValue") {
        Some(AMQPType::DecimalValue)
    } else if str_eq(s, "ShortString") {
        Some(AMQPType::ShortString)
    } else if str_eq(s, "LongString") {
        Some(AMQPType::LongString)
    } else if str_eq(s, "FieldArray") {
        Some(AMQPType::FieldArray)
    } else if str_eq(s, "Timestamp") {
        Some(AMQPType::Timestamp)
    } else if str_eq(s, "FieldTable") {
        Some(AMQPType::FieldTable)
    } else if str_eq(s, "ByteArray") {
        Some(AMQPType::ByteArray)
    } else if str_eq(s, "Void") {
        Some(AMQPType::Void)
    } else {
        None
    }
}

/// The one load failure: a malformed specification asset. Fatal at startup;
/// no partial model is ever produced.
#[derive(Clone, Copy, Debug, PartialEq, Eq, Structural)]
pub struct LoadError;

/// A protocol constant: a named 16-bit value with its wire type.
#[derive(Debug, PartialEq)]
pub struct AMQPConstant {
    pub name: String,
    pub value: u16,
    pub amqp_type: AMQPType,
}

/// A named property of a content class.
#[derive(Debug, PartialEq)]
pub struct AMQPProperty {
    pub amqp_type: AMQPType,
    pub name: String,
}

/// A typed method argument: its wire type, name, optional default and
/// optional domain reference.
#[derive(Debug, PartialEq)]
pub struct AMQPValueArgument {
    pub amqp_type: AMQPType,
    pub name: String,
    pub default_value: Option<AMQPValue>,
    pub domain: Option<String>,
}

/// One flag of a packed flags-group argument.
#[derive(Debug, PartialEq)]
pub struct AMQPFlagArgument {
    pub name: String,
    pub default_value: bool,
}

/// A method argument: a typed value, or an ordered group of boolean flags
/// packed together on the wire.
#[derive(Debug, PartialEq)]
pub enum AMQPArgument {
    Value(AMQPValueArgument),
    Flags(Vec<AMQPFlagArgument>),
}

/// A protocol method: its id, ordered arguments (positional wire order) and
/// traits.
#[derive(Debug, PartialEq)]
pub struct AMQPMethod {
    pub id: u16,
    pub arguments: Vec<AMQPArgument>,
    pub has_arguments: bool,
    pub has_flags: bool,
    pub name: String,
    pub synchronous: bool,
}

/// A protocol class: its id, ordered methods and properties.
#[derive(Debug, PartialEq)]
pub struct AMQPClass {
    pub id: u16,
    pub methods: Vec<AMQPMethod>,
    pub name: String,
    pub properties: Vec<AMQPProperty>,
    pub has_properties: bool,
    pub is_connection: bool,
}

/// The loaded protocol grammar: a faithful, re-serializable mirror of the
/// bundled asset. Domains resolve a name directly to a concrete wire type,
/// single-level, in ascending name-byte order.
#[derive(Debug, PartialEq)]
pub struct AMQProtocolDefinition {
    pub name: String,
    pub major_version: u8,
    pub minor_version: u8,
    pub revision: u8,
    pub port: u32,
    pub copyright: String,
    pub domains: Vec<(String, AMQPType)>,
    pub constants: Vec<AMQPConstant>,
    pub soft_errors: Vec<AMQPConstant>,
    pub hard_errors: Vec<AMQPConstant>,
    pub classes: Vec<AMQPClass>,
}

/// Domain names strictly ascending in byte order: unique keys, as the
/// original name-to-type mapping demands.
pub open spec fn domains_sorted(ds: Seq<(String, AMQPType)>) -> bool {
    forall|i: int, j: int|
        0 <= i < j < ds.len() ==> bytes_lt(
            encode_utf8((#[trigger] ds[i]).0@),
            encode_utf8((#[trigger] ds[j]).0@),
        )
}

/// Method ids unique within one class.
pub open spec fn method_ids_unique(ms: Seq<AMQPMethod>) -> bool {
    forall|i: int, j: int| 0 <= i < j < ms.len() ==> ms[i].id != ms[j].id
}

/// What a successful load guarantees of the model: domains sorted and unique,
/// and method ids unique within each class.
pub open spec fn def_wf(d: AMQProtocolDefinition) -> bool {
    &&& domains_sorted(d.domains@)
    &&& forall|c: int|
        0 <= c < d.classes@.len() ==> method_ids_unique(#[trigger] d.classes@[c].methods@)
}

// ---------------------------------------------------------------------------
// The loaded model at the mathematical level: what each part of the
// definition holds, with strings as character sequences. `load` returns
// exactly the model that `spec_load` computes from the asset's tree.
// ---------------------------------------------------------------------------

/// A wire value at the mathematical level.
pub enum ValueModel {
    Boolean(bool),
    ShortShortInt(i8),
    ShortShortUInt(u8),
    ShortInt(i16),
    ShortUInt(u16),
    LongInt(i32),
    LongUInt(u32),
    LongLongInt(i64),
    LongLongUInt(u64),
    Float(u32),
    Double(u64),
    DecimalValue(DecimalValue),
    LongString(Seq<char>),
    FieldArray(Seq<ValueModel>),
    Timestamp(u64),
    FieldTable(Seq<(Seq<char>, ValueModel)>),
    ByteArray(Seq<u8>),
    Void,
}

/// The mathematical value an [`AMQPValue`] holds.
pub open spec fn value_model(v: AMQPValue) -> ValueModel
    decreases v,
{
    match v {
        AMQPValue::Boolean(b) => ValueModel::Boolean(b),
        AMQPValue::ShortShortInt(x) => ValueModel::ShortShortInt(x),
        AMQPValue::ShortShortUInt(x) => ValueModel::ShortShortUInt(x),
        AMQPValue::ShortInt(x) => ValueModel::ShortInt(x),
        AMQPValue::ShortUInt(x) => ValueModel::ShortUInt(x),
        AMQPValue::LongInt(x) => ValueModel::LongInt(x),
        AMQPValue::LongUInt(x) => ValueModel::LongUInt(x),
        AMQPValue::LongLongInt(x) => ValueModel::LongLongInt(x),
        AMQPValue::LongLongUInt(x) => ValueModel::LongLongUInt(x),
        AMQPValue::Float(x) => ValueModel::Float(x),
        AMQPValue::Double(x) => ValueModel::Double(x),
        AMQPValue::DecimalValue(d) => ValueModel::DecimalValue(d),
        AMQPValue::LongString(s) => ValueModel::LongString(s@),
        AMQPValue::FieldArray(a) => ValueModel::FieldArray(
            Seq::new(
                a@.len(),
                |i: int|
                    if 0 <= i < a@.len() {
                        value_model(a[i])
                    } else {
                        ValueModel::Void
                    },
            ),
        ),
        AMQPValue::Timestamp(x) => ValueModel::Timestamp(x),
        AMQPValue::FieldTable(t) => ValueModel::FieldTable(
            Seq::new(
                t.entries@.len(),
                |i: int|
                    if 0 <= i < t.entries@.len() {
                        (t.entries[i].0@, value_model(t.entries[i].1))
                    } else {
                        (Seq::empty(), ValueModel::Void)
                    },
            ),
        ),
        AMQPValue::ByteArray(b) => ValueModel::ByteArray(b@),
        AMQPValue::Void => ValueModel::Void,
    }
}

pub struct ConstantModel {
    pub name: Seq<char>,
    pub value: u16,
    pub amqp_type: AMQPType,
}

pub struct PropertyModel {
    pub amqp_type: AMQPType,
    pub name: Seq<char>,
}

pub struct FlagModel {
    pub name: Seq<char>,
    pub default_value: bool,
}

pub struct ValueArgModel {
    pub amqp_type: AMQPType,
    pub name: Seq<char>,
    pub default_value: Option<ValueModel>,
    pub domain: Option<Seq<char>>,
}

pub enum ArgModel {
    Value(ValueArgModel),
    Flags(Seq<FlagModel>),
}

pub struct MethodModel {
    pub id: u16,
    pub arguments: Seq<ArgModel>,
    pub has_arguments: bool,
    pub has_flags: bool,
    pub name: Seq<char>,
    pub synchronous: bool,
}

pub struct ClassModel {
    pub id: u16,
    pub methods: Seq<MethodModel>,
    pub name: Seq<char>,
    pub properties: Seq<PropertyModel>,
    pub has_properties: bool,
    pub is_connection: bool,
}

pub struct DefinitionModel {
    pub name: Seq<char>,
    pub major_version: u8,
    pub minor_version: u8,
    pub revision: u8,
    pub port: u32,
    pub copyright: Seq<char>,
    pub domains: Seq<(Seq<char>, AMQPType)>,
    pub constants: Seq<ConstantModel>,
    pub soft_errors: Seq<ConstantModel>,
    pub hard_errors: Seq<ConstantModel>,
    pub classes: Seq<ClassModel>,
}

pub open spec fn constant_model(c: AMQPConstant) -> ConstantModel {
    ConstantModel { name: c.name@, value: c.value, amqp_type: c.amqp_type }
}

pub open spec fn constants_model(s: Seq<AMQPConstant>) -> Seq<ConstantModel> {
    Seq::new(s.len(), |i: int| constant_model(s[i]))
}

pub open spec fn property_model(p: AMQPProperty) -> PropertyModel {
    PropertyModel { amqp_type: p.amqp_type, name: p.name@ }
}

pub open spec fn properties_model(s: Seq<AMQPProperty>) -> Seq<PropertyModel> {
    Seq::new(s.len(), |i: int| property_model(s[i]))
}

pub open spec fn flag_model(f: AMQPFlagArgument) -> FlagModel {
    FlagModel { name: f.name@, default_value: f.default_value }
}

pub open spec fn flags_model(s: Seq<AMQPFlagArgument>) -> Seq<FlagModel> {
    Seq::new(s.len(), |i: int| flag_model(s[i]))
}

pub open spec fn value_arg_model(a: AMQPValueArgument) -> ValueArgModel {
    ValueArgModel {
        amqp_type: a.amqp_type,
        name: a.name@,
        default_value: (match a.default_value {
            Some(v) => Some(value_model(v)),
            None => None,
        }),
        domain: (match a.domain {
            Some(s) => Some(s@),
            None => None,
        }),
    }
}

pub open spec fn arg_model(a: AMQPArgument) -> ArgModel {
    match a {
        AMQPArgument::Value(va) => ArgModel::Value(value_arg_model(va)),
        AMQPArgument::Flags(fs) => ArgModel::Flags(flags_model(fs@)),
    }
}

pub open spec fn args_model(s: Seq<AMQPArgument>) -> Seq<ArgModel> {
    Seq::new(s.len(), |i: int| arg_model(s[i]))
}

pub open spec fn method_model(m: AMQPMethod) -> MethodModel {
    MethodModel {
        id: m.id,
        arguments: args_model(m.arguments@),
        has_arguments: m.has_arguments,
        has_flags: m.has_flags,
        name: m.name@,
        synchronous: m.synchronous,
    }
}

pub open spec fn methods_model(s: Seq<AMQPMethod>) -> Seq<MethodModel> {
    Seq::new(s.len(), |i: int| method_model(s[i]))
}

pub open spec fn class_model(c: AMQPClass) -> ClassModel {
    ClassModel {
        id: c.id,
        methods: methods_model(c.methods@),
        name: c.name@,
        properties: properties_model(c.properties@),
        has_properties: c.has_properties,
        is_connection: c.is_connection,
    }
}

pub open spec fn classes_model(s: Seq<AMQPClass>) -> Seq<ClassModel> {
    Seq::new(s.len(), |i: int| class_model(s[i]))
}

pub open spec fn domains_model(s: Seq<(String, AMQPType)>) -> Seq<(Seq<char>, AMQPType)> {
    Seq::new(s.len(), |i: int| (s[i].0@, s[i].1))
}

pub open spec fn def_model(d: AMQProtocolDefinition) -> DefinitionModel {
    DefinitionModel {
        name: d.name@,
        major_version: d.major_version,
        minor_version: d.minor_version,
        revision: d.revision,
        port: d.port,
        copyright: d.copyright@,
        domains: domains_model(d.domains@),
        constants: constants_model(d.constants@),
        soft_errors: constants_model(d.soft_errors@),
        hard_errors: constants_model(d.hard_errors@),
        classes: classes_model(d.classes@),
    }
}

// ---------------------------------------------------------------------------
// What each part of the tree parses to: the mirror the exec parsers are
// proved against. `None` is the single malformed-asset failure.
// ---------------------------------------------------------------------------

/// The field a key denotes, on objects only.
pub open spec fn spec_field(n: JsonNode, key: Seq<char>) -> Option<JsonNode> {
    match n {
        JsonNode::Object(es) => obj_get(es, key),
        _ => None,
    }
}

pub open spec fn spec_parse_string(n: JsonNode) -> Option<Seq<char>> {
    match n {
        JsonNode::Text(cs) => Some(cs),
        _ => None,
    }
}

pub open spec fn spec_num_u64(n: JsonNode) -> Option<u64> {
    match n {
        JsonNode::UInt(x) => Some(x),
        _ => None,
    }
}

pub open spec fn spec_num_i64(n: JsonNode) -> Option<i64> {
    match n {
        JsonNode::UInt(x) => if x <= 0x7fffffffffffffff {
            Some(x as i64)
        } else {
            None
        },
        JsonNode::Int(x) => Some(x),
        _ => None,
    }
}

pub open spec fn spec_parse_u8(n: JsonNode) -> Option<u8> {
    match spec_num_u64(n) {
        Some(x) => if x <= 0xff {
            Some(x as u8)
        } else {
            None
        },
        None => None,
    }
}

pub open spec fn spec_parse_u16(n: JsonNode) -> Option<u16> {
    match spec_num_u64(n) {
        Some(x) => if x <= 0xffff {
            Some(x as u16)
        } else {
            None
        },
        None => None,
    }
}

pub open spec fn spec_parse_u32(n: JsonNode) -> Option<u32> {
    match spec_num_u64(n) {
        Some(x) => if x <= 0xffffffff {
            Some(x as u32)
        } else {
            None
        },
        None => None,
    }
}

pub open spec fn spec_parse_bool(n: JsonNode) -> Option<bool> {
    match n {
        JsonNode::Bool(b) => Some(b),
        _ => None,
    }
}

pub open spec fn spec_parse_type(n: JsonNode) -> Option<AMQPType> {
    match n {
        JsonNode::Text(cs) => spec_type_from_name(cs),
        _ => None,
    }
}

/// A default value coerced to the declared wire type. String defaults
/// become `LongString` whatever the declared string type; defaults of the
/// remaining shapes (decimals, byte arrays, floats, non-empty tables or
/// arrays) do not occur in the protocol grammar and are malformed.
pub open spec fn spec_parse_value(n: JsonNode, t: AMQPType) -> Option<ValueModel> {
    match t {
        AMQPType::Boolean => match spec_parse_bool(n) {
            Some(b) => Some(ValueModel::Boolean(b)),
            None => None,
        },
        AMQPType::ShortShortInt => match spec_num_i64(n) {
            Some(x) => if -0x80 <= x && x <= 0x7f {
                Some(ValueModel::ShortShortInt(x as i8))
            } else {
                None
            },
            None => None,
        },
        AMQPType::ShortShortUInt => match spec_parse_u8(n) {
            Some(x) => Some(ValueModel::ShortShortUInt(x)),
            None => None,
        },
        AMQPType::ShortInt => match spec_num_i64(n) {
            Some(x) => if -0x8000 <= x && x <= 0x7fff {
                Some(ValueModel::ShortInt(x as i16))
            } else {
                None
            },
            None => None,
        },
        AMQPType::ShortUInt => match spec_parse_u16(n) {
            Some(x) => Some(ValueModel::ShortUInt(x)),
            None => None,
        },
        AMQPType::LongInt => match spec_num_i64(n) {
            Some(x) => if -0x80000000 <= x && x <= 0x7fffffff {
                Some(ValueModel::LongInt(x as i32))
            } else {
                None
            },
            None => None,
        },
        AMQPType::LongUInt => match spec_parse_u32(n) {
            Some(x) => Some(ValueModel::LongUInt(x)),
            None => None,
        },
        AMQPType::LongLongInt => match spec_num_i64(n) {
            Some(x) => Some(ValueModel::LongLongInt(x)),
            None => None,
        },
        AMQPType::LongLongUInt => match spec_num_u64(n) {
            Some(x) => Some(ValueModel::LongLongUInt(x)),
            None => None,
        },
        AMQPType::ShortString | AMQPType::LongString => match n {
            JsonNode::Text(cs) => if encode_utf8(cs).len() <= 0xffffffff {
                Some(ValueModel::LongString(cs))
            } else {
                None
            },
            _ => None,
        },
        AMQPType::Timestamp => match spec_num_u64(n) {
            Some(x) => Some(ValueModel::Timestamp(x)),
            None => None,
        },
        AMQPType::FieldTable => match n {
            JsonNode::Object(es) => if es.len() == 0 {
                Some(ValueModel::FieldTable(Seq::empty()))
            } else {
                None
            },
            _ => None,
        },
        AMQPType::FieldArray => match n {
            JsonNode::Array(elems) => if elems.len() == 0 {
                Some(ValueModel::FieldArray(Seq::empty()))
            } else {
                None
            },
            _ => None,
        },
        AMQPType::Void => if n is Null {
            Some(ValueModel::Void)
        } else {
            None
        },
        _ => None,
    }
}

/// An optional field: absent or null is no value; a present value must
/// parse. The outer `None` is the malformed case.
pub open spec fn spec_parse_opt_string(n: JsonNode, key: Seq<char>) -> Option<Option<Seq<char>>> {
    match spec_field(n, key) {
        None => Some(None),
        Some(f) => if f is Null {
            Some(None)
        } else {
            match spec_parse_string(f) {
                None => None,
                Some(cs) => Some(Some(cs)),
            }
        },
    }
}

pub open spec fn spec_parse_opt_value(n: JsonNode, key: Seq<char>, t: AMQPType) -> Option<
    Option<ValueModel>,
> {
    match spec_field(n, key) {
        None => Some(None),
        Some(f) => if f is Null {
            Some(None)
        } else {
            match spec_parse_value(f, t) {
                None => None,
                Some(m) => Some(Some(m)),
            }
        },
    }
}

pub open spec fn spec_parse_value_argument(n: JsonNode) -> Option<ValueArgModel> {
    match spec_field(n, "type"@) {
        None => None,
        Some(tf) => match spec_parse_type(tf) {
            None => None,
            Some(t) => match spec_field(n, "name"@) {
                None => None,
                Some(nf) => match spec_parse_string(nf) {
                    None => None,
                    Some(name) => match spec_parse_opt_value(n, "default_value"@, t) {
                        None => None,
                        Some(dv) => match spec_parse_opt_string(n, "domain"@) {
                            None => None,
                            Some(dm) => Some(
                                ValueArgModel {
                                    amqp_type: t,
                                    name,
                                    default_value: dv,
                                    domain: dm,
                                },
                            ),
                        },
                    },
                },
            },
        },
    }
}

pub open spec fn spec_parse_flag_argument(n: JsonNode) -> Option<FlagModel> {
    match spec_field(n, "name"@) {
        None => None,
        Some(nf) => match spec_parse_string(nf) {
            None => None,
            Some(name) => match spec_field(n, "default_value"@) {
                None => None,
                Some(df) => match spec_parse_bool(df) {
                    None => None,
                    Some(b) => Some(FlagModel { name, default_value: b }),
                },
            },
        },
    }
}

pub open spec fn spec_parse_flags(elems: Seq<JsonNode>) -> Option<Seq<FlagModel>> {
    if forall|i: int| 0 <= i < elems.len() ==> spec_parse_flag_argument(#[trigger] elems[i]) is Some {
        Some(Seq::new(elems.len(), |i: int| spec_parse_flag_argument(elems[i]).unwrap()))
    } else {
        None
    }
}

/// An argument: a JSON array is an ordered flags group, anything else must
/// be a typed-value object.
pub open spec fn spec_parse_argument(n: JsonNode) -> Option<ArgModel> {
    match n {
        JsonNode::Array(elems) => match spec_parse_flags(elems) {
            None => None,
            Some(fs) => Some(ArgModel::Flags(fs)),
        },
        _ => match spec_parse_value_argument(n) {
            None => None,
            Some(a) => Some(ArgModel::Value(a)),
        },
    }
}

pub open spec fn spec_parse_arguments(elems: Seq<JsonNode>) -> Option<Seq<ArgModel>> {
    if forall|i: int| 0 <= i < elems.len() ==> spec_parse_argument(#[trigger] elems[i]) is Some {
        Some(Seq::new(elems.len(), |i: int| spec_parse_argument(elems[i]).unwrap()))
    } else {
        None
    }
}

pub open spec fn spec_parse_method(n: JsonNode) -> Option<MethodModel> {
    match spec_field(n, "id"@) {
        None => None,
        Some(f) => match spec_parse_u16(f) {
            None => None,
            Some(id) => match spec_field(n, "name"@) {
                None => None,
                Some(nf) => match spec_parse_string(nf) {
                    None => None,
                    Some(name) => match spec_field(n, "arguments"@) {
                        None => None,
                        Some(af) => match af {
                            JsonNode::Array(elems) => match spec_parse_arguments(elems) {
                                None => None,
                                Some(args) => match spec_field(n, "has_arguments"@) {
                                    None => None,
                                    Some(f1) => match spec_parse_bool(f1) {
                                        None => None,
                                        Some(has_arguments) => match spec_field(n, "has_flags"@) {
                                            None => None,
                                            Some(f2) => match spec_parse_bool(f2) {
                                                None => None,
                                                Some(has_flags) => match spec_field(
                                                    n,
                                                    "synchronous"@,
                                                ) {
                                                    None => None,
                                                    Some(f3) => match spec_parse_bool(f3) {
                                                        None => None,
                                                        Some(synchronous) => Some(
                                                            MethodModel {
                                                                id,
                                                                arguments: args,
                                                                has_arguments,
                                                                has_flags,
                                                                name,
                                                                synchronous,
                                                            },
                                                        ),
                                                    },
                                                },
                                            },
                                        },
                                    },
                                },
                            },
                            _ => None,
                        },
                    },
                },
            },
        },
    }
}

pub open spec fn spec_parse_methods(elems: Seq<JsonNode>) -> Option<Seq<MethodModel>> {
    if forall|i: int| 0 <= i < elems.len() ==> spec_parse_method(#[trigger] elems[i]) is Some {
        Some(Seq::new(elems.len(), |i: int| spec_parse_method(elems[i]).unwrap()))
    } else {
        None
    }
}

pub open spec fn spec_parse_property(n: JsonNode) -> Option<PropertyModel> {
    match spec_field(n, "type"@) {
        None => None,
        Some(tf) => match spec_parse_type(tf) {
            None => None,
            Some(t) => match spec_field(n, "name"@) {
                None => None,
                Some(nf) => match spec_parse_string(nf) {
                    None => None,
                    Some(name) => Some(PropertyModel { amqp_type: t, name }),
                },
            },
        },
    }
}

pub open spec fn spec_parse_properties(elems: Seq<JsonNode>) -> Option<Seq<PropertyModel>> {
    if forall|i: int| 0 <= i < elems.len() ==> spec_parse_property(#[trigger] elems[i]) is Some {
        Some(Seq::new(elems.len(), |i: int| spec_parse_property(elems[i]).unwrap()))
    } else {
        None
    }
}

pub open spec fn spec_parse_constant(n: JsonNode) -> Option<ConstantModel> {
    match spec_field(n, "name"@) {
        None => None,
        Some(nf) => match spec_parse_string(nf) {
            None => None,
            Some(name) => match spec_field(n, "value"@) {
                None => None,
                Some(vf) => match spec_parse_u16(vf) {
                    None => None,
                    Some(value) => match spec_field(n, "type"@) {
                        None => None,
                        Some(tf) => match spec_parse_type(tf) {
                            None => None,
                            Some(t) => Some(ConstantModel { name, value, amqp_type: t }),
                        },
                    },
                },
            },
        },
    }
}

pub open spec fn spec_parse_constant_list(elems: Seq<JsonNode>) -> Option<Seq<ConstantModel>> {
    if forall|i: int| 0 <= i < elems.len() ==> spec_parse_constant(#[trigger] elems[i]) is Some {
        Some(Seq::new(elems.len(), |i: int| spec_parse_constant(elems[i]).unwrap()))
    } else {
        None
    }
}

pub open spec fn spec_parse_constants(n: JsonNode) -> Option<Seq<ConstantModel>> {
    match n {
        JsonNode::Array(elems) => spec_parse_constant_list(elems),
        _ => None,
    }
}

pub open spec fn model_method_ids_unique(ms: Seq<MethodModel>) -> bool {
    forall|i: int, j: int| 0 <= i < j < ms.len() ==> ms[i].id != ms[j].id
}

pub open spec fn spec_parse_class(n: JsonNode) -> Option<ClassModel> {
    match spec_field(n, "id"@) {
        None => None,
        Some(f) => match spec_parse_u16(f) {
            None => None,
            Some(id) => match spec_field(n, "name"@) {
                None => None,
                Some(nf) => match spec_parse_string(nf) {
                    None => None,
                    Some(name) => match spec_field(n, "methods"@) {
                        None => None,
                        Some(mf) => match mf {
                            JsonNode::Array(elems) => match spec_parse_methods(elems) {
                                None => None,
                                Some(ms) => if !model_method_ids_unique(ms) {
                                    None
                                } else {
                                    match spec_field(n, "properties"@) {
                                        None => None,
                                        Some(pf) => match pf {
                                            JsonNode::Array(pelems) => match spec_parse_properties(
                                                pelems,
                                            ) {
                                                None => None,
                                                Some(ps) => match spec_field(
                                                    n,
                                                    "has_properties"@,
                                                ) {
                                                    None => None,
                                                    Some(f1) => match spec_parse_bool(f1) {
                                                        None => None,
                                                        Some(has_properties) => match spec_field(
                                                            n,
                                                            "is_connection"@,
                                                        ) {
                                                            None => None,
                                                            Some(f2) => match spec_parse_bool(f2) {
                                                                None => None,
                                                                Some(is_connection) => Some(
                                                                    ClassModel {
                                                                        id,
                                                                        methods: ms,
                                                                        name,
                                                                        properties: ps,
                                                                        has_properties,
                                                                        is_connection,
                                                                    },
                                                                ),
                                                            },
                                                        },
                                                    },
                                                },
                                            },
                                            _ => None,
                                        },
                                    }
                                },
                            },
                            _ => None,
                        },
                    },
                },
            },
        },
    }
}

pub open spec fn spec_parse_classes(elems: Seq<JsonNode>) -> Option<Seq<ClassModel>> {
    if forall|i: int| 0 <= i < elems.len() ==> spec_parse_class(#[trigger] elems[i]) is Some {
        Some(Seq::new(elems.len(), |i: int| spec_parse_class(elems[i]).unwrap()))
    } else {
        None
    }
}

/// The domain object: every entry's value must be a known type name; the
/// entries keep the parser's ascending key order, mirroring the original
/// ordered-map field, whatever order the asset wrote them in.
pub open spec fn spec_parse_domains(n: JsonNode) -> Option<Seq<(Seq<char>, AMQPType)>> {
    match n {
        JsonNode::Object(es) => if forall|i: int|
            0 <= i < es.len() ==> spec_parse_type((#[trigger] es[i]).1) is Some {
            Some(Seq::new(es.len(), |i: int| (es[i].0, spec_parse_type(es[i].1).unwrap())))
        } else {
            None
        },
        _ => None,
    }
}

pub open spec fn spec_parse_definition(n: JsonNode) -> Option<DefinitionModel> {
    match spec_field(n, "name"@) {
        None => None,
        Some(nf) => match spec_parse_string(nf) {
            None => None,
            Some(name) => match spec_field(n, "major_version"@) {
                None => None,
                Some(f1) => match spec_parse_u8(f1) {
                    None => None,
                    Some(major_version) => match spec_field(n, "minor_version"@) {
                        None => None,
                        Some(f2) => match spec_parse_u8(f2) {
                            None => None,
                            Some(minor_version) => match spec_field(n, "revision"@) {
                                None => None,
                                Some(f3) => match spec_parse_u8(f3) {
                                    None => None,
                                    Some(revision) => match spec_field(n, "port"@) {
                                        None => None,
                                        Some(f4) => match spec_parse_u32(f4) {
                                            None => None,
                                            Some(port) => match spec_field(n, "copyright"@) {
                                                None => None,
                                                Some(f5) => match spec_parse_string(f5) {
                                                    None => None,
                                                    Some(copyright) => match spec_field(
                                                        n,
                                                        "domains"@,
                                                    ) {
                                                        None => None,
                                                        Some(f6) => match spec_parse_domains(f6) {
                                                            None => None,
                                                            Some(domains) => match spec_field(
                                                                n,
                                                                "constants"@,
                                                            ) {
                                                                None => None,
                                                                Some(f7) => match spec_parse_constants(
                                                                    f7,
                                                                ) {
                                                                    None => None,
                                                                    Some(constants) => match spec_field(
                                                                        n,
                                                                        "soft_errors"@,
                                                                    ) {
                                                                        None => None,
                                                                        Some(f8) => match spec_parse_constants(
                                                                            f8,
                                                                        ) {
                                                                            None => None,
                                                                            Some(soft_errors) => match spec_field(
                                                                                n,
                                                                                "hard_errors"@,
                                                                            ) {
                                                                                None => None,
                                                                                Some(f9) => match spec_parse_constants(
                                                                                    f9,
                                                                                ) {
                                                                                    None => None,
                                                                                    Some(
                                                                                        hard_errors,
                                                                                    ) => match spec_field(
                                                                                        n,
                                                                                        "classes"@,
                                                                                    ) {
                                                                                        None => None,
                                                                                        Some(
                                                                                            f10,
                                                                                        ) => match f10 {
                                                                                            JsonNode::Array(
                                                                                                celems,
                                                                                            ) => match spec_parse_classes(
                                                                                                celems,
                                                                                            ) {
                                                                                                None => None,
                                                                                                Some(
                                                                                                    classes,
                                                                                                ) => Some(
                                                                                                    DefinitionModel {
                                                                                                        name,
                                                                                                        major_version,
                                                                                                        minor_version,
                                                                                                        revision,
                                                                                                        port,
                                                                                                        copyright,
                                                                                                        domains,
                                                                                                        constants,
                                                                                                        soft_errors,
                                                                                                        hard_errors,
                                                                                                        classes,
                                                                                                    },
                                                                                                ),
                                                                                            },
                                                                                            _ => None,
                                                                                        },
                                                                                    },
                                                                                },
                                                                            },
                                                                        },
                                                                    },
                                                                },
                                                            },
                                                        },
                                                    },
                                                },
                                            },
                                        },
                                    },
                                },
                            },
                        },
                    },
                },
            },
        },
    }
}

/// What loading the bundled asset yields: the parse of the asset text,
/// converted; `None` is the fatal malformed-asset failure.
pub open spec fn spec_load() -> Option<DefinitionModel> {
    match json_of(crate::asset::spec_asset()) {
        None => None,
        Some(n) => spec_parse_definition(n),
    }
}

// ---------------------------------------------------------------------------
// The verified conversion, proved to compute exactly the mirrors above.
// ---------------------------------------------------------------------------

/// Extracts a JSON string field into an owned string.
fn parse_string(v: &serde_json::Value) -> (r: Result<String, LoadError>)
    ensures
        (match r {
            Ok(s) => spec_parse_string(json_model(*v)) == Some(s@),
            Err(_) => spec_parse_string(json_model(*v)) is None,
        }),
{
    match json_as_str(v) {
        Some(s) => Ok(s.to_owned()),
        None => Err(LoadError),
    }
}

/// Extracts an unsigned 8-bit integer, rejecting out-of-range numbers.
fn parse_u8(v: &serde_json::Value) -> (r: Result<u8, LoadError>)
    ensures
        (match r {
            Ok(x) => spec_parse_u8(json_model(*v)) == Some(x),
            Err(_) => spec_parse_u8(json_model(*v)) is None,
        }),
{
    match json_as_u64(v) {
        Some(x) => {
            if x <= 0xff {
                Ok(x as u8)
            } else {
                Err(LoadError)
            }
        },
        None => Err(LoadError),
    }
}

/// Extracts an unsigned 16-bit integer, rejecting out-of-range numbers.
fn parse_u16(v: &serde_json::Value) -> (r: Result<u16, LoadError>)
    ensures
        (match r {
            Ok(x) => spec_parse_u16(json_model(*v)) == Some(x),
            Err(_) => spec_parse_u16(json_model(*v)) is None,
        }),
{
    match json_as_u64(v) {
        Some(x) => {
            if x <= 0xffff {
                Ok(x as u16)
            } else {
                Err(LoadError)
            }
        },
        None => Err(LoadError),
    }
}

/// Extracts an unsigned 32-bit integer, rejecting out-of-range numbers.
fn parse_u32(v: &serde_json::Value) -> (r: Result<u32, LoadError>)
    ensures
        (match r {
            Ok(x) => spec_parse_u32(json_model(*v)) == Some(x),
            Err(_) => spec_parse_u32(json_model(*v)) is None,
        }),
{
    match json_as_u64(v) {
        Some(x) => {
            if x <= 0xffffffff {
                Ok(x as u32)
            } else {
                Err(LoadError)
            }
        },
        None => Err(LoadError),
    }
}

/// Extracts a JSON boolean.
fn parse_bool(v: &serde_json::Value) -> (r: Result<bool, LoadError>)
    ensures
        (match r {
            Ok(b) => spec_parse_bool(json_model(*v)) == Some(b),
            Err(_) => spec_parse_bool(json_model(*v)) is None,
        }),
{
    match json_as_bool(v) {
        Some(b) => Ok(b),
        None => Err(LoadError),
    }
}

/// Extracts a wire-type name and resolves it to its tag.
fn parse_type(v: &serde_json::Value) -> (r: Result<AMQPType, LoadError>)
    ensures
        (match r {
            Ok(t) => spec_parse_type(json_model(*v)) == Some(t),
            Err(_) => spec_parse_type(json_model(*v)) is None,
        }),
{
    match json_as_str(v) {
        Some(s) => {
            match amqp_type_from_name(s) {
                Some(t) => Ok(t),
                None => Err(LoadError),
            }
        },
        None => Err(LoadError),
    }
}

/// Coerces a default value of the asset to the declared wire type, exactly
/// as [`spec_parse_value`] says.
fn parse_value(v: &serde_json::Value, t: AMQPType) -> (r: Result<AMQPValue, LoadError>)
    ensures
        (match r {
            Ok(val) => spec_parse_value(json_model(*v), t) == Some(value_model(val)) && value_wf(
                val,
            ),
            Err(_) => spec_parse_value(json_model(*v), t) is None,
        }),
{
    match t {
        AMQPType::Boolean => {
            match json_as_bool(v) {
                Some(b) => Ok(AMQPValue::Boolean(b)),
                None => Err(LoadError),
            }
        },
        AMQPType::ShortShortInt => {
            match json_as_i64(v) {
                Some(x) => {
                    if -0x80 <= x && x <= 0x7f {
                        Ok(AMQPValue::ShortShortInt(x as i8))
                    } else {
                        Err(LoadError)
                    }
                },
                None => Err(LoadError),
            }
        },
        AMQPType::ShortShortUInt => {
            match parse_u8(v) {
                Ok(x) => Ok(AMQPValue::ShortShortUInt(x)),
                Err(e) => Err(e),
            }
        },
        AMQPType::ShortInt => {
            match json_as_i64(v) {
                Some(x) => {
                    if -0x8000 <= x && x <= 0x7fff {
                        Ok(AMQPValue::ShortInt(x as i16))
                    } else {
                        Err(LoadError)
                    }
                },
                None => Err(LoadError),
            }
        },
        AMQPType::ShortUInt => {
            match parse_u16(v) {
                Ok(x) => Ok(AMQPValue::ShortUInt(x)),
                Err(e) => Err(e),
            }
        },
        AMQPType::LongInt => {
            match json_as_i64(v) {
                Some(x) => {
                    if -0x80000000 <= x && x <= 0x7fffffff {
                        Ok(AMQPValue::LongInt(x as i32))
                    } else {
                        Err(LoadError)
                    }
                },
                None => Err(LoadError),
            }
        },
        AMQPType::LongUInt => {
            match parse_u32(v) {
                Ok(x) => Ok(AMQPValue::LongUInt(x)),
                Err(e) => Err(e),
            }
        },
        AMQPType::LongLongInt => {
            match json_as_i64(v) {
                Some(x) => Ok(AMQPValue::LongLongInt(x)),
                None => Err(LoadError),
            }
        },
        AMQPType::LongLongUInt => {
            match json_as_u64(v) {
                Some(x) => Ok(AMQPValue::LongLongUInt(x)),
                None => Err(LoadError),
            }
        },
        AMQPType::ShortString | AMQPType::LongString => {
            match json_as_str(v) {
                Some(s) => {
                    let owned = s.to_owned();
                    if owned.as_str().as_bytes().len() <= 0xffffffff {
                        Ok(AMQPValue::LongString(owned))
                    } else {
                        Err(LoadError)
                    }
                },
                None => Err(LoadError),
            }
        },
        AMQPType::Timestamp => {
            match json_as_u64(v) {
                Some(x) => Ok(AMQPValue::Timestamp(x)),
                None => Err(LoadError),
            }
        },
        AMQPType::FieldTable => {
            match json_as_object(v) {
                Some(m) => {
                    if json_map_len(m) == 0 {
                        let table = FieldTable::new();
                        proof {
                            let vm = value_model(AMQPValue::FieldTable(table));
                            assert(vm->FieldTable_0 =~= Seq::<(Seq<char>, ValueModel)>::empty());
                            assert(vm == ValueModel::FieldTable(
                                Seq::<(Seq<char>, ValueModel)>::empty(),
                            ));
                            assert(crate::generation::table_payload(table.entries, 0)
                                == Seq::<u8>::empty());
                        }
                        Ok(AMQPValue::FieldTable(table))
                    } else {
                        Err(LoadError)
                    }
                },
                None => Err(LoadError),
            }
        },
        AMQPType::FieldArray => {
            match json_as_array(v) {
                Some(a) => {
                    if a.len() == 0 {
                        let elems: Vec<AMQPValue> = Vec::new();
                        proof {
                            let vm = value_model(AMQPValue::FieldArray(elems));
                            assert(vm->FieldArray_0 =~= Seq::<ValueModel>::empty());
                            assert(vm == ValueModel::FieldArray(Seq::<ValueModel>::empty()));
                            assert(crate::generation::arr_payload(elems, 0) == Seq::<u8>::empty());
                        }
                        Ok(AMQPValue::FieldArray(elems))
                    } else {
                        Err(LoadError)
                    }
                },
                None => Err(LoadError),
            }
        },
        AMQPType::Void => {
            if json_is_null(v) {
                Ok(AMQPValue::Void)
            } else {
                Err(LoadError)
            }
        },
        _ => Err(LoadError),
    }
}

/// Parses one typed-value argument `{type, name, default_value?, domain?}`.
fn parse_value_argument(v: &serde_json::Value) -> (r: Result<AMQPValueArgument, LoadError>)
    ensures
        (match r {
            Ok(a) => spec_parse_value_argument(json_model(*v)) == Some(value_arg_model(a)) && (
            a.default_value matches Some(dv) ==> value_wf(dv)),
            Err(_) => spec_parse_value_argument(json_model(*v)) is None,
        }),
{
    let amqp_type = match json_get(v, "type") {
        Some(f) => {
            match parse_type(f) {
                Ok(t) => t,
                Err(e) => {
                    return Err(e);
                },
            }
        },
        None => {
            return Err(LoadError);
        },
    };
    let name = match json_get(v, "name") {
        Some(f) => {
            match parse_string(f) {
                Ok(s) => s,
                Err(e) => {
                    return Err(e);
                },
            }
        },
        None => {
            return Err(LoadError);
        },
    };
    let default_value = match json_get(v, "default_value") {
        Some(f) => {
            if json_is_null(f) {
                None
            } else {
                match parse_value(f, amqp_type) {
                    Ok(val) => Some(val),
                    Err(e) => {
                        return Err(e);
                    },
                }
            }
        },
        None => None,
    };
    let domain = match json_get(v, "domain") {
        Some(f) => {
            if json_is_null(f) {
                None
            } else {
                match parse_string(f) {
                    Ok(s) => Some(s),
                    Err(e) => {
                        return Err(e);
                    },
                }
            }
        },
        None => None,
    };
    Ok(AMQPValueArgument { amqp_type, name, default_value, domain })
}

/// Parses one flag of a flags group `{name, default_value}`.
fn parse_flag_argument(v: &serde_json::Value) -> (r: Result<AMQPFlagArgument, LoadError>)
    ensures
        (match r {
            Ok(f) => spec_parse_flag_argument(json_model(*v)) == Some(flag_model(f)),
            Err(_) => spec_parse_flag_argument(json_model(*v)) is None,
        }),
{
    let name = match json_get(v, "name") {
        Some(f) => {
            match parse_string(f) {
                Ok(s) => s,
                Err(e) => {
                    return Err(e);
                },
            }
        },
        None => {
            return Err(LoadError);
        },
    };
    let default_value = match json_get(v, "default_value") {
        Some(f) => {
            match parse_bool(f) {
                Ok(b) => b,
                Err(e) => {
                    return Err(e);
                },
            }
        },
        None => {
            return Err(LoadError);
        },
    };
    Ok(AMQPFlagArgument { name, default_value })
}

/// Parses one argument: a JSON array is an ordered flags group, anything
/// else must be a typed-value object.
fn parse_argument(v: &serde_json::Value) -> (r: Result<AMQPArgument, LoadError>)
    ensures
        (match r {
            Ok(a) => spec_parse_argument(json_model(*v)) == Some(arg_model(a)),
            Err(_) => spec_parse_argument(json_model(*v)) is None,
        }),
{
    match json_as_array(v) {
        Some(arr) => {
            let ghost elems = json_model(*v)->Array_0;
            let mut flags: Vec<AMQPFlagArgument> = Vec::new();
            let mut i: usize = 0;
            while i < arr.len()
                invariant
                    json_model(*v) matches JsonNode::Array(es) && es == elems,
                    arr@.len() == elems.len(),
                    forall|k: int| 0 <= k < elems.len() ==> #[trigger] json_model(arr@[k]) == elems[k],
                    i <= elems.len(),
                    flags@.len() == i,
                    forall|k: int|
                        0 <= k < i ==> spec_parse_flag_argument(#[trigger] elems[k]) == Some(
                            flag_model(flags@[k]),
                        ),
                decreases arr@.len() - i,
            {
                match parse_flag_argument(&arr[i]) {
                    Ok(f) => flags.push(f),
                    Err(e) => {
                        proof {
                            assert(spec_parse_flag_argument(elems[i as int]) is None);
                            assert(spec_parse_flags(elems) is None);
                        }
                        return Err(e);
                    },
                }
                i = i + 1;
            }
            proof {
                assert(flags_model(flags@) =~= Seq::new(
                    elems.len(),
                    |k: int| spec_parse_flag_argument(elems[k]).unwrap(),
                ));
            }
            Ok(AMQPArgument::Flags(flags))
        },
        None => {
            match parse_value_argument(v) {
                Ok(a) => Ok(AMQPArgument::Value(a)),
                Err(e) => Err(e),
            }
        },
    }
}

/// Parses one method `{id, name, arguments, has_arguments, has_flags,
/// synchronous}`, preserving argument order: it is positional wire order.
fn parse_method(v: &serde_json::Value) -> (r: Result<AMQPMethod, LoadError>)
    ensures
        (match r {
            Ok(m) => spec_parse_method(json_model(*v)) == Some(method_model(m)),
            Err(_) => spec_parse_method(json_model(*v)) is None,
        }),
{
    let id = match json_get(v, "id") {
        Some(f) => {
            match parse_u16(f) {
                Ok(x) => x,
                Err(e) => {
                    return Err(e);
                },
            }
        },
        None => {
            return Err(LoadError);
        },
    };
    let name = match json_get(v, "name") {
        Some(f) => {
            match parse_string(f) {
                Ok(s) => s,
                Err(e) => {
                    return Err(e);
                },
            }
        },
        None => {
            return Err(LoadError);
        },
    };
    let arguments = match json_get(v, "arguments") {
        Some(f) => {
            match json_as_array(f) {
                Some(arr) => {
                    let ghost elems = json_model(*f)->Array_0;
                    let mut args: Vec<AMQPArgument> = Vec::new();
                    let mut i: usize = 0;
                    while i < arr.len()
                        invariant
                            spec_parse_arguments(elems) is None ==> spec_parse_method(
                                json_model(*v),
                            ) is None,
                            arr@.len() == elems.len(),
                            forall|k: int|
                                0 <= k < elems.len() ==> #[trigger] json_model(arr@[k])
                                    == elems[k],
                            i <= elems.len(),
                            args@.len() == i,
                            forall|k: int|
                                0 <= k < i ==> spec_parse_argument(#[trigger] elems[k]) == Some(
                                    arg_model(args@[k]),
                                ),
                        decreases arr@.len() - i,
                    {
                        match parse_argument(&arr[i]) {
                            Ok(a) => args.push(a),
                            Err(e) => {
                                proof {
                                    assert(spec_parse_argument(elems[i as int]) is None);
                                    assert(spec_parse_arguments(elems) is None);
                                }
                                return Err(e);
                            },
                        }
                        i = i + 1;
                    }
                    proof {
                        assert(args_model(args@) =~= Seq::new(
                            elems.len(),
                            |k: int| spec_parse_argument(elems[k]).unwrap(),
                        ));
                    }
                    args
                },
                None => {
                    return Err(LoadError);
                },
            }
        },
        None => {
            return Err(LoadError);
        },
    };
    let has_arguments = match json_get(v, "has_arguments") {
        Some(f) => {
            match parse_bool(f) {
                Ok(b) => b,
                Err(e) => {
                    return Err(e);
                },
            }
        },
        None => {
            return Err(LoadError);
        },
    };
    let has_flags = match json_get(v, "has_flags") {
        Some(f) => {
            match parse_bool(f) {
                Ok(b) => b,
                Err(e) => {
                    return Err(e);
                },
            }
        },
        None => {
            return Err(LoadError);
        },
    };
    let synchronous = match json_get(v, "synchronous") {
        Some(f) => {
            match parse_bool(f) {
                Ok(b) => b,
                Err(e) => {
                    return Err(e);
                },
            }
        },
        None => {
            return Err(LoadError);
        },
    };
    Ok(AMQPMethod { id, arguments, has_arguments, has_flags, name, synchronous })
}

/// Parses one property `{type, name}`.
fn parse_property(v: &serde_json::Value) -> (r: Result<AMQPProperty, LoadError>)
    ensures
        (match r {
            Ok(p) => spec_parse_property(json_model(*v)) == Some(property_model(p)),
            Err(_) => spec_parse_property(json_model(*v)) is None,
        }),
{
    let amqp_type = match json_get(v, "type") {
        Some(f) => {
            match parse_type(f) {
                Ok(t) => t,
                Err(e) => {
                    return Err(e);
                },
            }
        },
        None => {
            return Err(LoadError);
        },
    };
    let name = match json_get(v, "name") {
        Some(f) => {
            match parse_string(f) {
                Ok(s) => s,
                Err(e) => {
                    return Err(e);
                },
            }
        },
        None => {
            return Err(LoadError);
        },
    };
    Ok(AMQPProperty { amqp_type, name })
}

/// Parses one constant `{name, value, type}`.
fn parse_constant(v: &serde_json::Value) -> (r: Result<AMQPConstant, LoadError>)
    ensures
        (match r {
            Ok(c) => spec_parse_constant(json_model(*v)) == Some(constant_model(c)),
            Err(_) => spec_parse_constant(json_model(*v)) is None,
        }),
{
    let name = match json_get(v, "name") {
        Some(f) => {
            match parse_string(f) {
                Ok(s) => s,
                Err(e) => {
                    return Err(e);
                },
            }
        },
        None => {
            return Err(LoadError);
        },
    };
    let value = match json_get(v, "value") {
        Some(f) => {
            match parse_u16(f) {
                Ok(x) => x,
                Err(e) => {
                    return Err(e);
                },
            }
        },
        None => {
            return Err(LoadError);
        },
    };
    let amqp_type = match json_get(v, "type") {
        Some(f) => {
            match parse_type(f) {
                Ok(t) => t,
                Err(e) => {
                    return Err(e);
                },
            }
        },
        None => {
            return Err(LoadError);
        },
    };
    Ok(AMQPConstant { name, value, amqp_type })
}

/// Parses a list of constants, preserving order.
fn parse_constants(v: &serde_json::Value) -> (r: Result<Vec<AMQPConstant>, LoadError>)
    ensures
        (match r {
            Ok(cs) => spec_parse_constants(json_model(*v)) == Some(constants_model(cs@)),
            Err(_) => spec_parse_constants(json_model(*v)) is None,
        }),
{
    let arr = match json_as_array(v) {
        Some(a) => a,
        None => {
            return Err(LoadError);
        },
    };
    let ghost elems = json_model(*v)->Array_0;
    let mut out: Vec<AMQPConstant> = Vec::new();
    let mut i: usize = 0;
    while i < arr.len()
        invariant
            json_model(*v) matches JsonNode::Array(es) && es == elems,
            arr@.len() == elems.len(),
            forall|k: int| 0 <= k < elems.len() ==> #[trigger] json_model(arr@[k]) == elems[k],
            i <= elems.len(),
            out@.len() == i,
            forall|k: int|
                0 <= k < i ==> spec_parse_constant(#[trigger] elems[k]) == Some(
                    constant_model(out@[k]),
                ),
        decreases arr@.len() - i,
    {
        match parse_constant(&arr[i]) {
            Ok(c) => out.push(c),
            Err(e) => {
                proof {
                    assert(spec_parse_constant(elems[i as int]) is None);
                    assert(spec_parse_constant_list(elems) is None);
                }
                return Err(e);
            },
        }
        i = i + 1;
    }
    proof {
        assert(constants_model(out@) =~= Seq::new(
            elems.len(),
            |k: int| spec_parse_constant(elems[k]).unwrap(),
        ));
    }
    Ok(out)
}

/// Parses the domain object, keeping the parser's ascending key order: the
/// asset may write domains in any order, as the original ordered-map field
/// accepted.
fn parse_domains(v: &serde_json::Value) -> (r: Result<Vec<(String, AMQPType)>, LoadError>)
    ensures
        (match r {
            Ok(ds) => spec_parse_domains(json_model(*v)) == Some(domains_model(ds@))
                && domains_sorted(ds@),
            Err(_) => spec_parse_domains(json_model(*v)) is None,
        }),
{
    let m = match json_as_object(v) {
        Some(m) => m,
        None => {
            return Err(LoadError);
        },
    };
    let ghost es = json_model(*v)->Object_0;
    let entries = json_object_entries(m);
    let mut out: Vec<(String, AMQPType)> = Vec::new();
    let mut i: usize = 0;
    while i < entries.len()
        invariant
            json_model(*v) matches JsonNode::Object(os) && os == es,
            entries@.len() == es.len(),
            forall|k: int|
                0 <= k < entries@.len() ==> (#[trigger] entries@[k]).0@ == es[k].0 && json_model(
                    entries@[k].1,
                ) == es[k].1,
            forall|x: int, y: int|
                0 <= x < y < entries@.len() ==> bytes_lt(
                    encode_utf8((#[trigger] entries@[x]).0@),
                    encode_utf8((#[trigger] entries@[y]).0@),
                ),
            i <= es.len(),
            out@.len() == i,
            forall|k: int|
                0 <= k < i ==> (#[trigger] out@[k]).0@ == es[k].0 && spec_parse_type(es[k].1)
                    == Some(out@[k].1),
        decreases entries@.len() - i,
    {
        let t = match json_as_str(&entries[i].1) {
            Some(s) => {
                match amqp_type_from_name(s) {
                    Some(t) => t,
                    None => {
                        proof {
                            assert(spec_parse_type(es[i as int].1) is None);
                        }
                        return Err(LoadError);
                    },
                }
            },
            None => {
                proof {
                    assert(spec_parse_type(es[i as int].1) is None);
                }
                return Err(LoadError);
            },
        };
        let name = entries[i].0.clone();
        out.push((name, t));
        i = i + 1;
    }
    proof {
        assert forall|k: int| 0 <= k < es.len() implies spec_parse_type(
            (#[trigger] es[k]).1,
        ) is Some by {
            assert((#[trigger] out@[k]).0@ == es[k].0);
            assert(spec_parse_type(es[k].1) == Some(out@[k].1));
        }
        assert(domains_model(out@) =~= Seq::new(
            es.len(),
            |k: int| (es[k].0, spec_parse_type(es[k].1).unwrap()),
        ));
        assert forall|x: int, y: int| 0 <= x < y < out@.len() implies bytes_lt(
            encode_utf8((#[trigger] out@[x]).0@),
            encode_utf8((#[trigger] out@[y]).0@),
        ) by {
            assert(out@[x].0@ == entries@[x].0@);
            assert(out@[y].0@ == entries@[y].0@);
        }
    }
    Ok(out)
}

/// Parses one class `{id, name, methods, properties, has_properties,
/// is_connection}`, demanding method ids unique within the class.
fn parse_class(v: &serde_json::Value) -> (r: Result<AMQPClass, LoadError>)
    ensures
        (match r {
            Ok(c) => spec_parse_class(json_model(*v)) == Some(class_model(c))
                && method_ids_unique(c.methods@),
            Err(_) => spec_parse_class(json_model(*v)) is None,
        }),
{
    let id = match json_get(v, "id") {
        Some(f) => {
            match parse_u16(f) {
                Ok(x) => x,
                Err(e) => {
                    return Err(e);
                },
            }
        },
        None => {
            return Err(LoadError);
        },
    };
    let name = match json_get(v, "name") {
        Some(f) => {
            match parse_string(f) {
                Ok(s) => s,
                Err(e) => {
                    return Err(e);
                },
            }
        },
        None => {
            return Err(LoadError);
        },
    };
    let methods = match json_get(v, "methods") {
        Some(f) => {
            match json_as_array(f) {
                Some(arr) => {
                    let ghost elems = json_model(*f)->Array_0;
                    let mut ms: Vec<AMQPMethod> = Vec::new();
                    let mut i: usize = 0;
                    while i < arr.len()
                        invariant
                            spec_parse_methods(elems) is None ==> spec_parse_class(
                                json_model(*v),
                            ) is None,
                            arr@.len() == elems.len(),
                            forall|k: int|
                                0 <= k < elems.len() ==> #[trigger] json_model(arr@[k])
                                    == elems[k],
                            i <= elems.len(),
                            ms@.len() == i,
                            forall|k: int|
                                0 <= k < i ==> spec_parse_method(#[trigger] elems[k]) == Some(
                                    method_model(ms@[k]),
                                ),
                        decreases arr@.len() - i,
                    {
                        match parse_method(&arr[i]) {
                            Ok(mth) => ms.push(mth),
                            Err(e) => {
                                proof {
                                    assert(spec_parse_method(elems[i as int]) is None);
                                    assert(spec_parse_methods(elems) is None);
                                }
                                return Err(e);
                            },
                        }
                        i = i + 1;
                    }
                    proof {
                        assert(methods_model(ms@) =~= Seq::new(
                            elems.len(),
                            |k: int| spec_parse_method(elems[k]).unwrap(),
                        ));
                    }
                    ms
                },
                None => {
                    return Err(LoadError);
                },
            }
        },
        None => {
            return Err(LoadError);
        },
    };
    // method ids are unique within a class: validate, never trust the asset
    let mut i: usize = 0;
    while i < methods.len()
        invariant
            !model_method_ids_unique(methods_model(methods@)) ==> spec_parse_class(
                json_model(*v),
            ) is None,
            i <= methods@.len(),
            forall|x: int, y: int| 0 <= x < y < i ==> methods@[x].id != methods@[y].id,
        decreases methods@.len() - i,
    {
        let mut j: usize = 0;
        while j < i
            invariant
                !model_method_ids_unique(methods_model(methods@)) ==> spec_parse_class(
                    json_model(*v),
                ) is None,
                j <= i,
                i < methods@.len(),
                forall|x: int| 0 <= x < j ==> methods@[x].id != methods@[i as int].id,
            decreases i - j,
        {
            if methods[j].id == methods[i].id {
                proof {
                    assert(methods_model(methods@)[j as int] == method_model(
                        methods@[j as int],
                    ));
                    assert(methods_model(methods@)[i as int] == method_model(
                        methods@[i as int],
                    ));
                    assert(methods_model(methods@)[j as int].id == methods_model(
                        methods@,
                    )[i as int].id);
                    assert(!model_method_ids_unique(methods_model(methods@)));
                }
                return Err(LoadError);
            }
            j = j + 1;
        }
        i = i + 1;
    }
    proof {
        assert(model_method_ids_unique(methods_model(methods@))) by {
            assert forall|x: int, y: int|
                0 <= x < y < methods_model(methods@).len() implies methods_model(
                methods@,
            )[x].id != methods_model(methods@)[y].id by {
                assert(methods@[x].id != methods@[y].id);
            }
        }
    }
    let properties = match json_get(v, "properties") {
        Some(f) => {
            match json_as_array(f) {
                Some(arr) => {
                    let ghost pelems = json_model(*f)->Array_0;
                    let mut ps: Vec<AMQPProperty> = Vec::new();
                    let mut k: usize = 0;
                    while k < arr.len()
                        invariant
                            spec_parse_properties(pelems) is None ==> spec_parse_class(
                                json_model(*v),
                            ) is None,
                            arr@.len() == pelems.len(),
                            forall|x: int|
                                0 <= x < pelems.len() ==> #[trigger] json_model(arr@[x])
                                    == pelems[x],
                            k <= pelems.len(),
                            ps@.len() == k,
                            forall|x: int|
                                0 <= x < k ==> spec_parse_property(#[trigger] pelems[x]) == Some(
                                    property_model(ps@[x]),
                                ),
                        decreases arr@.len() - k,
                    {
                        match parse_property(&arr[k]) {
                            Ok(p) => ps.push(p),
                            Err(e) => {
                                proof {
                                    assert(spec_parse_property(pelems[k as int]) is None);
                                    assert(spec_parse_properties(pelems) is None);
                                }
                                return Err(e);
                            },
                        }
                        k = k + 1;
                    }
                    proof {
                        assert(properties_model(ps@) =~= Seq::new(
                            pelems.len(),
                            |x: int| spec_parse_property(pelems[x]).unwrap(),
                        ));
                    }
                    ps
                },
                None => {
                    return Err(LoadError);
                },
            }
        },
        None => {
            return Err(LoadError);
        },
    };
    let has_properties = match json_get(v, "has_properties") {
        Some(f) => {
            match parse_bool(f) {
                Ok(b) => b,
                Err(e) => {
                    return Err(e);
                },
            }
        },
        None => {
            return Err(LoadError);
        },
    };
    let is_connection = match json_get(v, "is_connection") {
        Some(f) => {
            match parse_bool(f) {
                Ok(b) => b,
                Err(e) => {
                    return Err(e);
                },
            }
        },
        None => {
            return Err(LoadError);
        },
    };
    Ok(AMQPClass { id, methods, name, properties, has_properties, is_connection })
}

/// Converts a parsed JSON tree into the protocol model, computing exactly
/// [`spec_parse_definition`] of the tree; any missing or ill-shaped field is
/// the single fatal load failure.
fn parse_definition(v: &serde_json::Value) -> (r: Result<AMQProtocolDefinition, LoadError>)
    ensures
        (match r {
            Ok(d) => spec_parse_definition(json_model(*v)) == Some(def_model(d)) && def_wf(d),
            Err(_) => spec_parse_definition(json_model(*v)) is None,
        }),
{
    let name = match json_get(v, "name") {
        Some(f) => {
            match parse_string(f) {
                Ok(s) => s,
                Err(e) => {
                    return Err(e);
                },
            }
        },
        None => {
            return Err(LoadError);
        },
    };
    let major_version = match json_get(v, "major_version") {
        Some(f) => {
            match parse_u8(f) {
                Ok(x) => x,
                Err(e) => {
                    return Err(e);
                },
            }
        },
        None => {
            return Err(LoadError);
        },
    };
    let minor_version = match json_get(v, "minor_version") {
        Some(f) => {
            match parse_u8(f) {
                Ok(x) => x,
                Err(e) => {
                    return Err(e);
                },
            }
        },
        None => {
            return Err(LoadError);
        },
    };
    let revision = match json_get(v, "revision") {
        Some(f) => {
            match parse_u8(f) {
                Ok(x) => x,
                Err(e) => {
                    return Err(e);
                },
            }
        },
        None => {
            return Err(LoadError);
        },
    };
    let port = match json_get(v, "port") {
        Some(f) => {
            match parse_u32(f) {
                Ok(x) => x,
                Err(e) => {
                    return Err(e);
                },
            }
        },
        None => {
            return Err(LoadError);
        },
    };
    let copyright = match json_get(v, "copyright") {
        Some(f) => {
            match parse_string(f) {
                Ok(s) => s,
                Err(e) => {
                    return Err(e);
                },
            }
        },
        None => {
            return Err(LoadError);
        },
    };
    let domains = match json_get(v, "domains") {
        Some(f) => {
            match parse_domains(f) {
                Ok(ds) => ds,
                Err(e) => {
                    return Err(e);
                },
            }
        },
        None => {
            return Err(LoadError);
        },
    };
    let constants = match json_get(v, "constants") {
        Some(f) => {
            match parse_constants(f) {
                Ok(cs) => cs,
                Err(e) => {
                    return Err(e);
                },
            }
        },
        None => {
            return Err(LoadError);
        },
    };
    let soft_errors = match json_get(v, "soft_errors") {
        Some(f) => {
            match parse_constants(f) {
                Ok(cs) => cs,
                Err(e) => {
                    return Err(e);
                },
            }
        },
        None => {
            return Err(LoadError);
        },
    };
    let hard_errors = match json_get(v, "hard_errors") {
        Some(f) => {
            match parse_constants(f) {
                Ok(cs) => cs,
                Err(e) => {
                    return Err(e);
                },
            }
        },
        None => {
            return Err(LoadError);
        },
    };
    let classes = match json_get(v, "classes") {
        Some(f) => {
            match json_as_array(f) {
                Some(arr) => {
                    let ghost celems = json_model(*f)->Array_0;
                    let mut cs: Vec<AMQPClass> = Vec::new();
                    let mut i: usize = 0;
                    while i < arr.len()
                        invariant
                            spec_parse_classes(celems) is None ==> spec_parse_definition(
                                json_model(*v),
                            ) is None,
                            arr@.len() == celems.len(),
                            forall|k: int|
                                0 <= k < celems.len() ==> #[trigger] json_model(arr@[k])
                                    == celems[k],
                            i <= celems.len(),
                            cs@.len() == i,
                            forall|k: int|
                                0 <= k < i ==> spec_parse_class(#[trigger] celems[k]) == Some(
                                    class_model(cs@[k]),
                                ),
                            forall|k: int|
                                0 <= k < i ==> method_ids_unique(
                                    (#[trigger] cs@[k]).methods@,
                                ),
                        decreases arr@.len() - i,
                    {
                        match parse_class(&arr[i]) {
                            Ok(c) => cs.push(c),
                            Err(e) => {
                                proof {
                                    assert(spec_parse_class(celems[i as int]) is None);
                                    assert(spec_parse_classes(celems) is None);
                                }
                                return Err(e);
                            },
                        }
                        i = i + 1;
                    }
                    proof {
                        assert(classes_model(cs@) =~= Seq::new(
                            celems.len(),
                            |k: int| spec_parse_class(celems[k]).unwrap(),
                        ));
                    }
                    cs
                },
                None => {
                    return Err(LoadError);
                },
            }
        },
        None => {
            return Err(LoadError);
        },
    };
    Ok(
        AMQProtocolDefinition {
            name,
            major_version,
            minor_version,
            revision,
            port,
            copyright,
            domains,
            constants,
            soft_errors,
            hard_errors,
            classes,
        },
    )
}

impl AMQProtocolDefinition {
    /// Loads the protocol grammar from the bundled machine-readable
    /// specification: exactly the model [`spec_load`] computes from the
    /// bundled text, so every call returns the same, lossless mirror of the
    /// asset. A malformed asset is the single fatal load failure; the model
    /// is never partial.
    pub fn load() -> (r: Result<AMQProtocolDefinition, LoadError>)
        ensures
            (match r {
                Ok(d) => spec_load() == Some(def_model(d)) && def_wf(d),
                Err(_) => spec_load() is None,
            }),
    {
        let text = crate::asset::specification_text();
        match parse_json(text.as_str()) {
            Ok(v) => parse_definition(&v),
            Err(_) => Err(LoadError),
        }
    }
}

} // verus!
