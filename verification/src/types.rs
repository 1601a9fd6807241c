//! The closed set of wire-level value tags and its bidirectional mapping to
//! single-character wire identifiers, including the documented RabbitMQ
//! deviations from the official grammar.

use vstd::prelude::*;

verus! {

/// A wire-level value tag. Every tag maps to exactly one canonical wire
/// character; the inverse mapping is total but not injective (see
/// [`AMQPType::spec_from_id`]).
#[derive(Clone, Copy, Debug, PartialEq, Eq, Structural)]
pub enum AMQPType {
    Boolean,
    ShortShortInt,
    ShortShortUInt,
    ShortInt,
    ShortUInt,
    LongInt,
    LongUInt,
    LongLongInt,
    LongLongUInt,
    Float,
    Double,
    DecimalValue,
    ShortString,
    LongString,
    FieldArray,
    Timestamp,
    FieldTable,
    ByteArray,
    Void,
}

impl AMQPType {
    /// The canonical wire character of each tag. `ShortString` is internal
    /// only: its character is a sentinel that is never valid on the wire.
    /// RabbitMQ ignores `LongLongUInt` as a distinct tag, so it collapses to
    /// the `LongLongInt` character.
    pub open spec fn spec_id(self) -> char {
        match self {
            AMQPType::Boolean => 't',
            AMQPType::ShortShortInt => 'b',
            AMQPType::ShortShortUInt => 'B',
            AMQPType::ShortInt => 's',
            AMQPType::ShortUInt => 'u',
            AMQPType::LongInt => 'I',
            AMQPType::LongUInt => 'i',
            AMQPType::LongLongInt => 'l',
            AMQPType::LongLongUInt => 'l',
            AMQPType::Float => 'f',
            AMQPType::Double => 'd',
            AMQPType::DecimalValue => 'D',
            AMQPType::ShortString => '_',
            AMQPType::LongString => 'S',
            AMQPType::FieldArray => 'A',
            AMQPType::Timestamp => 'T',
            AMQPType::FieldTable => 'F',
            AMQPType::ByteArray => 'x',
            AMQPType::Void => 'V',
        }
    }

    /// The inverse lookup used on the decode side. The official grammar says
    /// `'U'` for a short int and `'L'` for a long long int, while RabbitMQ
    /// emits `'s'` and `'l'`; both spellings are accepted here and resolve to
    /// the same tag.
    pub open spec fn spec_from_id(id: char) -> Option<AMQPType> {
        match id {
            't' => Some(AMQPType::Boolean),
            'b' => Some(AMQPType::ShortShortInt),
            'B' => Some(AMQPType::ShortShortUInt),
            's' => Some(AMQPType::ShortInt),
            'U' => Some(AMQPType::ShortInt),
            'u' => Some(AMQPType::ShortUInt),
            'I' => Some(AMQPType::LongInt),
            'i' => Some(AMQPType::LongUInt),
            'L' => Some(AMQPType::LongLongInt),
            'l' => Some(AMQPType::LongLongInt),
            'f' => Some(AMQPType::Float),
            'd' => Some(AMQPType::Double),
            'D' => Some(AMQPType::DecimalValue),
            'S' => Some(AMQPType::LongString),
            'A' => Some(AMQPType::FieldArray),
            'T' => Some(AMQPType::Timestamp),
            'F' => Some(AMQPType::FieldTable),
            'x' => Some(AMQPType::ByteArray),
            'V' => Some(AMQPType::Void),
            _ => None,
        }
    }

    /// The tag a wire character resolves to, or `None` for an unknown
    /// character.
    pub fn from_id(id: char) -> (r: Option<AMQPType>)
        ensures
            r == Self::spec_from_id(id),
    {
        match id {
            't' => Some(AMQPType::Boolean),
            'b' => Some(AMQPType::ShortShortInt),
            'B' => Some(AMQPType::ShortShortUInt),
            's' => Some(AMQPType::ShortInt),
            'U' => Some(AMQPType::ShortInt),
            'u' => Some(AMQPType::ShortUInt),
            'I' => Some(AMQPType::LongInt),
            'i' => Some(AMQPType::LongUInt),
            'L' => Some(AMQPType::LongLongInt),
            'l' => Some(AMQPType::LongLongInt),
            'f' => Some(AMQPType::Float),
            'd' => Some(AMQPType::Double),
            'D' => Some(AMQPType::DecimalValue),
            'S' => Some(AMQPType::LongString),
            'A' => Some(AMQPType::FieldArray),
            'T' => Some(AMQPType::Timestamp),
            'F' => Some(AMQPType::FieldTable),
            'x' => Some(AMQPType::ByteArray),
            'V' => Some(AMQPType::Void),
            _ => None,
        }
    }

    /// The canonical wire character of this tag.
    pub fn get_id(&self) -> (r: char)
        ensures
            r == self.spec_id(),
    {
        match self {
            AMQPType::Boolean => 't',
            AMQPType::ShortShortInt => 'b',
            AMQPType::ShortShortUInt => 'B',
            AMQPType::ShortInt => 's',
            AMQPType::ShortUInt => 'u',
            AMQPType::LongInt => 'I',
            AMQPType::LongUInt => 'i',
            AMQPType::LongLongInt => 'l',
            AMQPType::LongLongUInt => 'l',
            AMQPType::Float => 'f',
            AMQPType::Double => 'd',
            AMQPType::DecimalValue => 'D',
            AMQPType::ShortString => '_',
            AMQPType::LongString => 'S',
            AMQPType::FieldArray => 'A',
            AMQPType::Timestamp => 'T',
            AMQPType::FieldTable => 'F',
            AMQPType::ByteArray => 'x',
            AMQPType::Void => 'V',
        }
    }

    /// The tag's name, as it appears in the machine-readable specification.
    pub open spec fn spec_name(self) -> Seq<char> {
        match self {
            AMQPType::Boolean => "Boolean"@,
            AMQPType::ShortShortInt => "ShortShortInt"@,
            AMQPType::ShortShortUInt => "ShortShortUInt"@,
            AMQPType::ShortInt => "ShortInt"@,
            AMQPType::ShortUInt => "ShortUInt"@,
            AMQPType::LongInt => "LongInt"@,
            AMQPType::LongUInt => "LongUInt"@,
            AMQPType::LongLongInt => "LongLongInt"@,
            AMQPType::LongLongUInt => "LongLongUInt"@,
            AMQPType::Float => "Float"@,
            AMQPType::Double => "Double"@,
            AMQPType::DecimalValue => "DecimalValue"@,
            AMQPType::ShortString => "ShortString"@,
            AMQPType::LongString => "LongString"@,
            AMQPType::FieldArray => "FieldArray"@,
            AMQPType::Timestamp => "Timestamp"@,
            AMQPType::FieldTable => "FieldTable"@,
            AMQPType::ByteArray => "ByteArray"@,
            AMQPType::Void => "Void"@,
        }
    }

    /// The tag's name as an owned string.
    pub fn to_string(&self) -> (r: String)
        ensures
            r@ == self.spec_name(),
    {
        match self {
            AMQPType::Boolean => "Boolean".to_owned(),
            AMQPType::ShortShortInt => "ShortShortInt".to_owned(),
            AMQPType::ShortShortUInt => "ShortShortUInt".to_owned(),
            AMQPType::ShortInt => "ShortInt".to_owned(),
            AMQPType::ShortUInt => "ShortUInt".to_owned(),
            AMQPType::LongInt => "LongInt".to_owned(),
            AMQPType::LongUInt => "LongUInt".to_owned(),
            AMQPType::LongLongInt => "LongLongInt".to_owned(),
            AMQPType::LongLongUInt => "LongLongUInt".to_owned(),
            AMQPType::Float => "Float".to_owned(),
            AMQPType::Double => "Double".to_owned(),
            AMQPType::DecimalValue => "DecimalValue".to_owned(),
            AMQPType::ShortString => "ShortString".to_owned(),
            AMQPType::LongString => "LongString".to_owned(),
            AMQPType::FieldArray => "FieldArray".to_owned(),
            AMQPType::Timestamp => "Timestamp".to_owned(),
            AMQPType::FieldTable => "FieldTable".to_owned(),
            AMQPType::ByteArray => "ByteArray".to_owned(),
            AMQPType::Void => "Void".to_owned(),
        }
    }
}

/// Tag round-trip law: every tag that may legitimately stand on the wire
/// decodes back to itself. `ShortString` is internal only and `LongLongUInt`
/// is never emitted as a distinct tag (its character collapses to
/// `LongLongInt`), so those two are excluded.
pub proof fn lemma_tag_round_trip(t: AMQPType)
    requires
        t != AMQPType::ShortString,
        t != AMQPType::LongLongUInt,
    ensures
        AMQPType::spec_from_id(t.spec_id()) == Some(t),
{
}

/// The documented collapse: a `LongLongUInt` value is tagged with the
/// `LongLongInt` character, so its tag decodes to `LongLongInt`.
pub proof fn lemma_long_long_uint_collapses()
    ensures
        AMQPType::spec_from_id(AMQPType::LongLongUInt.spec_id()) == Some(AMQPType::LongLongInt),
{
}

/// A decimal value: a scale and an unsigned 32-bit mantissa, opaque at this
/// layer (no numeric interpretation is performed).
#[derive(Clone, Copy, Debug, PartialEq, Eq, Structural)]
pub struct DecimalValue {
    pub scale: u8,
    pub value: u32,
}

} // verus!
