use amq_protocol::types::AMQPType;

#[test]
fn test_type_from_id() {
    assert_eq!(AMQPType::from_id('T'), Some(AMQPType::Timestamp));
    assert_eq!(AMQPType::from_id('S'), Some(AMQPType::LongString));
    assert_eq!(AMQPType::from_id('s'), Some(AMQPType::ShortInt));
    assert_eq!(AMQPType::from_id('z'), None);
}

#[test]
fn test_type_to_string() {
    assert_eq!(AMQPType::Boolean.to_string(), "Boolean");
    assert_eq!(AMQPType::Void.to_string(), "Void");
}

#[test]
fn test_tag_quirks() {
    // 's' and 'U' both resolve to ShortInt
    assert_eq!(AMQPType::from_id('s'), Some(AMQPType::ShortInt));
    assert_eq!(AMQPType::from_id('U'), Some(AMQPType::ShortInt));
    assert_eq!(AMQPType::from_id('s'), AMQPType::from_id('U'));
    // 'l' and 'L' both resolve to LongLongInt
    assert_eq!(AMQPType::from_id('l'), Some(AMQPType::LongLongInt));
    assert_eq!(AMQPType::from_id('L'), Some(AMQPType::LongLongInt));
    assert_eq!(AMQPType::from_id('l'), AMQPType::from_id('L'));
}

#[test]
fn test_tag_round_trip() {
    let externally_visible = [
        AMQPType::Boolean,
        AMQPType::ShortShortInt,
        AMQPType::ShortShortUInt,
        AMQPType::ShortInt,
        AMQPType::ShortUInt,
        AMQPType::LongInt,
        AMQPType::LongUInt,
        AMQPType::LongLongInt,
        AMQPType::Float,
        AMQPType::Double,
        AMQPType::DecimalValue,
        AMQPType::LongString,
        AMQPType::FieldArray,
        AMQPType::Timestamp,
        AMQPType::FieldTable,
        AMQPType::ByteArray,
        AMQPType::Void,
    ];
    for t in externally_visible {
        assert_eq!(AMQPType::from_id(t.get_id()), Some(t));
    }
    // LongLongUInt collapses to the LongLongInt tag
    assert_eq!(AMQPType::LongLongUInt.get_id(), 'l');
    assert_eq!(
        AMQPType::from_id(AMQPType::LongLongUInt.get_id()),
        Some(AMQPType::LongLongInt)
    );
    // the internal ShortString sentinel is never a valid wire tag
    assert_eq!(AMQPType::from_id(AMQPType::ShortString.get_id()), None);
}

#[test]
fn test_type_names() {
    assert_eq!(AMQPType::ShortShortUInt.to_string(), "ShortShortUInt");
    assert_eq!(AMQPType::DecimalValue.to_string(), "DecimalValue");
    assert_eq!(AMQPType::FieldTable.to_string(), "FieldTable");
    assert_eq!(AMQPType::LongLongUInt.to_string(), "LongLongUInt");
}
