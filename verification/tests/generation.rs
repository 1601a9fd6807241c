use amq_protocol::flags::AMQPFlags;
use amq_protocol::generation::{
    gen_boolean, gen_byte_array, gen_decimal_value, gen_double, gen_field_array, gen_field_table,
    gen_flags, gen_float, gen_id, gen_long_int, gen_long_long_int, gen_long_long_uint,
    gen_long_string, gen_long_uint, gen_raw_value, gen_short_int, gen_short_short_int,
    gen_short_short_uint, gen_short_string, gen_short_uint, gen_timestamp, gen_type, gen_value,
    GenError,
};
use amq_protocol::types::{AMQPType, DecimalValue};
use amq_protocol::value::{AMQPValue, FieldTable};

#[test]
fn test_gen_raw_value() {
    let mut buf = vec![0, 0, 0, 0];
    assert_eq!(gen_raw_value(&mut buf, 0, &AMQPValue::LongInt(42)), Ok(4));
    assert_eq!(buf, vec![0, 0, 0, 42]);
    let mut buf = vec![0];
    assert_eq!(gen_raw_value(&mut buf, 0, &AMQPValue::Boolean(true)), Ok(1));
    assert_eq!(buf, vec![1]);
}

#[test]
fn test_gen_value() {
    let mut buf = vec![0, 0, 0, 0, 0];
    assert_eq!(gen_value(&mut buf, 0, &AMQPValue::LongInt(42)), Ok(5));
    assert_eq!(buf, vec![73, 0, 0, 0, 42]);
    let mut buf = vec![0, 0];
    assert_eq!(gen_value(&mut buf, 0, &AMQPValue::Boolean(true)), Ok(2));
    assert_eq!(buf, vec![116, 1]);
}

#[test]
fn test_gen_type() {
    let mut buf = vec![0];
    assert_eq!(gen_type(&mut buf, 0, AMQPType::ShortShortInt), Ok(1));
    assert_eq!(buf, vec![98]);
    let mut buf = vec![0];
    assert_eq!(gen_type(&mut buf, 0, AMQPType::ShortInt), Ok(1));
    assert_eq!(buf, vec![115]);
}

#[test]
fn test_gen_id() {
    let mut buf = vec![0, 0];
    assert_eq!(gen_id(&mut buf, 0, 0), Ok(2));
    assert_eq!(buf, vec![0, 0]);
    let mut buf = vec![0, 0];
    assert_eq!(gen_id(&mut buf, 0, 65535), Ok(2));
    assert_eq!(buf, vec![255, 255]);
}

#[test]
fn test_gen_boolean() {
    let mut buf = vec![0];
    assert_eq!(gen_boolean(&mut buf, 0, false), Ok(1));
    assert_eq!(buf, vec![0]);
    let mut buf = vec![0];
    assert_eq!(gen_boolean(&mut buf, 0, true), Ok(1));
    assert_eq!(buf, vec![1]);
}

#[test]
fn test_gen_short_short_int() {
    let mut buf = vec![0];
    assert_eq!(gen_short_short_int(&mut buf, 0, 0), Ok(1));
    assert_eq!(buf, vec![0]);
    let mut buf = vec![0];
    assert_eq!(gen_short_short_int(&mut buf, 0, -1), Ok(1));
    assert_eq!(buf, vec![255]);
}

#[test]
fn test_gen_short_short_uint() {
    let mut buf = vec![0];
    assert_eq!(gen_short_short_uint(&mut buf, 0, 0), Ok(1));
    assert_eq!(buf, vec![0]);
    let mut buf = vec![0];
    assert_eq!(gen_short_short_uint(&mut buf, 0, 255), Ok(1));
    assert_eq!(buf, vec![255]);
}

#[test]
fn test_gen_short_int() {
    let mut buf = vec![0, 0];
    assert_eq!(gen_short_int(&mut buf, 0, 0), Ok(2));
    assert_eq!(buf, vec![0, 0]);
    let mut buf = vec![0, 0];
    assert_eq!(gen_short_int(&mut buf, 0, -1), Ok(2));
    assert_eq!(buf, vec![255, 255]);
}

#[test]
fn test_gen_short_uint() {
    let mut buf = vec![0, 0];
    assert_eq!(gen_short_uint(&mut buf, 0, 0), Ok(2));
    assert_eq!(buf, vec![0, 0]);
    let mut buf = vec![0, 0];
    assert_eq!(gen_short_uint(&mut buf, 0, 65535), Ok(2));
    assert_eq!(buf, vec![255, 255]);
}

#[test]
fn test_gen_long_int() {
    let mut buf = vec![0, 0, 0, 0];
    assert_eq!(gen_long_int(&mut buf, 0, 0), Ok(4));
    assert_eq!(buf, vec![0, 0, 0, 0]);
    let mut buf = vec![0, 0, 0, 0];
    assert_eq!(gen_long_int(&mut buf, 0, -1), Ok(4));
    assert_eq!(buf, vec![255, 255, 255, 255]);
}

#[test]
fn test_gen_long_uint() {
    let mut buf = vec![0, 0, 0, 0];
    assert_eq!(gen_long_uint(&mut buf, 0, 0), Ok(4));
    assert_eq!(buf, vec![0, 0, 0, 0]);
    let mut buf = vec![0, 0, 0, 0];
    assert_eq!(gen_long_uint(&mut buf, 0, 4294967295), Ok(4));
    assert_eq!(buf, vec![255, 255, 255, 255]);
}

#[test]
fn test_gen_long_long_int() {
    let mut buf = vec![0, 0, 0, 0, 0, 0, 0, 0];
    assert_eq!(gen_long_long_int(&mut buf, 0, 0), Ok(8));
    assert_eq!(buf, vec![0, 0, 0, 0, 0, 0, 0, 0]);
    let mut buf = vec![0, 0, 0, 0, 0, 0, 0, 0];
    assert_eq!(gen_long_long_int(&mut buf, 0, -1), Ok(8));
    assert_eq!(buf, vec![255, 255, 255, 255, 255, 255, 255, 255]);
}

#[test]
fn test_gen_long_long_uint() {
    let mut buf = vec![0, 0, 0, 0, 0, 0, 0, 0];
    assert_eq!(gen_long_long_uint(&mut buf, 0, 0), Ok(8));
    assert_eq!(buf, vec![0, 0, 0, 0, 0, 0, 0, 0]);
    let mut buf = vec![0, 0, 0, 0, 0, 0, 0, 0];
    assert_eq!(gen_long_long_uint(&mut buf, 0, 18446744073709551615), Ok(8));
    assert_eq!(buf, vec![255, 255, 255, 255, 255, 255, 255, 255]);
}

#[test]
fn test_gen_float() {
    let mut buf = vec![0, 0, 0, 0];
    assert_eq!(gen_float(&mut buf, 0, 0.0f32.to_bits()), Ok(4));
    assert_eq!(buf, vec![0, 0, 0, 0]);
    let mut buf = vec![0, 0, 0, 0];
    assert_eq!(gen_float(&mut buf, 0, 42.42f32.to_bits()), Ok(4));
    assert_eq!(buf, vec![66, 41, 174, 20]);
}

#[test]
fn test_gen_double() {
    let mut buf = vec![0, 0, 0, 0, 0, 0, 0, 0];
    assert_eq!(gen_double(&mut buf, 0, 0.0f64.to_bits()), Ok(8));
    assert_eq!(buf, vec![0, 0, 0, 0, 0, 0, 0, 0]);
    let mut buf = vec![0, 0, 0, 0, 0, 0, 0, 0];
    assert_eq!(gen_double(&mut buf, 0, 42.42f64.to_bits()), Ok(8));
    assert_eq!(buf, vec![64, 69, 53, 194, 143, 92, 40, 246]);
}

#[test]
fn test_gen_decimal_value() {
    let mut buf = vec![0, 0, 0, 0, 0];
    assert_eq!(
        gen_decimal_value(&mut buf, 0, &DecimalValue { scale: 0, value: 0 }),
        Ok(5)
    );
    assert_eq!(buf, vec![0, 0, 0, 0, 0]);
    let mut buf = vec![0, 0, 0, 0, 0];
    assert_eq!(
        gen_decimal_value(&mut buf, 0, &DecimalValue { scale: 2, value: 42 }),
        Ok(5)
    );
    assert_eq!(buf, vec![2, 0, 0, 0, 42]);
}

#[test]
fn test_gen_short_string() {
    let mut buf = vec![0];
    assert_eq!(gen_short_string(&mut buf, 0, ""), Ok(1));
    assert_eq!(buf, vec![0]);
    let mut buf = vec![0, 0, 0, 0, 0];
    assert_eq!(gen_short_string(&mut buf, 0, "test"), Ok(5));
    assert_eq!(buf, vec![4, 116, 101, 115, 116]);
}

#[test]
fn test_gen_long_string() {
    let mut buf = vec![0, 0, 0, 0];
    assert_eq!(gen_long_string(&mut buf, 0, ""), Ok(4));
    assert_eq!(buf, vec![0, 0, 0, 0]);
    let mut buf = vec![0, 0, 0, 0, 0, 0, 0, 0];
    assert_eq!(gen_long_string(&mut buf, 0, "test"), Ok(8));
    assert_eq!(buf, vec![0, 0, 0, 4, 116, 101, 115, 116]);
}

#[test]
fn test_gen_field_array() {
    let mut buf = vec![0, 0, 0, 0];
    assert_eq!(gen_field_array(&mut buf, 0, &Vec::new()), Ok(4));
    assert_eq!(buf, vec![0, 0, 0, 0]);
    let mut buf = vec![0, 0, 0, 0, 0, 0];
    assert_eq!(
        gen_field_array(&mut buf, 0, &vec![AMQPValue::Boolean(true)]),
        Ok(6)
    );
    assert_eq!(buf, vec![0, 0, 0, 2, 116, 1]);
}

#[test]
fn test_gen_timestamp() {
    let mut buf = vec![0, 0, 0, 0, 0, 0, 0, 0];
    assert_eq!(gen_timestamp(&mut buf, 0, 0), Ok(8));
    assert_eq!(buf, vec![0, 0, 0, 0, 0, 0, 0, 0]);
    let mut buf = vec![0, 0, 0, 0, 0, 0, 0, 0];
    assert_eq!(gen_timestamp(&mut buf, 0, 18446744073709551615), Ok(8));
    assert_eq!(buf, vec![255, 255, 255, 255, 255, 255, 255, 255]);
}

#[test]
fn test_gen_field_table() {
    let mut table = FieldTable::new();
    table.insert("test".to_string(), AMQPValue::Float(42.42f32.to_bits()));
    table.insert("tt".to_string(), AMQPValue::LongLongInt(42));
    let mut buf = vec![0, 0, 0, 0];
    assert_eq!(gen_field_table(&mut buf, 0, &FieldTable::new()), Ok(4));
    assert_eq!(buf, vec![0, 0, 0, 0]);
    let mut buf = vec![0; 26];
    assert_eq!(gen_field_table(&mut buf, 0, &table), Ok(26));
    assert_eq!(
        buf,
        vec![
            0, 0, 0, 22, 4, 116, 101, 115, 116, 102, 66, 41, 174, 20, 2, 116, 116, 108, 0, 0, 0,
            0, 0, 0, 0, 42
        ]
    );
}

#[test]
fn test_gen_byte_array() {
    let mut buf = vec![0, 0, 0, 0];
    assert_eq!(gen_byte_array(&mut buf, 0, &Vec::new()), Ok(4));
    assert_eq!(buf, vec![0, 0, 0, 0]);
    let mut buf = vec![0, 0, 0, 0, 0, 0, 0, 0];
    assert_eq!(gen_byte_array(&mut buf, 0, &vec![42, 1, 2, 3]), Ok(8));
    assert_eq!(buf, vec![0, 0, 0, 4, 42, 1, 2, 3]);
}

#[test]
fn test_gen_flags() {
    let mut flags = AMQPFlags::new();
    flags.add_flag("a".to_string(), true);
    flags.add_flag("b".to_string(), false);
    flags.add_flag("c".to_string(), true);
    flags.add_flag("d".to_string(), true);
    let mut buf = vec![0];
    assert_eq!(gen_flags(&mut buf, 0, &flags), Ok(1));
    assert_eq!(buf, vec![0b00001101]);
    flags.add_flag("e".to_string(), true);
    flags.add_flag("f".to_string(), false);
    flags.add_flag("g".to_string(), true);
    flags.add_flag("h".to_string(), true);
    flags.add_flag("i".to_string(), false);
    flags.add_flag("j".to_string(), true);
    let mut buf = vec![0, 0];
    assert_eq!(gen_flags(&mut buf, 0, &flags), Ok(2));
    assert_eq!(buf, vec![0b11011101, 0b00000010]);
}

#[test]
fn test_buffer_too_small() {
    let mut buf = vec![0, 0, 0];
    assert_eq!(
        gen_long_int(&mut buf, 0, 42),
        Err(GenError::BufferTooSmall)
    );
    // recoverable: the same value fits a bigger buffer
    let mut buf = vec![0, 0, 0, 0];
    assert_eq!(gen_long_int(&mut buf, 0, 42), Ok(4));
    assert_eq!(buf, vec![0, 0, 0, 42]);
    // a nested value that overruns mid-payload also reports the capacity error
    let mut buf = vec![0; 5];
    assert_eq!(
        gen_field_array(&mut buf, 0, &vec![AMQPValue::Boolean(true)]),
        Err(GenError::BufferTooSmall)
    );
}

#[test]
fn test_short_string_too_long() {
    let long = "x".repeat(256);
    let mut buf = vec![0; 300];
    assert_eq!(
        gen_short_string(&mut buf, 0, long.as_str()),
        Err(GenError::StringTooLong)
    );
    let exactly = "y".repeat(255);
    let mut buf = vec![0; 256];
    assert_eq!(gen_short_string(&mut buf, 0, exactly.as_str()), Ok(256));
    assert_eq!(buf[0], 255);
}

#[test]
fn test_encoding_deterministic() {
    let value = AMQPValue::FieldArray(vec![
        AMQPValue::LongString("abc".to_string()),
        AMQPValue::ShortInt(-2),
        AMQPValue::Void,
    ]);
    let mut one = vec![0; 16];
    let mut two = vec![0; 16];
    let r1 = gen_raw_value(&mut one, 0, &value);
    let r2 = gen_raw_value(&mut two, 0, &value);
    assert_eq!(r1, r2);
    assert_eq!(one, two);
    assert_eq!(r1, Ok(16));
}

#[test]
fn test_length_prefix() {
    // the 4-byte prefix equals the byte count of everything written after it
    let value = AMQPValue::FieldArray(vec![
        AMQPValue::Boolean(true),
        AMQPValue::LongLongInt(7),
        AMQPValue::LongString("ab".to_string()),
    ]);
    let mut buf = vec![0; 64];
    let end = gen_raw_value(&mut buf, 0, &value).unwrap();
    let payload_len = end - 4;
    let prefix = u32::from_be_bytes([buf[0], buf[1], buf[2], buf[3]]);
    assert_eq!(prefix as usize, payload_len);
    assert_eq!(prefix, 2 + 9 + 7);

    let mut table = FieldTable::new();
    table.insert("k".to_string(), AMQPValue::Boolean(false));
    table.insert("a".to_string(), AMQPValue::ShortShortUInt(9));
    let mut buf = vec![0; 64];
    let end = gen_field_table(&mut buf, 0, &table).unwrap();
    let prefix = u32::from_be_bytes([buf[0], buf[1], buf[2], buf[3]]);
    assert_eq!(prefix as usize, end - 4);
}

#[test]
fn test_table_key_order() {
    // entries encode in ascending key-byte order irrespective of insertion order
    let mut one = FieldTable::new();
    one.insert("tt".to_string(), AMQPValue::LongLongInt(42));
    one.insert("test".to_string(), AMQPValue::Float(42.42f32.to_bits()));
    let mut two = FieldTable::new();
    two.insert("test".to_string(), AMQPValue::Float(42.42f32.to_bits()));
    two.insert("tt".to_string(), AMQPValue::LongLongInt(42));
    let mut buf_one = vec![0; 26];
    let mut buf_two = vec![0; 26];
    assert_eq!(gen_field_table(&mut buf_one, 0, &one), Ok(26));
    assert_eq!(gen_field_table(&mut buf_two, 0, &two), Ok(26));
    assert_eq!(buf_one, buf_two);
    // "test" < "tt" in byte order, so the "test" entry comes first
    assert_eq!(&buf_one[4..9], &[4, 116, 101, 115, 116]);
}

#[test]
fn test_table_insert_replaces() {
    let mut table = FieldTable::new();
    table.insert("k".to_string(), AMQPValue::Boolean(false));
    table.insert("k".to_string(), AMQPValue::Boolean(true));
    let mut buf = vec![0; 8];
    assert_eq!(gen_field_table(&mut buf, 0, &table), Ok(8));
    assert_eq!(buf, vec![0, 0, 0, 4, 1, 107, 116, 1]);
}

#[test]
fn test_gen_at_offset() {
    // writing does not disturb bytes before or after the value
    let mut buf = vec![9, 9, 9, 9, 9, 9];
    assert_eq!(gen_short_uint(&mut buf, 2, 0x0102), Ok(4));
    assert_eq!(buf, vec![9, 9, 1, 2, 9, 9]);
}

#[test]
fn test_gen_void() {
    // Void encodes to zero bytes: success with the buffer and offset
    // unchanged, at any offset, even past the end of the buffer
    let mut buf = vec![7, 7];
    assert_eq!(gen_raw_value(&mut buf, 0, &AMQPValue::Void), Ok(0));
    assert_eq!(buf, vec![7, 7]);
    assert_eq!(gen_raw_value(&mut buf, 2, &AMQPValue::Void), Ok(2));
    assert_eq!(gen_raw_value(&mut buf, 5, &AMQPValue::Void), Ok(5));
    assert_eq!(buf, vec![7, 7]);
}
