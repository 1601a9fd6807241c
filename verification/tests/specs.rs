use amq_protocol::specs::{AMQPArgument, AMQProtocolDefinition};
use amq_protocol::types::AMQPType;
use amq_protocol::value::AMQPValue;

#[test]
fn test_description() {
    let d = AMQProtocolDefinition::load().unwrap();
    assert_eq!(
        format!(
            "{} - {}.{}.{}",
            d.name, d.major_version, d.minor_version, d.revision
        ),
        "AMQP - 0.9.1"
    );
}

#[test]
fn test_load_top_level() {
    let d = AMQProtocolDefinition::load().unwrap();
    assert_eq!(d.port, 5672);
    assert!(!d.copyright.is_empty());
    assert!(!d.constants.is_empty());
    assert!(!d.soft_errors.is_empty());
    assert!(!d.hard_errors.is_empty());
}

#[test]
fn test_load_domains() {
    let d = AMQProtocolDefinition::load().unwrap();
    // single-level: a domain name resolves directly to a concrete type
    let queue_name = d
        .domains
        .iter()
        .find(|(n, _)| n == "queue-name")
        .map(|(_, t)| *t);
    assert_eq!(queue_name, Some(AMQPType::ShortString));
    let delivery_tag = d
        .domains
        .iter()
        .find(|(n, _)| n == "delivery-tag")
        .map(|(_, t)| *t);
    assert_eq!(delivery_tag, Some(AMQPType::LongLongUInt));
    // names ascending and unique
    for w in d.domains.windows(2) {
        assert!(w[0].0.as_bytes() < w[1].0.as_bytes());
    }
}

#[test]
fn test_load_classes() {
    let d = AMQProtocolDefinition::load().unwrap();
    let connection = d.classes.iter().find(|c| c.name == "connection").unwrap();
    assert_eq!(connection.id, 10);
    assert!(connection.is_connection);
    assert!(!connection.has_properties);
    let close = connection.methods.iter().find(|m| m.name == "close").unwrap();
    assert_eq!(close.id, 50);
    assert!(close.synchronous);

    let basic = d.classes.iter().find(|c| c.name == "basic").unwrap();
    assert_eq!(basic.id, 60);
    assert!(basic.has_properties);
    assert_eq!(basic.properties.len(), 14);
    assert_eq!(basic.properties[0].name, "content-type");
    assert_eq!(basic.properties[0].amqp_type, AMQPType::ShortString);

    // method ids unique within each class
    for c in &d.classes {
        for (i, m) in c.methods.iter().enumerate() {
            for other in &c.methods[i + 1..] {
                assert_ne!(m.id, other.id);
            }
        }
    }
}

#[test]
fn test_load_arguments() {
    let d = AMQProtocolDefinition::load().unwrap();
    let basic = d.classes.iter().find(|c| c.name == "basic").unwrap();
    let publish = basic.methods.iter().find(|m| m.name == "publish").unwrap();
    assert_eq!(publish.id, 40);
    assert!(publish.has_arguments);
    assert!(publish.has_flags);
    assert!(!publish.synchronous);
    match &publish.arguments[1] {
        AMQPArgument::Value(a) => {
            assert_eq!(a.name, "exchange");
            assert_eq!(a.amqp_type, AMQPType::ShortString);
            assert_eq!(a.domain.as_deref(), Some("exchange-name"));
            assert_eq!(
                a.default_value,
                Some(AMQPValue::LongString(String::new()))
            );
        }
        AMQPArgument::Flags(_) => panic!("expected a typed argument"),
    }
    match &publish.arguments[3] {
        AMQPArgument::Flags(flags) => {
            assert_eq!(flags.len(), 2);
            assert_eq!(flags[0].name, "mandatory");
            assert!(!flags[0].default_value);
        }
        AMQPArgument::Value(_) => panic!("expected a flags group"),
    }
}
