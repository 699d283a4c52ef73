use chaos_communicator::event::event_key;
use chaos_communicator::message::{ChaosMessageBuilder, ChaosMessageError};
use chaos_communicator::param::{ParamKind, ParamType, ParamValue};
use chaos_communicator::payload::PayloadStore;

#[test]
fn message_can_retieve_parameter_by_name() {
    let message = ChaosMessageBuilder::new()
        .with_param::<i32>("test", 1123)
        .build_for_event("test_event");
    assert_eq!(message.get::<i32>("test"), Some(1123));
}

#[test]
fn message_can_have_multiple_parameters() {
    let message = ChaosMessageBuilder::new()
        .with_param::<i32>("id", 1123)
        .with_param::<u8>("age", 40)
        .with_param::<&'static str>("name", "John Doe")
        .build_for_event("test_case");

    assert_eq!(message.get::<i32>("id"), Some(1123));
    assert_eq!(message.get::<u8>("age"), Some(40));
    assert_eq!(message.get::<&'static str>("name"), Some("John Doe"));
}

#[test]
fn every_kind_of_value_reads_back_as_itself() {
    let message = ChaosMessageBuilder::new()
        .with_param::<bool>("bool", true)
        .with_param::<u8>("u8", 255)
        .with_param::<u32>("u32", 4_000_000_000)
        .with_param::<u64>("u64", u64::MAX)
        .with_param::<i32>("i32", -7)
        .with_param::<i64>("i64", i64::MIN)
        .with_param::<char>("char", 'x')
        .with_param::<&'static str>("str", "borrowed")
        .with_param::<String>("text", String::from("owned"))
        .build_for_key(1, String::from("one"));

    assert_eq!(message.get::<bool>("bool"), Some(true));
    assert_eq!(message.get::<u8>("u8"), Some(255));
    assert_eq!(message.get::<u32>("u32"), Some(4_000_000_000));
    assert_eq!(message.get::<u64>("u64"), Some(u64::MAX));
    assert_eq!(message.get::<i32>("i32"), Some(-7));
    assert_eq!(message.get::<i64>("i64"), Some(i64::MIN));
    assert_eq!(message.get::<char>("char"), Some('x'));
    assert_eq!(message.get::<&'static str>("str"), Some("borrowed"));
    assert_eq!(message.get::<String>("text"), Some(String::from("owned")));
}

#[test]
fn absent_name_reads_as_nothing() {
    let empty = ChaosMessageBuilder::new().build_for_event("e");
    assert_eq!(empty.get::<i32>("p"), None);
    assert_eq!(empty.try_get::<String>("p"), Ok(None));

    let message = ChaosMessageBuilder::new().with_param::<i32>("p", 1).build_for_event("e");
    assert_eq!(message.get::<i32>("q"), None);
    assert_eq!(message.get::<u8>("P"), None);
    assert_eq!(message.try_get::<u8>(""), Ok(None));
}

#[test]
fn later_value_replaces_earlier_value_and_type() {
    let message = ChaosMessageBuilder::new()
        .with_param::<i32>("p", 1)
        .with_param::<i32>("q", 2)
        .with_param::<&'static str>("p", "second")
        .build_for_event("e");

    assert_eq!(message.get::<&'static str>("p"), Some("second"));
    assert_eq!(message.get::<i32>("q"), Some(2));
    assert_eq!(
        message.try_get::<i32>("p"),
        Err(ChaosMessageError::TypeMismatch { requested: ParamKind::I32, stored: ParamKind::Str })
    );
}

#[test]
fn reading_as_another_type_is_a_mismatch() {
    let message = ChaosMessageBuilder::new().with_param::<i32>("x", 7).build_for_event("e");

    assert_eq!(message.try_get::<i32>("x"), Ok(Some(7)));
    assert_eq!(
        message.try_get::<u8>("x"),
        Err(ChaosMessageError::TypeMismatch { requested: ParamKind::U8, stored: ParamKind::I32 })
    );
    assert_eq!(
        message.try_get::<String>("x"),
        Err(ChaosMessageError::TypeMismatch { requested: ParamKind::Text, stored: ParamKind::I32 })
    );
}

#[test]
fn borrowed_and_owned_strings_are_different_types() {
    let message = ChaosMessageBuilder::new()
        .with_param::<&'static str>("a", "text")
        .with_param::<String>("b", String::from("text"))
        .build_for_event("e");

    assert_eq!(
        message.try_get::<String>("a"),
        Err(ChaosMessageError::TypeMismatch { requested: ParamKind::Text, stored: ParamKind::Str })
    );
    assert_eq!(
        message.try_get::<&'static str>("b"),
        Err(ChaosMessageError::TypeMismatch { requested: ParamKind::Str, stored: ParamKind::Text })
    );
}

#[test]
fn message_remembers_key_and_display_form() {
    let message = ChaosMessageBuilder::new().build_for_key(99, String::from("ninety-nine"));
    assert_eq!(message.get_event(), 99);
    assert_eq!(message.get_event_name(), "ninety-nine");

    let described = ChaosMessageBuilder::new().build_for_event("unknown");
    assert_eq!(described.get_event_name(), "unknown");
    assert_eq!(described.get_event(), event_key(&"unknown"));

    let numbered = ChaosMessageBuilder::new().build_for_event(42);
    assert_eq!(numbered.get_event_name(), "42");
    assert_eq!(numbered.get_event(), event_key(&42));
}

#[test]
fn event_key_depends_on_the_descriptor() {
    assert_eq!(event_key(&42), event_key(&42));
    assert_eq!(event_key(&"topic"), event_key(&"topic"));
    assert_eq!(event_key(&String::from("topic")), event_key(&"topic"));
    assert_ne!(event_key(&1), event_key(&2));
    assert_ne!(event_key(&"a"), event_key(&"b"));
}

#[test]
fn clone_of_a_message_reads_the_same() {
    let message = ChaosMessageBuilder::new()
        .with_param::<String>("text", String::from("owned"))
        .with_param::<i32>("x", 7)
        .build_for_key(5, String::from("five"));
    let copy = message.clone();
    drop(message);

    assert_eq!(copy.get_event(), 5);
    assert_eq!(copy.get_event_name(), "five");
    assert_eq!(copy.get::<String>("text"), Some(String::from("owned")));
    assert_eq!(copy.get::<i32>("x"), Some(7));
    assert_eq!(copy.get::<i32>("y"), None);
}

#[test]
fn values_carry_the_tag_of_their_type() {
    assert_eq!(7i32.erase().tag(), ParamKind::I32);
    assert_eq!(<i32 as ParamType>::tag(), ParamKind::I32);
    assert_eq!(true.erase().tag(), ParamKind::Bool);
    assert_eq!("s".erase().tag(), ParamKind::Str);
    assert_eq!(String::from("s").erase().tag(), ParamKind::Text);
    assert_eq!(<u8 as ParamType>::recover(&ParamValue::U8(3)), Some(3));
    assert_eq!(<u8 as ParamType>::recover(&ParamValue::U32(3)), None);
    assert_eq!(<char as ParamType>::recover(&'c'.erase()), Some('c'));
    assert_eq!(<u64 as ParamType>::recover(&ParamValue::I64(3)), None);
}

#[test]
fn copy_of_a_value_keeps_tag_and_content() {
    let text = ParamValue::Text(String::from("owned"));
    let copy = text.clone();
    drop(text);
    assert_eq!(copy.tag(), ParamKind::Text);
    assert_eq!(<String as ParamType>::recover(&copy), Some(String::from("owned")));
    assert!(matches!(ParamValue::I64(-1).clone(), ParamValue::I64(-1)));
}

#[test]
fn store_keeps_one_value_per_name() {
    let store = PayloadStore::new()
        .insert(String::from("a"), ParamValue::I32(1))
        .insert(String::from("b"), ParamValue::Bool(false))
        .insert(String::from("a"), ParamValue::I32(2));

    assert!(matches!(store.get(&String::from("a")), Some(ParamValue::I32(2))));
    assert!(matches!(store.get(&String::from("b")), Some(ParamValue::Bool(false))));
    assert!(store.get(&String::from("c")).is_none());

    let copy = store.clone();
    assert!(matches!(copy.get(&String::from("a")), Some(ParamValue::I32(2))));
    assert!(PayloadStore::new().get(&String::from("a")).is_none());
}
