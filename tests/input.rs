use bigml::errors::Error;
use bigml::input::ExecutionInput;
use serde_json::Value;

#[test]
fn parses_json_values() {
    let examples = &[
        ("x=null", Value::Null),
        ("x=true", Value::Bool(true)),
        ("x=false", Value::Bool(false)),
        ("x=0", Value::Number(0.into())),
        ("x=[true]", Value::Array(vec![Value::Bool(true)])),
        ("x=\"hi\"", Value::String("hi".to_owned())),
    ];
    for (input, expected) in examples {
        let parsed = input.parse::<ExecutionInput>().unwrap();
        assert_eq!(&parsed.value, expected);
    }
}

#[test]
fn defaults_to_string_values() {
    let parsed = "x=hi".parse::<ExecutionInput>().unwrap();
    assert_eq!(parsed.value, Value::String("hi".to_owned()));
}

#[test]
fn input_name_stops_at_first_equals() {
    let parsed = ExecutionInput::parse("name=a=b").unwrap();
    assert_eq!(parsed.name, "name");
    assert_eq!(parsed.value, Value::String("a=b".to_owned()));
    let empty = ExecutionInput::parse("=").unwrap();
    assert_eq!(empty.name, "");
    assert_eq!(empty.value, Value::String(String::new()));
}

#[test]
fn input_without_equals_is_rejected() {
    match ExecutionInput::parse("novalue") {
        Err(Error::InvalidInput { input }) => assert_eq!(input, "novalue"),
        other => panic!("unexpected {:?}", other),
    }
}
