use ascot::error::Error;
use ascot::input::{Input, InputData};
use ascot::json::JsonValue;
use ascot::parameters::kind::ParameterKind;
use serde_json::Value;

fn to_value(document: &JsonValue) -> Value {
    match document {
        JsonValue::Null => Value::Null,
        JsonValue::Bool(b) => Value::Bool(*b),
        JsonValue::Unsigned(n) => Value::from(*n),
        JsonValue::Signed(n) => Value::from(*n),
        JsonValue::Single(bits) => Value::from(f32::from_bits(*bits)),
        JsonValue::Double(bits) => Value::from(f64::from_bits(*bits)),
        JsonValue::Text(s) => Value::String(s.clone()),
        JsonValue::Array(items) => Value::Array(items.iter().map(to_value).collect()),
        JsonValue::Object(members) => {
            let mut map = serde_json::Map::new();
            for (name, value) in members {
                map.insert(name.clone(), to_value(value));
            }
            Value::Object(map)
        }
    }
}

fn serialize(data: InputData) -> Value {
    to_value(&data.to_json())
}

fn deserialize(data: InputData) -> InputData {
    InputData::from_json(&data.to_json()).unwrap()
}

fn expected(text: &str) -> Value {
    serde_json::from_str(text).unwrap()
}

fn range_bits() -> (u64, u64, u64) {
    (0f64.to_bits(), 20f64.to_bits(), 0.1f64.to_bits())
}

#[test]
fn test_all_inputs() {
    assert_eq!(
        deserialize(InputData::new(Input::bool("bool", true))),
        InputData::new(Input::bool("bool", true))
    );

    assert_eq!(
        deserialize(InputData::new(Input::u8("u8", 0))),
        InputData::new(Input::u8("u8", 0))
    );

    assert_eq!(
        deserialize(InputData::new(
            Input::rangeu64_with_default("rangeu64", (0, 20, 1), 5).unwrap()
        )),
        InputData::new(Input::rangeu64_with_default("rangeu64", (0, 20, 1), 5).unwrap())
    );

    assert_eq!(
        deserialize(InputData::new(
            Input::rangef64_with_default("rangef64", range_bits(), 5f64.to_bits()).unwrap()
        )),
        InputData::new(
            Input::rangef64_with_default("rangef64", range_bits(), 5f64.to_bits()).unwrap()
        )
    );

    assert_eq!(
        deserialize(InputData::new(Input::characters_sequence(
            "greeting", "hello",
        ))),
        InputData::new(Input::characters_sequence("greeting", "hello"))
    );

    assert_eq!(
        deserialize(InputData::new(Input::characters_sequence(
            "greeting",
            &"hello".to_string(),
        ))),
        InputData::new(Input::characters_sequence("greeting", "hello"))
    );
}

#[test]
fn input_test_all_inputs() {
    assert_eq!(
        serialize(InputData::new(Input::bool("bool", true))),
        expected(r#"{"name": "bool", "structure": {"Bool": {"default": true}}}"#)
    );

    assert_eq!(
        serialize(InputData::new(Input::u8("u8", 0))),
        expected(r#"{"name": "u8", "structure": {"U8": {"default": 0}}}"#)
    );

    assert_eq!(
        serialize(InputData::new(
            Input::rangeu64_with_default("rangeu64", (0, 20, 1), 5).unwrap()
        )),
        expected(
            r#"{"name": "rangeu64",
                "structure": {"RangeU64": {"min": 0, "max": 20, "step": 1, "default": 5}}}"#
        )
    );

    assert_eq!(
        serialize(InputData::new(
            Input::rangef64_with_default("rangef64", range_bits(), 5f64.to_bits()).unwrap()
        )),
        expected(
            r#"{"name": "rangef64",
                "structure": {"RangeF64": {"min": 0.0, "max": 20.0, "step": 0.1, "default": 5.0}}}"#
        )
    );
}

#[test]
fn inputs_are_read_back_with_their_structure() {
    let data = InputData::new(Input::rangeu64_with_default("r", (1, 9, 2), 3).unwrap());
    let read = InputData::from_json(&data.to_json()).unwrap();
    assert_eq!(read.name, "r");
    assert!(matches!(
        read.structure,
        ParameterKind::RangeU64 { min: 1, max: 9, step: 2, default: 3 }
    ));
    let data = InputData::new(Input::characters_sequence("greeting", "hello"));
    let read = InputData::from_json(&data.to_json()).unwrap();
    assert!(matches!(
        read.structure,
        ParameterKind::CharSequence { ref default } if default == "hello"
    ));
    assert!(InputData::from_json(&JsonValue::Null).is_none());
    assert!(InputData::from_json(&JsonValue::Object(vec![(
        "name".to_string(),
        JsonValue::Text("x".to_string())
    )]))
    .is_none());
}

#[test]
fn inputs_are_equal_by_name() {
    assert_eq!(Input::bool("a", true), Input::u8("a", 3));
    assert_ne!(Input::bool("a", true), Input::bool("b", true));
    assert_eq!(
        InputData::new(Input::bool("a", true)),
        InputData::new(Input::u8("a", 3))
    );
    assert_ne!(
        InputData::new(Input::bool("a", true)),
        InputData::new(Input::bool("b", true))
    );
    assert_eq!(Input::bool("a", true).name(), "a");
    assert!(matches!(
        Input::u8("a", 3).structure(),
        ParameterKind::U8 { default: 3 }
    ));
}

#[test]
fn input_ranges_are_checked() {
    assert!(Input::rangeu64("r", (0, 20, 1)).is_ok());
    assert_eq!(
        Input::rangeu64("r", (1, 20, 1)).err(),
        Some(Error::InvalidParameterRange)
    );
    assert_eq!(
        Input::rangeu64_with_default("r", (0, 20, 0), 5).err(),
        Some(Error::InvalidParameterRange)
    );
    assert_eq!(
        Input::rangeu64_with_default("r", (0, 20, 1), 21).err(),
        Some(Error::InvalidParameterRange)
    );
    assert!(Input::rangef64("r", range_bits()).is_ok());
    assert_eq!(
        Input::rangef64_with_default("r", range_bits(), 20.5f64.to_bits()).err(),
        Some(Error::InvalidParameterRange)
    );
    assert_eq!(
        Input::rangef64("r", (1f64.to_bits(), 2f64.to_bits(), 1f64.to_bits())).err(),
        Some(Error::InvalidParameterRange)
    );
}
