use ascot::error::Error;
use ascot::json::JsonValue;
use ascot::parameters::bounded::Parameters;
use ascot::parameters::data::ParametersData;
use ascot::parameters::kind::ParameterKind;
use serde_json::Value;

fn to_value(document: &JsonValue) -> Value {
    match document {
        JsonValue::Null => Value::Null,
        JsonValue::Bool(b) => Value::Bool(*b),
        JsonValue::Unsigned(n) => Value::from(*n),
        JsonValue::Signed(n) => Value::from(*n),
        JsonValue::Single(bits) => Value::from(f32::from_bits(*bits)),
        JsonValue::Double(bits) => Value::from(f64::from_bits(*bits)),
        JsonValue::Text(s) => Value::String(s.clone()),
        JsonValue::Array(items) => Value::Array(items.iter().map(to_value).collect()),
        JsonValue::Object(members) => {
            let mut map = serde_json::Map::new();
            for (name, value) in members {
                map.insert(name.clone(), to_value(value));
            }
            Value::Object(map)
        }
    }
}

fn expected(text: &str) -> Value {
    serde_json::from_str(text).unwrap()
}

fn serialize(data: ParametersData) -> Value {
    to_value(&data.to_json())
}

fn names(data: &ParametersData) -> Vec<String> {
    (0..data.len())
        .map(|i| data.entry(i).unwrap().0.to_string())
        .collect()
}

#[test]
fn test_numeric_parameters() {
    let parameters = Parameters::eight()
        .bool("bool", true)
        .unwrap()
        .u8("u8", 0)
        .unwrap()
        .u16("u16", 0)
        .unwrap()
        .u32("u32", 0)
        .unwrap()
        .u64("u64", 0)
        .unwrap()
        .float32("f32", 0f32.to_bits())
        .unwrap()
        .float64("f64", 0f64.to_bits())
        .unwrap()
        // Adds a duplicate to see whether that value is maintained or
        // removed.
        .u16("u16", 0)
        .unwrap();

    assert_eq!(
        serialize(parameters.serialize_data()),
        expected(
            r#"{
                "bool": { "Bool": { "default": true } },
                "f32": { "F32": { "default": 0.0 } },
                "f64": { "F64": { "default": 0.0 } },
                "u16": { "U16": { "default": 0 } },
                "u32": { "U32": { "default": 0 } },
                "u64": { "U64": { "default": 0 } },
                "u8": { "U8": { "default": 0 } }
            }"#
        )
    );
}

#[test]
fn test_range_parameters() {
    let parameters = Parameters::two()
        .rangeu64_with_default("rangeu64", (0, 20, 1), 5)
        .unwrap()
        .rangef64_with_default(
            "rangef64",
            (0f64.to_bits(), 20f64.to_bits(), 0.1f64.to_bits()),
            5f64.to_bits(),
        )
        .unwrap();

    assert_eq!(
        serialize(parameters.serialize_data()),
        expected(
            r#"{
                "rangef64": {
                    "RangeF64": { "default": 5.0, "max": 20.0, "min": 0.0, "step": 0.1 }
                },
                "rangeu64": {
                    "RangeU64": { "default": 5, "max": 20, "min": 0, "step": 1 }
                }
            }"#
        )
    );
}

#[test]
fn duplicate_key_same_value_gives_one_entry() {
    let parameters = Parameters::two()
        .u16("x", 0)
        .unwrap()
        .u16("x", 0)
        .unwrap();
    assert_eq!(parameters.len(), 1);
    assert_eq!(
        serialize(parameters.serialize_data()),
        expected(r#"{"x": {"U16": {"default": 0}}}"#)
    );

    let data = ParametersData::new()
        .u16("x", 0)
        .unwrap()
        .u16("x", 0)
        .unwrap();
    assert_eq!(data.len(), 1);
    assert_eq!(
        serialize(data),
        expected(r#"{"x": {"U16": {"default": 0}}}"#)
    );
}

#[test]
fn range_with_default_outside_is_refused() {
    let range = (1f64.to_bits(), 4f64.to_bits(), 0.1f64.to_bits());
    assert_eq!(
        ParametersData::new()
            .rangef64_with_default("t", range, 5f64.to_bits())
            .err(),
        Some(Error::InvalidParameterRange)
    );
    assert_eq!(
        Parameters::one()
            .rangef64_with_default("t", range, 5f64.to_bits())
            .err(),
        Some(Error::InvalidParameterRange)
    );
    assert_eq!(
        ParameterKind::range_double(range.0, range.1, range.2, 5f64.to_bits()).err(),
        Some(Error::InvalidParameterRange)
    );
    assert!(ParametersData::new()
        .rangef64_with_default("t", range, 2f64.to_bits())
        .is_ok());
}

#[test]
fn fifth_name_for_capacity_four_is_refused() {
    let mut parameters = Parameters::four()
        .u8("a", 1)
        .unwrap()
        .u8("b", 2)
        .unwrap()
        .u8("c", 3)
        .unwrap()
        .u8("d", 4)
        .unwrap();
    assert_eq!(parameters.capacity(), 4);
    assert_eq!(parameters.len(), 4);

    assert_eq!(
        parameters.insert("e", ParameterKind::U8 { default: 5 }),
        Err(Error::CapacityExceeded)
    );
    assert_eq!(parameters.len(), 4);
    assert!(!parameters.contains("e"));
    for (i, name) in ["a", "b", "c", "d"].iter().enumerate() {
        let (found, kind) = parameters.entry(i).unwrap();
        assert_eq!(found, *name);
        assert!(matches!(kind, ParameterKind::U8 { default } if *default as usize == i + 1));
    }
    assert!(parameters.entry(4).is_none());

    // A name that is present is still accepted, and replaces.
    assert_eq!(
        parameters.insert("b", ParameterKind::U8 { default: 9 }),
        Ok(true)
    );
    assert_eq!(parameters.len(), 4);
    assert!(matches!(
        parameters.entry(1).unwrap().1,
        ParameterKind::U8 { default: 9 }
    ));
}

#[test]
fn capacities_of_the_constructors() {
    assert_eq!(Parameters::one().capacity(), 2);
    assert_eq!(Parameters::two().capacity(), 2);
    assert_eq!(Parameters::three().capacity(), 4);
    assert_eq!(Parameters::four().capacity(), 4);
    assert_eq!(Parameters::five().capacity(), 8);
    assert_eq!(Parameters::six().capacity(), 8);
    assert_eq!(Parameters::seven().capacity(), 8);
    assert_eq!(Parameters::eight().capacity(), 8);
    assert!(Parameters::eight().is_empty());

    let full = Parameters::two().bool("a", true).unwrap().bool("b", true).unwrap();
    assert_eq!(full.bool("c", true).err(), Some(Error::CapacityExceeded));

    let mut eight = Parameters::eight();
    for name in ["a", "b", "c", "d", "e", "f", "g", "h"] {
        assert_eq!(eight.insert(name, ParameterKind::Bool { default: false }), Ok(false));
    }
    assert_eq!(eight.len(), 8);
    assert_eq!(
        eight.insert("i", ParameterKind::Bool { default: false }),
        Err(Error::CapacityExceeded)
    );
    assert_eq!(eight.insert("h", ParameterKind::Bool { default: true }), Ok(true));
    assert_eq!(eight.len(), 8);
}

#[test]
fn bounded_map_keeps_first_place_and_last_kind() {
    let mut parameters = Parameters::four();
    assert!(!parameters.contains("a"));
    assert_eq!(parameters.insert("a", ParameterKind::U8 { default: 1 }), Ok(false));
    assert_eq!(parameters.insert("b", ParameterKind::U8 { default: 2 }), Ok(false));
    assert_eq!(parameters.insert("a", ParameterKind::U16 { default: 3 }), Ok(true));
    assert!(parameters.contains("a"));
    assert!(parameters.contains("b"));
    assert!(!parameters.contains("c"));
    assert_eq!(parameters.len(), 2);
    assert!(!parameters.is_empty());
    assert_eq!(parameters.entry(0).unwrap().0, "a");
    assert!(matches!(
        parameters.entry(0).unwrap().1,
        ParameterKind::U16 { default: 3 }
    ));
    assert_eq!(parameters.entry(1).unwrap().0, "b");

    let data = parameters.serialize_data();
    assert_eq!(names(&data), vec!["a".to_string(), "b".to_string()]);
    assert!(matches!(data.get("a"), Some(ParameterKind::U16 { default: 3 })));
    assert!(matches!(data.get("b"), Some(ParameterKind::U8 { default: 2 })));
    assert!(data.get("c").is_none());
}

#[test]
fn growable_map_keeps_first_place_and_last_kind() {
    let mut data = ParametersData::new();
    assert!(data.is_empty());
    assert_eq!(data.insert("a", ParameterKind::U8 { default: 1 }), Ok(false));
    assert_eq!(data.insert("b", ParameterKind::U8 { default: 2 }), Ok(false));
    assert_eq!(data.insert("a", ParameterKind::U16 { default: 3 }), Ok(true));
    assert_eq!(data.len(), 2);
    assert_eq!(data.index_of("a"), Some(0));
    assert_eq!(data.index_of("b"), Some(1));
    assert_eq!(data.index_of("c"), None);
    assert!(data.contains("b"));
    assert_eq!(names(&data), vec!["a".to_string(), "b".to_string()]);
    for i in 0..20 {
        let name = format!("p{}", i);
        assert_eq!(data.insert(&name, ParameterKind::Bool { default: true }), Ok(false));
    }
    assert_eq!(data.len(), 22);
}

#[test]
fn both_backends_write_the_same_document() {
    let mut bounded = Parameters::four();
    let mut growable = ParametersData::new();
    let steps: Vec<(&'static str, u64)> =
        vec![("x", 1), ("y", 2), ("x", 3), ("z", 4), ("y", 5), ("x", 3)];
    for (name, default) in steps {
        let a = bounded.insert(name, ParameterKind::U64 { default });
        let b = growable.insert(name, ParameterKind::U64 { default });
        assert_eq!(a, b);
    }
    let text_bounded = serde_json::to_vec(&serialize(bounded.serialize_data())).unwrap();
    let text_growable = serde_json::to_vec(&serialize(growable)).unwrap();
    assert_eq!(text_bounded, text_growable);
    assert_eq!(
        String::from_utf8(text_bounded).unwrap(),
        r#"{"x":{"U64":{"default":3}},"y":{"U64":{"default":5}},"z":{"U64":{"default":4}}}"#
    );
}

#[test]
fn invalid_ranges_are_refused_and_change_nothing() {
    let mut data = ParametersData::new();
    assert_eq!(
        data.insert("r", ParameterKind::RangeU64 { min: 5, max: 1, step: 1, default: 3 }),
        Err(Error::InvalidParameterRange)
    );
    assert_eq!(
        data.insert("r", ParameterKind::RangeU64 { min: 1, max: 5, step: 0, default: 3 }),
        Err(Error::InvalidParameterRange)
    );
    assert_eq!(
        data.insert("r", ParameterKind::RangeU64 { min: 1, max: 5, step: 1, default: 6 }),
        Err(Error::InvalidParameterRange)
    );
    assert_eq!(
        data.insert("r", ParameterKind::RangeU64 { min: 1, max: 5, step: 1, default: 0 }),
        Err(Error::InvalidParameterRange)
    );
    assert!(data.is_empty());
    assert_eq!(
        data.insert("r", ParameterKind::RangeU64 { min: 1, max: 5, step: 1, default: 5 }),
        Ok(false)
    );
    assert_eq!(
        data.insert("r", ParameterKind::RangeU64 { min: 9, max: 5, step: 1, default: 5 }),
        Err(Error::InvalidParameterRange)
    );
    assert!(matches!(
        data.get("r"),
        Some(ParameterKind::RangeU64 { min: 1, max: 5, step: 1, default: 5 })
    ));

    // An invalid range is reported before a full map is.
    let full = Parameters::two().bool("a", true).unwrap().bool("b", true).unwrap();
    assert_eq!(
        full.rangeu64_with_default("c", (3, 2, 1), 2).err(),
        Some(Error::InvalidParameterRange)
    );

    // Without a default the default is zero, which the range has to hold.
    assert!(ParametersData::new().rangeu64("r", (0, 3, 1)).is_ok());
    assert_eq!(
        ParametersData::new().rangeu64("r", (1, 3, 1)).err(),
        Some(Error::InvalidParameterRange)
    );
    let range = ((-1f64).to_bits(), 1f64.to_bits(), 0.5f64.to_bits());
    assert!(ParametersData::new().rangef64("r", range).is_ok());
    let range = (1f64.to_bits(), 2f64.to_bits(), 0.5f64.to_bits());
    assert_eq!(
        ParametersData::new().rangef64("r", range).err(),
        Some(Error::InvalidParameterRange)
    );
}

#[test]
fn ranges_of_floating_point_numbers() {
    let check = |min: f64, max: f64, step: f64, default: f64| {
        ParameterKind::range_double(min.to_bits(), max.to_bits(), step.to_bits(), default.to_bits())
            .is_ok()
    };
    assert!(check(1.0, 4.0, 0.1, 2.0));
    assert!(check(1.0, 4.0, 0.1, 1.0));
    assert!(check(1.0, 4.0, 0.1, 4.0));
    assert!(!check(1.0, 4.0, 0.1, 5.0));
    assert!(!check(1.0, 4.0, 0.1, 0.5));
    assert!(!check(4.0, 1.0, 0.1, 2.0));
    assert!(!check(1.0, 4.0, 0.0, 2.0));
    assert!(!check(1.0, 4.0, -0.0, 2.0));
    assert!(!check(1.0, 4.0, -0.1, 2.0));
    assert!(!check(1.0, 4.0, f64::NAN, 2.0));
    assert!(!check(f64::NAN, 4.0, 0.1, 2.0));
    assert!(!check(1.0, f64::NAN, 0.1, 2.0));
    assert!(!check(1.0, 4.0, 0.1, f64::NAN));
    assert!(check(-4.0, -1.0, 0.1, -2.0));
    assert!(!check(-4.0, -1.0, 0.1, 0.0));
    assert!(check(-0.0, 0.0, 1.0, 0.0));
    assert!(check(0.0, -0.0, 1.0, -0.0));
    assert!(check(f64::NEG_INFINITY, f64::INFINITY, f64::INFINITY, 0.0));
    assert!(check(f64::MIN_POSITIVE, 1.0, f64::MIN_POSITIVE, f64::MIN_POSITIVE));
}

#[test]
fn kinds_are_read_back_from_their_documents() {
    let kinds = vec![
        ParameterKind::Bool { default: true },
        ParameterKind::U8 { default: 255 },
        ParameterKind::U16 { default: 65535 },
        ParameterKind::U32 { default: u32::MAX },
        ParameterKind::U64 { default: u64::MAX },
        ParameterKind::F32 { default: 1.5f32.to_bits() },
        ParameterKind::F64 { default: (-2.25f64).to_bits() },
        ParameterKind::RangeU64 { min: 1, max: 9, step: 2, default: 3 },
        ParameterKind::RangeF64 {
            min: 0.5f64.to_bits(),
            max: 9f64.to_bits(),
            step: 0.25f64.to_bits(),
            default: 3f64.to_bits(),
        },
        ParameterKind::char_sequence("hello \"world\""),
    ];
    for kind in kinds {
        let read = ParameterKind::from_json(&kind.to_json()).unwrap();
        assert_eq!(format!("{:?}", read), format!("{:?}", kind));
        assert_eq!(to_value(&read.to_json()), to_value(&kind.to_json()));
    }
    assert!(ParameterKind::from_json(&JsonValue::Null).is_none());
    assert!(ParameterKind::from_json(&JsonValue::Object(vec![])).is_none());
    assert!(ParameterKind::from_json(&JsonValue::Object(vec![(
        "U8".to_string(),
        JsonValue::Object(vec![("default".to_string(), JsonValue::Unsigned(256))])
    )]))
    .is_none());
    assert!(ParameterKind::from_json(&JsonValue::Object(vec![(
        "U9".to_string(),
        JsonValue::Object(vec![("default".to_string(), JsonValue::Unsigned(1))])
    )]))
    .is_none());
}

#[test]
fn parameter_maps_are_read_back_from_their_documents() {
    let data = ParametersData::new()
        .bool("b", false)
        .unwrap()
        .rangeu64_with_default("r", (0, 10, 2), 4)
        .unwrap()
        .char_sequence("c", "text")
        .unwrap();
    let document = data.to_json();
    let read = ParametersData::from_json(&document).unwrap();
    assert_eq!(names(&read), names(&data));
    assert_eq!(to_value(&read.to_json()), to_value(&document));

    assert!(ParametersData::from_json(&JsonValue::Array(vec![])).is_none());
    assert!(ParametersData::from_json(&JsonValue::Object(vec![]))
        .unwrap()
        .is_empty());
    let invalid = JsonValue::Object(vec![(
        "r".to_string(),
        ParameterKind::RangeU64 { min: 3, max: 1, step: 1, default: 2 }.to_json(),
    )]);
    assert!(ParametersData::from_json(&invalid).is_none());
    let repeated = JsonValue::Object(vec![
        ("a".to_string(), ParameterKind::U8 { default: 1 }.to_json()),
        ("b".to_string(), ParameterKind::U8 { default: 2 }.to_json()),
        ("a".to_string(), ParameterKind::U8 { default: 3 }.to_json()),
    ]);
    let read = ParametersData::from_json(&repeated).unwrap();
    assert_eq!(names(&read), vec!["a".to_string(), "b".to_string()]);
    assert!(matches!(read.get("a"), Some(ParameterKind::U8 { default: 3 })));
}

#[test]
fn empty_map_writes_an_empty_object() {
    assert_eq!(serialize(ParametersData::new()), expected("{}"));
    assert_eq!(serialize(Parameters::one().serialize_data()), expected("{}"));
    assert!(Parameters::one().serialize_data().is_empty());
}

#[test]
fn cloned_kind_stands_for_the_same_kind() {
    let kind = ParameterKind::char_sequence("abc");
    let copy = kind.clone();
    assert_eq!(format!("{:?}", copy), format!("{:?}", kind));
    assert!(kind.is_valid());
    assert!(!ParameterKind::RangeU64 { min: 2, max: 1, step: 1, default: 1 }.is_valid());
    assert!(ParameterKind::range_u64(1, 2, 1, 1).is_ok());
    assert_eq!(
        ParameterKind::range_u64(1, 2, 1, 3).err(),
        Some(Error::InvalidParameterRange)
    );
}

#[test]
fn bounded_map_lookups_and_document() {
    let parameters = Parameters::four()
        .bool("b", true)
        .unwrap()
        .rangeu64_with_default("r", (0, 10, 2), 4)
        .unwrap()
        .bool("b", false)
        .unwrap();
    assert!(matches!(parameters.get("b"), Some(ParameterKind::Bool { default: false })));
    assert!(matches!(
        parameters.get("r"),
        Some(ParameterKind::RangeU64 { min: 0, max: 10, step: 2, default: 4 })
    ));
    assert!(parameters.get("x").is_none());
    assert!(parameters.get("").is_none());
    assert_eq!(parameters.index_of("b"), Some(0));
    assert_eq!(parameters.index_of("r"), Some(1));
    assert_eq!(parameters.index_of("x"), None);
    let direct = to_value(&parameters.to_json());
    assert_eq!(
        direct,
        expected(
            r#"{"b": {"Bool": {"default": false}},
                "r": {"RangeU64": {"min": 0, "max": 10, "step": 2, "default": 4}}}"#
        )
    );
    match parameters.to_json() {
        JsonValue::Object(members) => {
            let names: Vec<&str> = members.iter().map(|m| m.0.as_str()).collect();
            assert_eq!(names, vec!["b", "r"]);
        }
        other => panic!("not an object: {:?}", other),
    }
    assert_eq!(serialize(parameters.serialize_data()), direct);
    assert_eq!(to_value(&Parameters::one().to_json()), expected("{}"));
}

#[test]
fn ranges_as_they_are_given() {
    assert!(matches!(
        ParameterKind::range_u64_of((3, 1, 0), 9),
        ParameterKind::RangeU64 { min: 3, max: 1, step: 0, default: 9 }
    ));
    assert!(!ParameterKind::range_u64_of((3, 1, 0), 9).is_valid());
    assert!(matches!(
        ParameterKind::range_f64_of((3, 1, 0), 9),
        ParameterKind::RangeF64 { min: 3, max: 1, step: 0, default: 9 }
    ));
    assert!(ParameterKind::range_f64_of(
        (1f64.to_bits(), 2f64.to_bits(), 1f64.to_bits()),
        1.5f64.to_bits()
    )
    .is_valid());
}
