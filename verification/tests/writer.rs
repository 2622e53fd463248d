use ascot::device::action::{Action, MandatoryAction};
use ascot::device::registry::Device;
use ascot::device::table::DeviceKind;
use ascot::hazards::catalog::Hazard;
use ascot::json::writer::{text_bytes, Token};
use ascot::json::{JsonValue, Members};
use ascot::parameters::data::ParametersData;
use ascot::route::Route;
use serde_json::Value;

fn to_value(document: &JsonValue) -> Value {
    match document {
        JsonValue::Null => Value::Null,
        JsonValue::Bool(b) => Value::Bool(*b),
        JsonValue::Unsigned(n) => Value::from(*n),
        JsonValue::Signed(n) => Value::from(*n),
        JsonValue::Single(bits) => Value::from(f32::from_bits(*bits)),
        JsonValue::Double(bits) => Value::from(f64::from_bits(*bits)),
        JsonValue::Text(s) => Value::String(s.clone()),
        JsonValue::Array(items) => Value::Array(items.iter().map(to_value).collect()),
        JsonValue::Object(members) => {
            let mut map = serde_json::Map::new();
            for (name, value) in members {
                map.insert(name.clone(), to_value(value));
            }
            Value::Object(map)
        }
    }
}

fn bytes(document: &JsonValue) -> Vec<u8> {
    let mut out = Vec::new();
    for token in document.to_text() {
        match token {
            Token::Byte(b) => out.push(b),
            Token::Single(bits) => serde_json::to_writer(&mut out, &f32::from_bits(bits)).unwrap(),
            Token::Double(bits) => serde_json::to_writer(&mut out, &f64::from_bits(bits)).unwrap(),
        }
    }
    out
}

fn text(document: &JsonValue) -> String {
    String::from_utf8(bytes(document)).unwrap()
}

#[test]
fn words_and_numbers() {
    assert_eq!(text(&JsonValue::Null), "null");
    assert_eq!(text(&JsonValue::Bool(true)), "true");
    assert_eq!(text(&JsonValue::Bool(false)), "false");
    assert_eq!(text(&JsonValue::Unsigned(0)), "0");
    assert_eq!(text(&JsonValue::Unsigned(10)), "10");
    assert_eq!(text(&JsonValue::Unsigned(u64::MAX)), "18446744073709551615");
    assert_eq!(text(&JsonValue::Signed(0)), "0");
    assert_eq!(text(&JsonValue::Signed(42)), "42");
    assert_eq!(text(&JsonValue::Signed(-1)), "-1");
    assert_eq!(text(&JsonValue::Signed(-100)), "-100");
    assert_eq!(text(&JsonValue::Signed(i64::MIN)), "-9223372036854775808");
    assert_eq!(text(&JsonValue::Signed(i64::MAX)), "9223372036854775807");
    for n in [1u64, 9, 11, 99, 100, 12345, 1 << 40] {
        assert_eq!(text(&JsonValue::Unsigned(n)), serde_json::to_string(&n).unwrap());
        let negative = -(n as i64);
        assert_eq!(
            text(&JsonValue::Signed(negative)),
            serde_json::to_string(&negative).unwrap()
        );
    }
}

#[test]
fn floating_point_numbers_are_left_as_tokens() {
    assert_eq!(
        JsonValue::Double(0.1f64.to_bits()).to_text(),
        vec![Token::Double(0.1f64.to_bits())]
    );
    assert_eq!(
        JsonValue::Single(2.5f32.to_bits()).to_text(),
        vec![Token::Single(2.5f32.to_bits())]
    );
    let list = JsonValue::array(vec![
        JsonValue::Unsigned(1),
        JsonValue::Double(0.5f64.to_bits()),
    ]);
    assert_eq!(
        list.to_text(),
        vec![
            Token::Byte(b'['),
            Token::Byte(b'1'),
            Token::Byte(b','),
            Token::Double(0.5f64.to_bits()),
            Token::Byte(b']'),
        ]
    );
    assert_eq!(text_bytes(&list.to_text()), None);
    assert_eq!(text(&list), "[1,0.5]");
    assert_eq!(
        text_bytes(&JsonValue::array(vec![JsonValue::Unsigned(1)]).to_text()),
        Some(b"[1]".to_vec())
    );
    assert_eq!(text_bytes(&vec![]), Some(vec![]));
}

#[test]
fn texts_are_written_between_quotes() {
    assert_eq!(text(&JsonValue::text("")), "\"\"");
    assert_eq!(text(&JsonValue::text("abc")), "\"abc\"");
    assert_eq!(text(&JsonValue::text("a\"b")), "\"a\\\"b\"");
    assert_eq!(text(&JsonValue::text("a\\b")), "\"a\\\\b\"");
    assert_eq!(text(&JsonValue::text("a\nb")), "\"a\\nb\"");
    assert_eq!(text(&JsonValue::text("\u{1}")), "\"\\u0001\"");
    assert_eq!(text(&JsonValue::text("\u{1f}")), "\"\\u001f\"");
    assert_eq!(text(&JsonValue::text("é€😀")), "\"é€😀\"");
    for code in 0u32..0x250 {
        let c = char::from_u32(code).unwrap();
        let s = format!("<{}>", c);
        assert_eq!(
            text(&JsonValue::text(&s)),
            serde_json::to_string(&s).unwrap(),
            "character {:#x}",
            code
        );
    }
    let all: String = (0u32..0x80).map(|c| char::from_u32(c).unwrap()).collect();
    assert_eq!(text(&JsonValue::text(&all)), serde_json::to_string(&all).unwrap());
}

#[test]
fn lists_and_objects() {
    assert_eq!(text(&JsonValue::array(vec![])), "[]");
    assert_eq!(text(&JsonValue::object(vec![])), "{}");
    assert_eq!(text(&JsonValue::array(vec![JsonValue::Null])), "[null]");
    assert_eq!(
        text(&JsonValue::array(vec![
            JsonValue::Null,
            JsonValue::array(vec![]),
            JsonValue::array(vec![JsonValue::Bool(true), JsonValue::Bool(false)]),
        ])),
        "[null,[],[true,false]]"
    );
    let object = Members::new()
        .with("b", JsonValue::Unsigned(1))
        .with("a", JsonValue::text("x"))
        .with("c \"q\"", Members::new().with("d", JsonValue::Null).finish())
        .finish();
    assert_eq!(text(&object), r#"{"b":1,"a":"x","c \"q\"":{"d":null}}"#);
    assert_eq!(
        serde_json::from_slice::<Value>(&bytes(&object)).unwrap(),
        to_value(&object)
    );
}

#[test]
fn the_manifest_as_text() {
    let mut device = Device::new(DeviceKind::Light);
    device
        .add_action(
            Action::new(
                Route::put("/on")
                    .description("Turn light on.")
                    .with_hazard(Hazard::FireHazard)
                    .with_parameters(
                        ParametersData::new()
                            .rangef64_with_default(
                                "brightness",
                                (0f64.to_bits(), 1f64.to_bits(), 0.1f64.to_bits()),
                                0.5f64.to_bits(),
                            )
                            .unwrap()
                            .u8("repeat", 1)
                            .unwrap(),
                    ),
                1,
            )
            .mandatory(MandatoryAction::TurnLightOn),
        )
        .unwrap();
    device
        .add_action(Action::new(Route::put("/off"), 2).mandatory(MandatoryAction::TurnLightOff))
        .unwrap();
    let manifest = device.manifest();
    assert_eq!(
        text(&manifest),
        concat_manifest()
    );
    assert_eq!(bytes(&manifest), bytes(&device.manifest()));
    assert_eq!(
        serde_json::from_slice::<Value>(&bytes(&manifest)).unwrap(),
        to_value(&manifest)
    );
    let finalized = device.finalize().unwrap();
    assert_eq!(bytes(&finalized.manifest), bytes(&manifest));
}

fn concat_manifest() -> String {
    [
        r#"{"kind":"Light","main_route":"/light","routes":["#,
        r#"{"route":"/on","method":"PUT","description":"Turn light on.","#,
        r#""parameters":{"brightness":{"RangeF64":{"min":0.0,"max":1.0,"step":0.1,"default":0.5}},"#,
        r#""repeat":{"U8":{"default":1}}},"#,
        r#""hazards":[{"id":6,"name":"Fire Hazard","category":"Safety","#,
        r#""description":"The execution may cause fire."}]},"#,
        r#"{"route":"/off","method":"PUT","description":"","parameters":{},"hazards":[]}"#,
        r#"]}"#,
    ]
    .join("")
}
