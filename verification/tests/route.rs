use ascot::hazards::catalog::{Hazard, Hazards};
use ascot::json::JsonValue;
use ascot::parameters::data::ParametersData;
use ascot::parameters::kind::ParameterKind;
use ascot::route::{RestKind, Route};
use serde_json::Value;

fn to_value(document: &JsonValue) -> Value {
    match document {
        JsonValue::Null => Value::Null,
        JsonValue::Bool(b) => Value::Bool(*b),
        JsonValue::Unsigned(n) => Value::from(*n),
        JsonValue::Signed(n) => Value::from(*n),
        JsonValue::Single(bits) => Value::from(f32::from_bits(*bits)),
        JsonValue::Double(bits) => Value::from(f64::from_bits(*bits)),
        JsonValue::Text(s) => Value::String(s.clone()),
        JsonValue::Array(items) => Value::Array(items.iter().map(to_value).collect()),
        JsonValue::Object(members) => {
            let mut map = serde_json::Map::new();
            for (name, value) in members {
                map.insert(name.clone(), to_value(value));
            }
            Value::Object(map)
        }
    }
}

fn hazards(route: &Route) -> Vec<Hazard> {
    let set = route.hazards();
    (0..set.len()).map(|i| set.get(i).unwrap()).collect()
}

fn parameter_names(route: &Route) -> Vec<String> {
    let data = route.parameters();
    (0..data.len())
        .map(|i| data.entry(i).unwrap().0.to_string())
        .collect()
}

#[test]
fn the_four_methods() {
    assert_eq!(Route::get("/a").kind(), RestKind::Get);
    assert_eq!(Route::put("/a").kind(), RestKind::Put);
    assert_eq!(Route::post("/a").kind(), RestKind::Post);
    assert_eq!(Route::delete("/a").kind(), RestKind::Delete);
    assert_eq!(RestKind::Get.name(), "GET");
    assert_eq!(RestKind::Put.name(), "PUT");
    assert_eq!(RestKind::Post.name(), "POST");
    assert_eq!(RestKind::Delete.name(), "DELETE");
    for kind in [RestKind::Get, RestKind::Put, RestKind::Post, RestKind::Delete] {
        assert_eq!(RestKind::from_name(kind.name()), Some(kind));
    }
    assert_eq!(RestKind::from_name("get"), None);
    assert_eq!(RestKind::from_name("PATCH"), None);
    assert_eq!(RestKind::from_name(""), None);
}

#[test]
fn a_new_route_is_bare() {
    let route = Route::put("/on");
    assert_eq!(route.route(), "/on");
    assert_eq!(route.description_text(), "");
    assert!(route.hazards().is_empty());
    assert!(route.parameters().is_empty());
    assert_eq!(
        to_value(&route.to_json()),
        serde_json::from_str::<Value>(
            r#"{"route": "/on", "method": "PUT", "description": "",
                "parameters": {}, "hazards": []}"#
        )
        .unwrap()
    );
}

#[test]
fn hazards_are_attached_once() {
    let route = Route::put("/on")
        .description("Turn light on.")
        .with_hazard(Hazard::FireHazard)
        .with_hazard(Hazard::ElectricEnergyConsumption)
        .with_hazard(Hazard::FireHazard);
    assert_eq!(route.description_text(), "Turn light on.");
    assert_eq!(
        hazards(&route),
        vec![Hazard::FireHazard, Hazard::ElectricEnergyConsumption]
    );

    let route = route.with_slice_hazards(&[
        Hazard::ElectricEnergyConsumption,
        Hazard::SpoiledFood,
        Hazard::SpoiledFood,
    ]);
    assert_eq!(
        hazards(&route),
        vec![
            Hazard::FireHazard,
            Hazard::ElectricEnergyConsumption,
            Hazard::SpoiledFood
        ]
    );

    let route = route.with_hazards(Hazards::init(Hazard::Explosion));
    assert_eq!(hazards(&route), vec![Hazard::Explosion]);
}

#[test]
fn parameters_are_replaced_not_merged() {
    let first = ParametersData::new().bool("a", true).unwrap().u8("b", 1).unwrap();
    let second = ParametersData::new().u16("c", 2).unwrap();
    let route = Route::post("/p").with_parameters(first);
    assert_eq!(parameter_names(&route), vec!["a".to_string(), "b".to_string()]);
    let route = route.with_parameters(second);
    assert_eq!(parameter_names(&route), vec!["c".to_string()]);
    assert!(matches!(
        route.parameters().get("c"),
        Some(ParameterKind::U16 { default: 2 })
    ));
}

#[test]
fn identity_is_method_and_path() {
    let put_on = Route::put("/on").description("one");
    let other_put_on = Route::put("/on").description("two").with_hazard(Hazard::FireHazard);
    let get_on = Route::get("/on");
    let put_off = Route::put("/off");
    assert!(put_on.same_as(&other_put_on));
    assert!(!put_on.same_as(&get_on));
    assert!(!put_on.same_as(&put_off));
    assert!(put_on.answers(RestKind::Put, "/on"));
    assert!(!put_on.answers(RestKind::Put, "/on/"));
    assert!(!put_on.answers(RestKind::Post, "/on"));
}

#[test]
fn route_document() {
    let route = Route::put("/increase-temperature")
        .description("Increase temperature.")
        .with_slice_hazards(&[Hazard::ElectricEnergyConsumption, Hazard::SpoiledFood])
        .with_parameters(
            ParametersData::new()
                .rangef64_with_default(
                    "increment",
                    (1f64.to_bits(), 4f64.to_bits(), 0.1f64.to_bits()),
                    2f64.to_bits(),
                )
                .unwrap(),
        );
    assert_eq!(
        to_value(&route.to_json()),
        serde_json::from_str::<Value>(
            r#"{
                "route": "/increase-temperature",
                "method": "PUT",
                "description": "Increase temperature.",
                "parameters": {
                    "increment": {
                        "RangeF64": { "min": 1.0, "max": 4.0, "step": 0.1, "default": 2.0 }
                    }
                },
                "hazards": [
                    { "id": 4, "name": "Electric Energy Consumption", "category": "Financial",
                      "description": "The execution enables a device that consumes electricity." },
                    { "id": 16, "name": "Spoiled Food", "category": "Safety",
                      "description": "The execution may lead to rotten food." }
                ]
            }"#
        )
        .unwrap()
    );
    match route.to_json() {
        JsonValue::Object(members) => {
            let names: Vec<&str> = members.iter().map(|m| m.0.as_str()).collect();
            assert_eq!(
                names,
                vec!["route", "method", "description", "parameters", "hazards"]
            );
        }
        other => panic!("not an object: {:?}", other),
    }
}

#[test]
fn routes_are_read_back_from_their_documents() {
    let route = Route::delete("/things/1")
        .description("Removes a thing.")
        .with_hazard(Hazard::RecordIssuedCommands)
        .with_hazard(Hazard::PowerOutage)
        .with_parameters(
            ParametersData::new()
                .bool("force", false)
                .unwrap()
                .rangeu64_with_default("count", (1, 9, 2), 3)
                .unwrap()
                .char_sequence("why", "because")
                .unwrap()
                .float64("ratio", 0.75f64.to_bits())
                .unwrap(),
        );
    let document = route.to_json();
    let read = Route::from_json(&document).unwrap();
    assert!(read.same_as(&route));
    assert_eq!(read.description_text(), route.description_text());
    assert_eq!(hazards(&read), hazards(&route));
    assert_eq!(parameter_names(&read), parameter_names(&route));
    assert_eq!(to_value(&read.to_json()), to_value(&document));

    let bare = Route::get("/");
    let read = Route::from_json(&bare.to_json()).unwrap();
    assert!(read.same_as(&bare));
    assert!(read.hazards().is_empty());
    assert!(read.parameters().is_empty());
}

#[test]
fn unreadable_routes() {
    let members = |method: &str, with_hazards: bool| {
        let mut members = vec![
            ("route".to_string(), JsonValue::Text("/x".to_string())),
            ("method".to_string(), JsonValue::Text(method.to_string())),
            ("description".to_string(), JsonValue::Text(String::new())),
            ("parameters".to_string(), JsonValue::Object(vec![])),
        ];
        if with_hazards {
            members.push(("hazards".to_string(), JsonValue::Array(vec![])));
        }
        JsonValue::Object(members)
    };
    assert!(Route::from_json(&members("GET", true)).is_some());
    assert!(Route::from_json(&members("GET", false)).is_none());
    assert!(Route::from_json(&members("FETCH", true)).is_none());
    assert!(Route::from_json(&JsonValue::Array(vec![])).is_none());
}
