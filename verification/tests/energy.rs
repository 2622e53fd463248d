use ascot::collections::{Element, OutputSet};
use ascot::energy::{CarbonFootprint, Energy, EnergyClass, EnergyEfficiency, WaterUseEfficiency};
use ascot::json::JsonValue;

fn all_classes() -> Vec<EnergyClass> {
    vec![
        EnergyClass::APlusPlusPlus,
        EnergyClass::APlusPlus,
        EnergyClass::APlus,
        EnergyClass::A,
        EnergyClass::B,
        EnergyClass::C,
        EnergyClass::D,
        EnergyClass::E,
        EnergyClass::F,
        EnergyClass::G,
    ]
}

#[test]
fn test_energy_class() {
    for energy_class in &all_classes() {
        assert_eq!(
            EnergyClass::from_json(&energy_class.to_json()),
            Some(*energy_class)
        );
    }
}

#[test]
fn test_energy_efficiency_serde() {
    let energy_efficiency = EnergyEfficiency::new(100, EnergyClass::A);

    assert_eq!(
        EnergyEfficiency::from_json(&energy_efficiency.to_json()),
        Some(energy_efficiency)
    );
}

#[test]
fn test_energy_efficiency_clamping() {
    assert_eq!(EnergyEfficiency::new(127, EnergyClass::A).percentage, 100);
    assert_eq!(EnergyEfficiency::new(-128, EnergyClass::B).percentage, -100);
    assert_eq!(EnergyEfficiency::new(50, EnergyClass::C).percentage, 50);
}

#[test]
fn test_carbon_footprint_serde() {
    let carbon_footprint = CarbonFootprint::new(100, EnergyClass::A);

    assert_eq!(
        CarbonFootprint::from_json(&carbon_footprint.to_json()),
        Some(carbon_footprint)
    );
}

#[test]
fn test_carbon_footprint_clamping() {
    assert_eq!(CarbonFootprint::new(127, EnergyClass::A).percentage, 100);
    assert_eq!(CarbonFootprint::new(-128, EnergyClass::B).percentage, -100);
    assert_eq!(CarbonFootprint::new(50, EnergyClass::C).percentage, 50);
}

#[test]
fn energy_class_labels() {
    let labels = ["A+++", "A++", "A+", "A", "B", "C", "D", "E", "F", "G"];
    for (class, label) in all_classes().iter().zip(labels.iter()) {
        assert_eq!(class.name(), *label);
        assert_eq!(EnergyClass::from_name(label), Some(*class));
        assert!(matches!(class.to_json(), JsonValue::Text(ref s) if s == label));
    }
    assert_eq!(EnergyClass::from_name("H"), None);
    assert_eq!(EnergyClass::from_name("a"), None);
    assert_eq!(EnergyClass::from_name(""), None);
}

#[test]
fn energy_efficiency_document_shape() {
    let document = EnergyEfficiency::new(-50, EnergyClass::APlus).to_json();
    match document {
        JsonValue::Object(members) => {
            assert_eq!(members.len(), 2);
            assert_eq!(members[0].0, "percentage");
            assert!(matches!(members[0].1, JsonValue::Signed(-50)));
            assert_eq!(members[1].0, "energy-class");
            assert!(matches!(members[1].1, JsonValue::Text(ref s) if s == "A+"));
        }
        other => panic!("not an object: {:?}", other),
    }
}

#[test]
fn energy_efficiency_reading_rejects_other_documents() {
    assert_eq!(EnergyEfficiency::from_json(&JsonValue::Null), None);
    assert_eq!(
        EnergyEfficiency::from_json(&JsonValue::Object(vec![(
            "percentage".to_string(),
            JsonValue::Signed(5)
        )])),
        None
    );
    assert_eq!(
        EnergyEfficiency::from_json(&JsonValue::Object(vec![
            ("energy-class".to_string(), JsonValue::Text("B".to_string())),
            ("percentage".to_string(), JsonValue::Unsigned(128)),
        ])),
        None
    );
    assert_eq!(
        EnergyEfficiency::from_json(&JsonValue::Object(vec![
            ("energy-class".to_string(), JsonValue::Text("B".to_string())),
            ("percentage".to_string(), JsonValue::Unsigned(127)),
        ])),
        Some(EnergyEfficiency {
            percentage: 127,
            energy_class: EnergyClass::B
        })
    );
}

fn efficiencies(energy: &Energy) -> Vec<EnergyEfficiency> {
    match &energy.energy_efficiencies {
        Some(set) => (0..set.len()).map(|i| set.get(i).unwrap()).collect(),
        None => vec![],
    }
}

fn footprints(energy: &Energy) -> Vec<CarbonFootprint> {
    match &energy.carbon_footprints {
        Some(set) => (0..set.len()).map(|i| set.get(i).unwrap()).collect(),
        None => vec![],
    }
}

#[test]
fn test_water_use_efficiency_serde() {
    let water_use_efficiency = WaterUseEfficiency::init_with_gpp(2.5f64.to_bits())
        .penman_monteith_equation(3.2f64.to_bits())
        .wer(1.1f64.to_bits());

    assert_eq!(
        WaterUseEfficiency::from_json(&water_use_efficiency.to_json()),
        Some(water_use_efficiency)
    );
}

#[test]
fn test_energy() {
    let mut energy = Energy::empty();

    let energy_efficiencies = OutputSet::init(EnergyEfficiency::new(-50, EnergyClass::A))
        .with(EnergyEfficiency::new(50, EnergyClass::B));

    let carbon_footprints = OutputSet::init(CarbonFootprint::new(-50, EnergyClass::A))
        .with(CarbonFootprint::new(50, EnergyClass::B));

    let water_use_efficiency = WaterUseEfficiency::init_with_gpp(2.5f64.to_bits())
        .penman_monteith_equation(3.2f64.to_bits())
        .wer(1.1f64.to_bits());

    assert!(energy.is_empty());

    energy = energy
        .energy_efficiencies(energy_efficiencies)
        .carbon_footprints(carbon_footprints)
        .water_use_efficiency(water_use_efficiency);

    assert!(!energy.is_empty());
    let read = Energy::from_json(&energy.to_json()).unwrap();
    assert_eq!(efficiencies(&read), efficiencies(&energy));
    assert_eq!(footprints(&read), footprints(&energy));
    assert_eq!(read.water_use_efficiency, energy.water_use_efficiency);
    assert_eq!(efficiencies(&read).len(), 2);
    assert_eq!(footprints(&read).len(), 2);
}

#[test]
fn energy_leaves_out_what_is_missing() {
    match Energy::empty().to_json() {
        JsonValue::Object(members) => assert!(members.is_empty()),
        other => panic!("not an object: {:?}", other),
    }
    let only_water =
        Energy::init_with_water_use_efficiency(WaterUseEfficiency::init_with_wer(1f64.to_bits()));
    match only_water.to_json() {
        JsonValue::Object(members) => {
            assert_eq!(members.len(), 1);
            assert_eq!(members[0].0, "water-use-efficiency");
        }
        other => panic!("not an object: {:?}", other),
    }
    let read = Energy::from_json(&only_water.to_json()).unwrap();
    assert!(read.energy_efficiencies.is_none());
    assert!(read.carbon_footprints.is_none());
    assert_eq!(
        read.water_use_efficiency,
        Some(WaterUseEfficiency { gpp: None, penman_monteith_equation: None, wer: Some(1f64.to_bits()) })
    );
    let only_efficiencies = Energy::init_with_energy_efficiencies(OutputSet::init(
        EnergyEfficiency::new(1, EnergyClass::G),
    ));
    assert_eq!(efficiencies(&only_efficiencies).len(), 1);
    let only_footprints =
        Energy::init_with_carbon_footprints(OutputSet::init(CarbonFootprint::new(1, EnergyClass::G)));
    assert_eq!(footprints(&only_footprints).len(), 1);
    assert!(Energy::from_json(&JsonValue::Null).is_none());
    assert!(Energy::from_json(&JsonValue::Object(vec![(
        "carbon-footprints".to_string(),
        JsonValue::Bool(true)
    )]))
    .is_none());
}

#[test]
fn water_metrics_document_shape() {
    let water = WaterUseEfficiency::init_with_penman_monteith_equation(3.5f64.to_bits());
    match water.to_json() {
        JsonValue::Object(members) => {
            assert_eq!(members.len(), 3);
            assert_eq!(members[0].0, "gross-primary-productivity");
            assert!(matches!(members[0].1, JsonValue::Null));
            assert_eq!(members[1].0, "penman-monteith-equation");
            assert!(matches!(members[1].1, JsonValue::Double(bits) if f64::from_bits(bits) == 3.5));
            assert_eq!(members[2].0, "water-equivalent-ratio");
            assert!(matches!(members[2].1, JsonValue::Null));
        }
        other => panic!("not an object: {:?}", other),
    }
    assert_eq!(
        WaterUseEfficiency::from_json(&JsonValue::Object(vec![])),
        Some(WaterUseEfficiency { gpp: None, penman_monteith_equation: None, wer: None })
    );
    assert_eq!(
        WaterUseEfficiency::from_json(&JsonValue::Object(vec![(
            "water-equivalent-ratio".to_string(),
            JsonValue::Unsigned(1)
        )])),
        None
    );
    assert_eq!(WaterUseEfficiency::from_json(&JsonValue::Null), None);
}

#[test]
fn energy_in_words() {
    assert_eq!(
        EnergyEfficiency::new(-50, EnergyClass::A).description(),
        "The device saves a 50% of energy for the \"A\" efficiency class"
    );
    assert_eq!(
        EnergyEfficiency::new(7, EnergyClass::APlusPlus).description(),
        "The device consumes a 7% of energy for the \"A++\" efficiency class"
    );
    assert_eq!(
        EnergyEfficiency::new(0, EnergyClass::G).description(),
        "The device consumes a 0% of energy for the \"G\" efficiency class"
    );
    assert_eq!(
        CarbonFootprint::new(-100, EnergyClass::B).description(),
        "The device removes from the atmosphere a 100% of greenhouse gases for the \"B\" efficiency class"
    );
    assert_eq!(
        CarbonFootprint::new(100, EnergyClass::C).description(),
        "The device adds to the atmosphere a 100% of greenhouse gases for the \"C\" efficiency class"
    );
    assert_eq!(
        EnergyEfficiency { percentage: -128, energy_class: EnergyClass::D }.description(),
        "The device saves a 128% of energy for the \"D\" efficiency class"
    );
}

#[test]
fn clamping_at_the_limits() {
    assert_eq!(EnergyEfficiency::new(100, EnergyClass::A).percentage, 100);
    assert_eq!(EnergyEfficiency::new(101, EnergyClass::A).percentage, 100);
    assert_eq!(EnergyEfficiency::new(99, EnergyClass::A).percentage, 99);
    assert_eq!(EnergyEfficiency::new(-100, EnergyClass::A).percentage, -100);
    assert_eq!(EnergyEfficiency::new(-101, EnergyClass::A).percentage, -100);
    assert_eq!(EnergyEfficiency::new(-99, EnergyClass::A).percentage, -99);
    assert_eq!(CarbonFootprint::new(0, EnergyClass::F).energy_class, EnergyClass::F);
}
